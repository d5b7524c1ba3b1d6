use mnml_msg_buttondown::app::{App, Item};
use mnml_msg_buttondown::buttondown::{Auth, Email, EmailAnalytics, Subscriber};
use mnml_msg_buttondown::config::{Config, Tab};
use mnml_msg_buttondown::view::{
    detail_view, key_hint, list_view, list_window_start, row_color_for, status_view, tab_labels,
    truncate, DetailLine, DetailView, ListView, RowColor,
};

fn email(id: &str, subject: &str) -> Email {
    Email {
        id: id.into(),
        subject: subject.into(),
        body: "".into(),
        status: None,
        email_type: None,
        creation_date: None,
        publish_date: None,
        modification_date: None,
        word_count: None,
        analytics: None,
    }
}

fn subscriber(id: &str, kind: Option<&str>) -> Subscriber {
    Subscriber {
        id: id.into(),
        email_address: format!("{id}@example.com"),
        sub_type: kind.map(|k| k.to_string()),
        creation_date: None,
        notes: None,
        source: None,
        metadata: None,
    }
}

fn app_with(kinds: &[&str]) -> App {
    let cfg = Config {
        refresh_interval_secs: 60,
        tabs: kinds
            .iter()
            .map(|k| Tab {
                name: k.to_string(),
                kind: k.to_string(),
            })
            .collect(),
    };
    App::new(
        cfg,
        Auth {
            api_key: "k".into(),
        },
    )
    .unwrap()
    .0
}

#[test]
fn truncate_short_strings_unchanged() {
    assert_eq!(truncate("short", 10), "short");
}

#[test]
fn truncate_long_strings_get_ellipsis() {
    let s = truncate("this is a fairly long subject line", 10);
    assert_eq!(s.chars().count(), 10);
    assert!(s.ends_with('…'));
}

#[test]
fn truncate_edges() {
    assert_eq!(truncate("abcdefghij", 10), "abcdefghij");
    assert_eq!(truncate("abcdefghijk", 10), "abcdefghi…");
    assert_eq!(truncate("ab", 1), "…");
    assert_eq!(truncate("ab", 0), "…");
    assert_eq!(truncate("", 0), "");
}

#[test]
fn window_keeps_cursor_near_middle() {
    assert_eq!(list_window_start(5, 4, 10), 0);
    assert_eq!(list_window_start(100, 0, 10), 0);
    assert_eq!(list_window_start(100, 50, 10), 45);
    assert_eq!(list_window_start(100, 99, 10), 90);
    assert_eq!(list_window_start(100, 3, 0), 3);
}

#[test]
fn tab_strip_badges() {
    let mut app = app_with(&["drafts", "sent", "subscribers"]);
    app.finish_refresh(
        0,
        Ok((vec![Item::Email(email("a", "A")), Item::Email(email("b", "B"))], Some(9))),
        1,
    );
    app.tabs[1].data.last_error = Some("x".into());
    app.tabs[2].data.loading = true;
    let labels = tab_labels(&app);
    assert_eq!(labels, vec!["1.drafts (2+)", "2.sent (err)", "3.subscribers (…)"]);
    app.finish_refresh(0, Ok((vec![Item::Email(email("a", "A"))], Some(1))), 2);
    assert_eq!(tab_labels(&app)[0], "1.drafts (1)");
}

#[test]
fn list_view_states() {
    let mut app = app_with(&["drafts"]);
    match list_view(&app.tabs[0], 10) {
        ListView::Placeholder(m) => assert_eq!(m, "(loading…)"),
        other => panic!("{other:?}"),
    }
    app.finish_refresh(0, Ok((vec![], None)), 1);
    match list_view(&app.tabs[0], 10) {
        ListView::Placeholder(m) => assert_eq!(m, "(none)"),
        other => panic!("{other:?}"),
    }
    app.finish_refresh(0, Err("boom".into()), 2);
    match list_view(&app.tabs[0], 10) {
        ListView::Failed(m) => assert_eq!(m, "error: boom"),
        other => panic!("{other:?}"),
    }
}

#[test]
fn list_view_rows() {
    let mut app = app_with(&["drafts"]);
    let items: Vec<Item> = (0..5)
        .map(|i| Item::Email(email(&i.to_string(), &format!("Subject {i}"))))
        .collect();
    app.finish_refresh(0, Ok((items, None)), 1);
    app.move_selection(4);
    match list_view(&app.tabs[0], 3) {
        ListView::Rows { title, rows } => {
            assert_eq!(title, " drafts (5) ");
            assert_eq!(rows.len(), 3);
            assert!(rows[2].selected);
            assert!(!rows[0].selected);
            assert_eq!(
                rows[2].text,
                format!("▸ {:<38}  — · —w", "Subject 4")
            );
            assert_eq!(rows[0].text, format!("  {:<38}  — · —w", "Subject 2"));
            assert_eq!(rows[0].color, RowColor::White);
        }
        other => panic!("{other:?}"),
    }
    let long = "x".repeat(50);
    app.finish_refresh(0, Ok((vec![Item::Email(email("l", &long))], None)), 2);
    match list_view(&app.tabs[0], 3) {
        ListView::Rows { rows, .. } => {
            assert_eq!(rows[0].text, format!("▸ {}…  — · —w", "x".repeat(37)));
        }
        other => panic!("{other:?}"),
    }
}

#[test]
fn subscriber_row_colors() {
    let c = |t: Option<&str>| row_color_for(&Item::Subscriber(subscriber("s", t)), "subscribers");
    assert_eq!(c(Some("premium")), RowColor::Yellow);
    assert_eq!(c(Some("regular")), RowColor::Green);
    assert_eq!(c(Some("unactivated")), RowColor::Gray);
    assert_eq!(c(Some("unsubscribed")), RowColor::Red);
    assert_eq!(c(Some("removed")), RowColor::Red);
    assert_eq!(c(Some("unpaid")), RowColor::Gray);
    assert_eq!(c(None), RowColor::Gray);
    assert_eq!(
        row_color_for(&Item::Email(email("e", "s")), "drafts"),
        RowColor::White
    );
}

fn field(k: &str, v: &str) -> DetailLine {
    DetailLine::Field {
        key: format!(" {k:<18}"),
        value: v.into(),
    }
}

fn same(a: &[DetailLine], b: &[DetailLine]) -> bool {
    format!("{a:?}") == format!("{b:?}")
}

#[test]
fn email_detail_lines() {
    let mut e = email("abc-123", "");
    e.status = Some("draft".into());
    e.creation_date = Some("2026-06-05T00:00:00Z".into());
    e.word_count = Some(812);
    e.analytics = Some(EmailAnalytics {
        recipients: Some(10),
        opens: None,
        clicks: Some(2),
    });
    e.body = "# heading\r\nline two\n".into();
    match detail_view(Some(&Item::Email(e))) {
        DetailView::Lines(ls) => {
            let want = vec![
                field("Subject", "(none)"),
                field("ID", "abc-123"),
                field("Status", "draft"),
                field("Created", "2026-06-05T00:00:00Z"),
                field("Word count", "812"),
                field("Recipients", "10"),
                field("Clicks", "2"),
                DetailLine::Blank,
                DetailLine::Heading(" Body ".into()),
                DetailLine::Body(" # heading".into()),
                DetailLine::Body(" line two".into()),
            ];
            assert!(same(&ls, &want), "{ls:?}");
        }
        other => panic!("{other:?}"),
    }
    match detail_view(None) {
        DetailView::Placeholder(m) => assert_eq!(m, "(no item selected)"),
        other => panic!("{other:?}"),
    }
}

#[test]
fn email_body_shows_forty_lines() {
    let mut e = email("a", "s");
    e.body = (0..50).map(|i| format!("l{i}\n")).collect();
    match detail_view(Some(&Item::Email(e))) {
        DetailView::Lines(ls) => {
            assert_eq!(ls.len(), 2 + 2 + 40);
            assert!(same(&ls[43..], &[DetailLine::Body(" l39".into())]));
        }
        other => panic!("{other:?}"),
    }
}

#[test]
fn subscriber_detail_lines() {
    let mut s = subscriber("sub-1", Some("premium"));
    s.source = Some("embed".into());
    s.notes = Some("VIP\nsecond".into());
    s.metadata = Some("{\n  \"plan\": \"gold\"\n}".into());
    match detail_view(Some(&Item::Subscriber(s))) {
        DetailView::Lines(ls) => {
            let want = vec![
                field("Email", "sub-1@example.com"),
                field("ID", "sub-1"),
                field("Type", "premium"),
                field("Source", "embed"),
                DetailLine::Blank,
                DetailLine::Heading(" Notes ".into()),
                DetailLine::Body(" VIP".into()),
                DetailLine::Body(" second".into()),
                DetailLine::Blank,
                DetailLine::Heading(" Metadata ".into()),
                DetailLine::Meta(" {".into()),
                DetailLine::Meta("   \"plan\": \"gold\"".into()),
                DetailLine::Meta(" }".into()),
            ];
            assert!(same(&ls, &want), "{ls:?}");
        }
        other => panic!("{other:?}"),
    }
}

#[test]
fn status_line_highlights_prompts() {
    let mut app = app_with(&["subscribers"]);
    let (text, hl) = status_view(&app);
    assert_eq!(text, " loading subscribers… ");
    assert!(!hl);
    app.finish_refresh(
        0,
        Ok((vec![Item::Subscriber(subscriber("a", None))], None)),
        1,
    );
    app.request_unsubscribe();
    let (text, hl) = status_view(&app);
    assert_eq!(text, " unsubscribe a@example.com? [y/n] ");
    assert!(hl);
    assert!(key_hint().contains("q quit"));
}
