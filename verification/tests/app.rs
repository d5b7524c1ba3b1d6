use mnml_msg_buttondown::app::{
    publish_date_5min_from_now, publish_date_after, short_date, App, ConfirmAction, FetchRequest,
    Item, Listing, TabSpec,
};
use mnml_msg_buttondown::buttondown::{Auth, Email, EmailAnalytics, Method, Subscriber};
use mnml_msg_buttondown::config::{Config, Tab};

fn tab(name: &str, kind: &str) -> Tab {
    Tab {
        name: name.into(),
        kind: kind.into(),
    }
}

fn email(id: &str, subject: &str) -> Email {
    Email {
        id: id.into(),
        subject: subject.into(),
        body: "".into(),
        status: None,
        email_type: None,
        creation_date: None,
        publish_date: None,
        modification_date: None,
        word_count: None,
        analytics: None,
    }
}

fn subscriber(id: &str, address: &str) -> Subscriber {
    Subscriber {
        id: id.into(),
        email_address: address.into(),
        sub_type: None,
        creation_date: None,
        notes: None,
        source: None,
        metadata: None,
    }
}

fn auth() -> Auth {
    Auth {
        api_key: "k".into(),
    }
}

fn app_with(kinds: &[&str]) -> App {
    let cfg = Config {
        refresh_interval_secs: 60,
        tabs: kinds.iter().map(|k| tab(k, k)).collect(),
    };
    App::new(cfg, auth()).expect("known kinds").0
}

#[test]
fn tab_spec_resolves_known_kinds() {
    for kind in ["drafts", "sent", "scheduled", "subscribers"] {
        let t = Tab {
            name: kind.into(),
            kind: kind.into(),
        };
        assert!(TabSpec::resolve(&t).is_ok());
    }
}

#[test]
fn tab_spec_rejects_unknown_kind() {
    let t = Tab {
        name: "bad".into(),
        kind: "bogus".into(),
    };
    assert!(TabSpec::resolve(&t).is_err());
}

#[test]
fn short_date_extracts_ymd() {
    assert_eq!(short_date("2026-05-01T00:00:00Z"), "2026-05-01");
    assert_eq!(short_date("bare-string"), "bare-string");
}

#[test]
fn publish_date_helper_shape() {
    let s = publish_date_5min_from_now().unwrap();
    // 2026-06-07T13:00:00Z — len 20, ends in Z.
    assert_eq!(s.len(), 20);
    assert!(s.ends_with('Z'));
    assert!(s.contains('T'));
}

/// Confirm-state machine: requesting + accepting + cancelling.
#[test]
fn publish_confirm_state_machine() {
    let auth = Auth {
        api_key: "k".into(),
    };
    let action = ConfirmAction::PublishDraft {
        id: "abc-1".into(),
        publish_date: "2026-06-07T13:00:00Z".into(),
    };
    assert!(action.prompt().contains("publish"));
    assert!(action.prompt().contains("2026-06-07T13:00:00Z"));
    let _ = auth;
}

#[test]
fn unsubscribe_confirm_state_machine() {
    let action = ConfirmAction::Unsubscribe {
        id: "sub-1".into(),
        email: "alice@example.com".into(),
    };
    assert!(action.prompt().contains("unsubscribe"));
    assert!(action.prompt().contains("alice@example.com"));
}

#[test]
fn email_item_primary_label_falls_back_for_empty_subject() {
    let email = Email {
        id: "x".into(),
        subject: "".into(),
        body: "".into(),
        status: None,
        email_type: None,
        creation_date: None,
        publish_date: None,
        modification_date: None,
        word_count: None,
        analytics: None,
    };
    assert_eq!(Item::Email(email).primary_label(), "(no subject)");
}

#[test]
fn subscriber_item_secondary_includes_type_and_notes() {
    let sub = Subscriber {
        id: "s".into(),
        email_address: "a@b.com".into(),
        sub_type: Some("premium".into()),
        creation_date: Some("2026-01-01T00:00:00Z".into()),
        notes: Some("VIP".into()),
        source: None,
        metadata: None,
    };
    let label = Item::Subscriber(sub).secondary_label("subscribers");
    assert!(label.contains("premium"));
    assert!(label.contains("2026-01-01"));
    assert!(label.contains("VIP"));
}

// ── labels ──────────────────────────────────────────────────────────

#[test]
fn secondary_label_exact_values() {
    let mut e = email("d-1", "Draft");
    e.creation_date = Some("2026-05-01T00:00:00Z".into());
    e.word_count = Some(812);
    assert_eq!(Item::Email(e.clone()).secondary_label("drafts"), "2026-05-01 · 812w");
    e.word_count = None;
    assert_eq!(Item::Email(e.clone()).secondary_label("drafts"), "2026-05-01 · —w");

    let mut s = email("s-1", "Sent");
    s.publish_date = Some("2026-04-01T00:00:00Z".into());
    s.email_type = Some("public".into());
    s.analytics = Some(EmailAnalytics {
        recipients: Some(1200),
        opens: Some(650),
        clicks: None,
    });
    assert_eq!(
        Item::Email(s.clone()).secondary_label("sent"),
        "2026-04-01 · public · 650o/—c"
    );
    s.analytics = None;
    assert_eq!(Item::Email(s.clone()).secondary_label("sent"), "2026-04-01 · public");
    assert_eq!(Item::Email(s.clone()).secondary_label("scheduled"), "⏰ 2026-04-01");
    assert_eq!(Item::Email(s).secondary_label("other"), "");
    assert_eq!(
        Item::Email(email("x", "y")).secondary_label("scheduled"),
        "⏰ —"
    );
}

#[test]
fn subscriber_notes_are_cut_to_one_line() {
    let mut sub = subscriber("s", "a@b.com");
    sub.notes = Some("first line\nsecond line".into());
    assert_eq!(
        Item::Subscriber(sub.clone()).secondary_label("subscribers"),
        "— · — · first line"
    );
    sub.notes = Some("x".repeat(41));
    let label = Item::Subscriber(sub.clone()).secondary_label("subscribers");
    assert_eq!(label, format!("— · — · {}…", "x".repeat(39)));
    sub.notes = Some("x".repeat(40));
    let label = Item::Subscriber(sub.clone()).secondary_label("subscribers");
    assert_eq!(label, format!("— · — · {}", "x".repeat(40)));
    sub.notes = Some("".into());
    assert_eq!(Item::Subscriber(sub).secondary_label("subscribers"), "— · —");
}

#[test]
fn primary_label_and_id() {
    let item = Item::Subscriber(subscriber("sub-9", ""));
    assert_eq!(item.primary_label(), "(no email)");
    assert_eq!(item.id(), "sub-9");
    let item = Item::Email(email("e-1", "Hello"));
    assert_eq!(item.primary_label(), "Hello");
    assert_eq!(item.id(), "e-1");
}

#[test]
fn resolve_error_message_names_tab_and_kind() {
    let err = TabSpec::resolve(&tab("bad", "bogus")).unwrap_err();
    assert_eq!(err.message(), "tab `bad`: unknown kind \"bogus\"");
}

// ── publish dates ───────────────────────────────────────────────────

#[test]
fn publish_date_is_five_minutes_later() {
    assert_eq!(publish_date_after(0).unwrap(), "1970-01-01T00:05:00Z");
    assert_eq!(
        publish_date_after(1_780_837_200).unwrap(),
        "2026-06-07T13:05:00Z"
    );
    assert!(publish_date_after(i64::MAX).is_none());
}

#[test]
fn publish_date_before_the_epoch() {
    assert_eq!(publish_date_after(-400).unwrap(), "1969-12-31T23:58:20Z");
    assert_eq!(
        publish_date_after(-62_167_219_200 - 300).unwrap(),
        "0000-01-01T00:00:00Z"
    );
}

#[test]
fn publish_date_at_the_edges_of_chrono() {
    assert_eq!(
        publish_date_after(8_210_266_876_799 - 300).unwrap(),
        "+262142-12-31T23:59:59Z"
    );
    assert!(publish_date_after(8_210_266_876_799 - 299).is_none());
    assert_eq!(
        publish_date_after(-8_334_601_228_800 - 300).unwrap(),
        "-262143-01-01T00:00:00Z"
    );
    assert!(publish_date_after(-8_334_601_228_800 - 301).is_none());
    // After the year 9999 chrono writes the year with a sign.
    let far = publish_date_after(253_402_300_799).unwrap();
    assert!(far.starts_with("+10000-"));
}

// ── app state machine ───────────────────────────────────────────────

#[test]
fn new_app_starts_loading_first_tab() {
    let cfg = Config {
        refresh_interval_secs: 60,
        tabs: vec![tab("Drafts", "drafts"), tab("subs", "subscribers")],
    };
    let (app, fetch) = App::new(cfg, auth()).unwrap();
    assert_eq!(app.active_tab, 0);
    assert_eq!(app.status, "loading Drafts…");
    assert!(app.tabs[0].data.loading);
    assert!(!app.tabs[1].data.loading);
    assert_eq!(
        fetch,
        FetchRequest {
            tab: 0,
            listing: Listing::Drafts
        }
    );
    let req = fetch.http_request(&app.auth);
    assert_eq!(req.method, Method::Get);
    assert_eq!(
        req.url,
        "https://api.buttondown.email/v1/emails?status=draft&page=1"
    );
    assert_eq!(req.authorization, "Token k");
}

#[test]
fn new_app_refuses_unknown_kind() {
    let cfg = Config {
        refresh_interval_secs: 60,
        tabs: vec![tab("ok", "sent"), tab("bad", "bogus")],
    };
    let err = App::new(cfg, auth()).err().unwrap();
    assert_eq!(err.name, "bad");
    assert_eq!(err.kind, "bogus");
}

#[test]
fn finish_refresh_reports_truncation() {
    let mut app = app_with(&["drafts"]);
    let items = vec![Item::Email(email("a", "A")), Item::Email(email("b", "B"))];
    app.finish_refresh(0, Ok((items, Some(5))), 7);
    let d = &app.tabs[0].data;
    assert!(!d.loading);
    assert!(d.truncated);
    assert_eq!(d.total_count, Some(5));
    assert_eq!(d.last_loaded, Some(7));
    assert_eq!(app.status, "drafts: 2 drafts (of 5)");

    let items = vec![Item::Email(email("a", "A"))];
    app.finish_refresh(0, Ok((items, Some(1))), 9);
    assert!(!app.tabs[0].data.truncated);
    assert_eq!(app.status, "drafts: 1 drafts");
}

#[test]
fn finish_refresh_keeps_error() {
    let mut app = app_with(&["sent"]);
    app.finish_refresh(0, Err("buttondown: Invalid token.".into()), 1);
    assert_eq!(app.status, "error: buttondown: Invalid token.");
    assert_eq!(
        app.tabs[0].data.last_error.as_deref(),
        Some("buttondown: Invalid token.")
    );
    assert!(!app.tabs[0].data.loading);
}

#[test]
fn selection_clamps_and_reload_keeps_cursor_in_range() {
    let mut app = app_with(&["drafts"]);
    let items: Vec<Item> = (0..5)
        .map(|i| Item::Email(email(&i.to_string(), "s")))
        .collect();
    app.finish_refresh(0, Ok((items, None)), 1);
    app.move_selection(3);
    assert_eq!(app.tabs[0].data.selected, 3);
    app.move_selection(10);
    assert_eq!(app.tabs[0].data.selected, 4);
    app.move_selection(-100);
    assert_eq!(app.tabs[0].data.selected, 0);
    app.move_selection(isize::MAX);
    assert_eq!(app.tabs[0].data.selected, 4);
    app.move_selection(isize::MIN);
    assert_eq!(app.tabs[0].data.selected, 0);
    app.move_selection(4);
    let items = vec![Item::Email(email("only", "s"))];
    app.finish_refresh(0, Ok((items, None)), 2);
    assert_eq!(app.tabs[0].data.selected, 0);
    assert_eq!(app.focused_item().unwrap().id(), "only");
}

#[test]
fn tick_reloads_when_stale() {
    let mut app = app_with(&["drafts"]);
    // Still loading from start-up: nothing to do.
    assert!(app.tick(0).is_none());
    app.finish_refresh(0, Ok((vec![], None)), 1_000_000_000);
    assert!(app.tick(60_999_999_999).is_none());
    let f = app.tick(61_000_000_000).expect("stale after 60 s");
    assert_eq!(f.tab, 0);
    assert!(app.tabs[0].data.loading);
    app.cfg.refresh_interval_secs = 0;
    app.tabs[0].data.loading = false;
    assert!(app.tick(u64::MAX).is_none());
}

#[test]
fn switch_tab_loads_empty_tabs_only() {
    let mut app = app_with(&["drafts", "subscribers"]);
    assert!(app.switch_tab(7).is_none());
    assert_eq!(app.active_tab, 0);
    let f = app.switch_tab(1).expect("empty tab loads");
    assert_eq!(f.listing, Listing::Subscribers);
    assert_eq!(app.status, "loading subscribers…");
    app.finish_refresh(1, Err("boom".into()), 1);
    // Tab 0 has nothing loaded yet, tab 1 holds an error.
    assert!(app.switch_tab(0).is_some());
    assert!(app.switch_tab(1).is_none());
    assert_eq!(app.active_tab, 1);
}

#[test]
fn open_web_and_yank() {
    let mut app = app_with(&["subscribers"]);
    assert!(app.open_web().is_none());
    assert_eq!(app.status, "no item under cursor");
    assert!(app.yank_id().is_none());
    assert_eq!(app.status, "no item under cursor");
    app.finish_refresh(
        0,
        Ok((vec![Item::Subscriber(subscriber("sub-1", "a@b.com"))], Some(1))),
        1,
    );
    let url = app.open_web().unwrap();
    assert_eq!(url, "https://buttondown.email/subscribers/sub-1");
    app.finish_open_web(&url, Ok(()));
    assert_eq!(app.status, "opened https://buttondown.email/subscribers/sub-1");
    app.finish_open_web(&url, Err("no browser".into()));
    assert_eq!(app.status, "open failed: no browser");
    let id = app.yank_id().unwrap();
    assert_eq!(id, "sub-1");
    app.finish_yank(&id, Ok(()));
    assert_eq!(app.status, "copied id (5 chars)");
    app.finish_yank(&id, Err("no clipboard".into()));
    assert_eq!(app.status, "copy failed: no clipboard");
    app.finish_refresh(0, Ok((vec![Item::Subscriber(subscriber("", "x@y"))], None)), 2);
    assert!(app.yank_id().is_none());
    assert_eq!(app.status, "nothing to copy");
}

#[test]
fn publish_flow() {
    let mut app = app_with(&["drafts", "subscribers"]);
    app.request_publish();
    assert_eq!(app.status, "no draft under cursor");
    app.finish_refresh(0, Ok((vec![Item::Email(email("abc-1", "Hi"))], None)), 1);
    app.request_publish_at(1_780_837_200);
    assert_eq!(app.status, "publish draft @ 2026-06-07T13:05:00Z? [y/n]");
    app.confirm_no();
    assert_eq!(app.status, "cancelled");
    assert!(app.confirm.is_none());
    app.request_publish();
    assert!(app.confirm.is_some());
    let action = app.confirm_yes().unwrap();
    assert!(app.confirm.is_none());
    let req = action.request(&app.auth);
    assert_eq!(req.method, Method::Patch);
    assert_eq!(req.url, "https://api.buttondown.email/v1/emails/abc-1");
    let f = app.finish_confirm(action.clone(), Ok(())).expect("reload");
    assert_eq!(f.tab, 0);
    assert_eq!(app.status, "loading drafts…");
    assert!(app.finish_confirm(action, Err("nope".into())).is_none());
    assert_eq!(app.status, "schedule failed: nope");
    app.switch_tab(1);
    app.request_publish();
    assert_eq!(app.status, "p only works on the drafts tab");
}

#[test]
fn unsubscribe_flow() {
    let mut app = app_with(&["subscribers", "drafts"]);
    app.request_unsubscribe();
    assert_eq!(app.status, "no subscriber under cursor");
    app.finish_refresh(
        0,
        Ok((vec![Item::Subscriber(subscriber("sub-1", "alice@example.com"))], None)),
        1,
    );
    app.request_unsubscribe();
    assert_eq!(app.status, "unsubscribe alice@example.com? [y/n]");
    let action = app.confirm_yes().unwrap();
    let req = action.request(&app.auth);
    assert_eq!(req.method, Method::Delete);
    assert_eq!(req.url, "https://api.buttondown.email/v1/subscribers/sub-1");
    assert!(req.body.is_none());
    assert!(!req.json_content_type);
    assert!(app.finish_confirm(action.clone(), Ok(())).is_some());
    assert!(app.finish_confirm(action, Err("gone".into())).is_none());
    assert_eq!(app.status, "unsubscribe failed: gone");
    app.confirm_no();
    assert_eq!(app.status, "unsubscribe failed: gone");
    app.switch_tab(1);
    app.request_unsubscribe();
    assert_eq!(app.status, "X only works on the subscribers tab");
}
