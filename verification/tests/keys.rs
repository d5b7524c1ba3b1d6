use mnml_msg_buttondown::app::{App, Item};
use mnml_msg_buttondown::buttondown::{Auth, Email};
use mnml_msg_buttondown::config::{Config, Tab};
use mnml_msg_buttondown::keys::{apply, handle, Action, Effect, KeyCode, KeyInput};

fn key(code: KeyCode) -> KeyInput {
    KeyInput { code, ctrl: false }
}

fn ch(c: char) -> KeyInput {
    key(KeyCode::Char(c))
}

fn email(id: &str) -> Email {
    Email {
        id: id.into(),
        subject: "s".into(),
        body: "".into(),
        status: None,
        email_type: None,
        creation_date: None,
        publish_date: None,
        modification_date: None,
        word_count: None,
        analytics: None,
    }
}

fn app_with(kinds: &[&str]) -> App {
    let cfg = Config {
        refresh_interval_secs: 60,
        tabs: kinds
            .iter()
            .map(|k| Tab {
                name: k.to_string(),
                kind: k.to_string(),
            })
            .collect(),
    };
    App::new(
        cfg,
        Auth {
            api_key: "k".into(),
        },
    )
    .unwrap()
    .0
}

#[test]
fn normal_map() {
    let app = app_with(&["drafts"]);
    assert_eq!(handle(ch('q'), &app), Some(Action::Quit));
    assert_eq!(handle(key(KeyCode::Esc), &app), Some(Action::Quit));
    assert_eq!(
        handle(KeyInput { code: KeyCode::Char('c'), ctrl: true }, &app),
        Some(Action::Quit)
    );
    assert_eq!(handle(ch('c'), &app), None);
    assert_eq!(handle(ch('k'), &app), Some(Action::Up));
    assert_eq!(handle(key(KeyCode::Down), &app), Some(Action::Down));
    assert_eq!(handle(ch('g'), &app), Some(Action::Home));
    assert_eq!(handle(ch('G'), &app), Some(Action::End));
    assert_eq!(handle(key(KeyCode::Enter), &app), Some(Action::OpenWeb));
    assert_eq!(handle(ch('y'), &app), Some(Action::YankId));
    assert_eq!(handle(ch('p'), &app), Some(Action::RequestPublish));
    assert_eq!(handle(ch('X'), &app), Some(Action::RequestUnsubscribe));
    assert_eq!(handle(ch('r'), &app), Some(Action::Refresh));
    assert_eq!(handle(key(KeyCode::Tab), &app), Some(Action::NextTab));
    assert_eq!(handle(key(KeyCode::BackTab), &app), Some(Action::PrevTab));
    assert_eq!(handle(ch('1'), &app), Some(Action::SwitchTab(0)));
    assert_eq!(handle(ch('9'), &app), Some(Action::SwitchTab(8)));
    assert_eq!(handle(ch('0'), &app), None);
    assert_eq!(handle(key(KeyCode::Other), &app), None);
}

#[test]
fn prompt_map() {
    let mut app = app_with(&["drafts"]);
    app.finish_refresh(0, Ok((vec![Item::Email(email("a"))], None)), 1);
    app.request_publish();
    assert!(app.confirm.is_some());
    assert_eq!(handle(ch('y'), &app), Some(Action::ConfirmYes));
    assert_eq!(handle(ch('Y'), &app), Some(Action::ConfirmYes));
    assert_eq!(handle(ch('n'), &app), Some(Action::ConfirmNo));
    assert_eq!(handle(key(KeyCode::Esc), &app), Some(Action::ConfirmNo));
    assert_eq!(
        handle(KeyInput { code: KeyCode::Char('c'), ctrl: true }, &app),
        Some(Action::Quit)
    );
    // Everything else still navigates while the prompt is up.
    assert_eq!(handle(ch('j'), &app), Some(Action::Down));
}

#[test]
fn apply_effects() {
    let mut app = app_with(&["drafts", "subscribers"]);
    assert!(matches!(apply(Action::Quit, &mut app), Effect::Quit));
    match apply(Action::Refresh, &mut app) {
        Effect::Fetch(f) => assert_eq!(f.tab, 0),
        other => panic!("{other:?}"),
    }
    app.finish_refresh(
        0,
        Ok((
            vec![Item::Email(email("a")), Item::Email(email("b")), Item::Email(email("c"))],
            None,
        )),
        1,
    );
    assert!(matches!(apply(Action::End, &mut app), Effect::Continue));
    assert_eq!(app.tabs[0].data.selected, 2);
    apply(Action::Home, &mut app);
    assert_eq!(app.tabs[0].data.selected, 0);
    apply(Action::PageDown, &mut app);
    assert_eq!(app.tabs[0].data.selected, 2);
    apply(Action::Up, &mut app);
    assert_eq!(app.tabs[0].data.selected, 1);
    match apply(Action::OpenWeb, &mut app) {
        Effect::OpenUrl(u) => assert_eq!(u, "https://buttondown.email/emails/b"),
        other => panic!("{other:?}"),
    }
    match apply(Action::YankId, &mut app) {
        Effect::Copy(p) => assert_eq!(p, "b"),
        other => panic!("{other:?}"),
    }
    assert!(matches!(apply(Action::RequestPublish, &mut app), Effect::Continue));
    match apply(Action::ConfirmYes, &mut app) {
        Effect::Execute(a) => assert!(a.prompt().starts_with("publish draft @ ")),
        other => panic!("{other:?}"),
    }
    assert!(matches!(apply(Action::ConfirmYes, &mut app), Effect::Continue));
    match apply(Action::NextTab, &mut app) {
        Effect::Fetch(f) => assert_eq!(f.tab, 1),
        other => panic!("{other:?}"),
    }
    assert_eq!(app.active_tab, 1);
    assert!(matches!(apply(Action::PrevTab, &mut app), Effect::Continue));
    assert_eq!(app.active_tab, 0);
    assert!(matches!(apply(Action::SwitchTab(5), &mut app), Effect::Continue));
    assert_eq!(app.active_tab, 0);
    assert!(matches!(apply(Action::ConfirmNo, &mut app), Effect::Continue));
}
