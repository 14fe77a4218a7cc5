use phira::home::{character_illu_key, strict_switch_label, CharFetch, EnterPlan, HomePage};
use phira::session::Session;

fn online() -> Session {
    Session { offline_mode: false, user_id: Some(7), has_tokens: true }
}

fn offline() -> Session {
    Session { offline_mode: true, user_id: Some(7), has_tokens: true }
}

#[test]
fn labels() {
    assert_eq!(HomePage::label(), "");
    assert_eq!(strict_switch_label(true), "严判: 开");
    assert_eq!(strict_switch_label(false), "严判: 关");
}

#[test]
fn enter_fades_back_once() {
    let mut page = HomePage::new();
    page.need_back = true;
    assert_eq!(page.enter(&online()), EnterPlan { fade_back: true, check_messages: true });
    assert!(!page.need_back);
    assert_eq!(page.enter(&online()), EnterPlan { fade_back: false, check_messages: true });
}

#[test]
fn offline_clears_unread_mark() {
    let mut page = HomePage::new();
    page.has_new = true;
    assert!(page.fetch_has_new(&online()));
    assert!(page.has_new);
    assert!(!page.fetch_has_new(&offline()));
    assert!(!page.has_new);
    page.has_new = true;
    let plan = page.enter(&Session { offline_mode: false, user_id: None, has_tokens: false });
    assert!(!plan.check_messages);
    assert!(!page.has_new);
}

#[test]
fn unread_answer() {
    let mut page = HomePage::new();
    page.finish_has_new(Some(true));
    assert!(page.has_new);
    page.finish_has_new(None);
    assert!(page.has_new);
    page.finish_has_new(Some(false));
    assert!(!page.has_new);
}

#[test]
fn character_fetched_once_per_viewer() {
    let mut page = HomePage::new();
    assert_eq!(page.track_viewer(&online()), CharFetch::Start);
    assert_eq!(page.char_last_user_id, Some(7));
    assert_eq!(page.track_viewer(&online()), CharFetch::Keep);
    let logged_out = Session { offline_mode: false, user_id: None, has_tokens: false };
    assert_eq!(page.track_viewer(&logged_out), CharFetch::Cancel);
    assert_eq!(page.char_last_user_id, Some(-1));
    assert_eq!(page.track_viewer(&logged_out), CharFetch::Keep);
    assert_eq!(page.track_viewer(&offline()), CharFetch::Cancel);
    assert_eq!(page.track_viewer(&online()), CharFetch::Keep);
}

#[test]
fn illustration_keys() {
    assert_eq!(character_illu_key("@", "rabbit"), "@rabbit");
    assert_eq!(character_illu_key("https://x/y.png", "rabbit"), "https://x/y.png");
    assert_eq!(character_illu_key("@@", "rabbit"), "@@");
}

#[test]
fn illustration_loaded_once() {
    let mut page = HomePage::new();
    assert!(page.load_char_illu("@", "rabbit"));
    assert_eq!(page.char_last_illu.as_deref(), Some("@rabbit"));
    assert!(!page.load_char_illu("@", "rabbit"));
    assert!(page.load_char_illu("https://x/y.png", "rabbit"));
    assert!(!page.load_char_illu("https://x/y.png", "other"));
    assert!(page.load_char_illu("@", "other"));
}
