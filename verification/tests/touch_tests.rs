use phira::home::HomePage;
use phira::page::OverlayPage;
use phira::touch::{touch_next, touch_start, Probe, TouchAction, TouchContext, TouchStep};

fn ctx(closed: bool) -> TouchContext {
    TouchContext {
        transiting: false,
        char_screen_closed: closed,
        char_screen_moving: false,
        char_screen_below_half: closed,
        logged_in: true,
    }
}

/// Runs a touch with the given controls hit; returns the probes asked and the end.
fn run(c: &TouchContext, hits: &[Probe]) -> (Vec<Probe>, TouchStep) {
    let mut asked = Vec::new();
    let mut step = touch_start(c);
    while let TouchStep::Ask(p) = step {
        asked.push(p);
        step = touch_next(c, p, hits.contains(&p));
    }
    (asked, step)
}

fn done(consumed: bool, action: TouchAction) -> TouchStep {
    TouchStep::Done { consumed, action }
}

#[test]
fn transiting_swallows_touch() {
    let mut c = ctx(true);
    c.transiting = true;
    let (asked, end) = run(&c, &[Probe::Play]);
    assert!(asked.is_empty());
    assert_eq!(end, done(true, TouchAction::Nothing));
}

#[test]
fn miss_everywhere_passes_through() {
    let (asked, end) = run(&ctx(true), &[]);
    assert_eq!(
        asked,
        vec![
            Probe::Login, Probe::PlayTilt, Probe::Play, Probe::Event, Probe::ResPack, Probe::Messages,
            Probe::Settings, Probe::User, Probe::Strict, Probe::CharButton
        ]
    );
    assert_eq!(end, done(false, TouchAction::Nothing));
    let (asked, end) = run(&ctx(false), &[]);
    assert_eq!(
        asked,
        vec![Probe::Login, Probe::CharScroll, Probe::CharEdit, Probe::User, Probe::Strict, Probe::CharButton]
    );
    assert_eq!(end, done(false, TouchAction::Nothing));
}

#[test]
fn buttons_open_pages() {
    assert_eq!(run(&ctx(true), &[Probe::Play]).1, done(true, TouchAction::Open(OverlayPage::Library)));
    assert_eq!(run(&ctx(true), &[Probe::Event]).1, done(true, TouchAction::Open(OverlayPage::Ranked)));
    assert_eq!(run(&ctx(true), &[Probe::ResPack]).1, done(true, TouchAction::Open(OverlayPage::ResPack)));
    assert_eq!(run(&ctx(true), &[Probe::Settings]).1, done(true, TouchAction::Open(OverlayPage::Settings)));
    assert_eq!(
        run(&ctx(true), &[Probe::Messages, Probe::Terms]).1,
        done(true, TouchAction::Open(OverlayPage::Messages))
    );
    assert_eq!(run(&ctx(true), &[Probe::Messages]).1, done(true, TouchAction::Nothing));
}

#[test]
fn first_hit_wins() {
    let (asked, end) = run(&ctx(true), &[Probe::Login, Probe::Play]);
    assert_eq!(asked, vec![Probe::Login]);
    assert_eq!(end, done(true, TouchAction::Nothing));
    let (_, end) = run(&ctx(true), &[Probe::Event, Probe::Strict]);
    assert_eq!(end, done(true, TouchAction::Open(OverlayPage::Ranked)));
}

#[test]
fn char_screen_blocks_page_buttons() {
    let (asked, end) = run(&ctx(false), &[Probe::Play, Probe::Event]);
    assert!(!asked.contains(&Probe::Play));
    assert_eq!(end, done(false, TouchAction::Nothing));
}

#[test]
fn char_edit_opens_account_page_and_goes_on() {
    let (asked, end) = run(&ctx(false), &[Probe::CharEdit, Probe::Strict]);
    assert_eq!(
        asked,
        vec![Probe::Login, Probe::CharScroll, Probe::CharEdit, Probe::AccountPage, Probe::User, Probe::Strict]
    );
    assert_eq!(end, done(true, TouchAction::ToggleStrict));
}

#[test]
fn user_button() {
    assert_eq!(run(&ctx(true), &[Probe::User]).1, done(true, TouchAction::ShowProfile));
    let mut c = ctx(true);
    c.logged_in = false;
    assert_eq!(run(&c, &[Probe::User]).1, done(true, TouchAction::ShowLogin));
}

#[test]
fn char_area_toggles_screen() {
    assert_eq!(run(&ctx(true), &[Probe::CharButton]).1, done(true, TouchAction::OpenCharScreen));
    assert_eq!(run(&ctx(false), &[Probe::CharButton]).1, done(true, TouchAction::CloseCharScreen));
    let mut c = ctx(true);
    c.char_screen_moving = true;
    assert_eq!(run(&c, &[Probe::CharButton]).1, done(true, TouchAction::Nothing));
}

#[test]
fn showing_profile_marks_page_for_fade_back() {
    let c = ctx(true);
    let mut page = HomePage::new();
    let mut step = page.touch(&c, None);
    while let TouchStep::Ask(p) = step {
        step = page.touch(&c, Some((p, p == Probe::User)));
    }
    assert_eq!(step, done(true, TouchAction::ShowProfile));
    assert!(page.need_back);

    let mut page = HomePage::new();
    let mut step = page.touch(&c, None);
    while let TouchStep::Ask(p) = step {
        step = page.touch(&c, Some((p, p == Probe::Strict)));
    }
    assert_eq!(step, done(true, TouchAction::ToggleStrict));
    assert!(!page.need_back);
}

#[test]
fn startup_check_blocks_touches() {
    let c = ctx(true);
    assert!(phira::touch::blocked_by_startup_check(&c, true));
    assert!(!phira::touch::blocked_by_startup_check(&c, false));
    let mut moving = ctx(true);
    moving.transiting = true;
    assert!(!phira::touch::blocked_by_startup_check(&moving, true));
}
