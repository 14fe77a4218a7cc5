//! The routing of a touch through the home page's controls.
//!
//! A touch is offered to the controls one after another; the first control that
//! takes it decides what happens. Offering a touch to a control is outside work
//! (the control updates its own pressed state), so the routing is a step
//! function: each step either asks for one probe, whose boolean answer comes
//! back, or finishes the touch.

use vstd::prelude::*;
use crate::page::OverlayPage;

verus! {

/// What the page knows when a touch arrives.
#[derive(Clone, Copy, PartialEq, Eq, Structural, Debug)]
pub struct TouchContext {
    /// The scene fader is in the middle of a transition.
    pub transiting: bool,
    /// The character screen is (almost) fully closed: its progress is below 1/100.
    pub char_screen_closed: bool,
    /// The character screen's open/close animation is running.
    pub char_screen_moving: bool,
    /// The character screen's progress is below one half.
    pub char_screen_below_half: bool,
    /// A user is logged in.
    pub logged_in: bool,
}

/// A piece of outside work whose boolean answer the routing waits for.
#[derive(Clone, Copy, PartialEq, Eq, Structural, Debug)]
pub enum Probe {
    /// Offer the touch to the login panel.
    Login,
    /// Offer the touch to the play button's tilt effect (its answer is not used).
    PlayTilt,
    /// Offer the touch to the play button.
    Play,
    /// Offer the touch to the ranked (event) button.
    Event,
    /// Offer the touch to the resource pack button.
    ResPack,
    /// Offer the touch to the messages button.
    Messages,
    /// Check that the terms of service and the privacy policy were read.
    Terms,
    /// Offer the touch to the settings button.
    Settings,
    /// Offer the touch to the character introduction's scroll view.
    CharScroll,
    /// Offer the touch to the "change character" button.
    CharEdit,
    /// Open the account settings web page (its answer is not used).
    AccountPage,
    /// Offer the touch to the user (avatar) button.
    User,
    /// Offer the touch to the strict judgement switch.
    Strict,
    /// Offer the touch to the character area.
    CharButton,
}

/// What a finished touch asks the page to do.
#[derive(Clone, Copy, PartialEq, Eq, Structural, Debug)]
pub enum TouchAction {
    Nothing,
    Open(OverlayPage),
    ShowProfile,
    ShowLogin,
    ToggleStrict,
    OpenCharScreen,
    CloseCharScreen,
}

/// One step of the routing.
#[derive(Clone, Copy, PartialEq, Eq, Structural, Debug)]
pub enum TouchStep {
    Ask(Probe),
    Done { consumed: bool, action: TouchAction },
}

/// A finished touch that was consumed.
pub open spec fn taken(action: TouchAction) -> TouchStep {
    TouchStep::Done { consumed: true, action }
}

/// The first step of a touch: while the scene fader is transiting, the touch is
/// swallowed; otherwise it goes to the login panel first.
pub open spec fn touch_start_spec(ctx: TouchContext) -> TouchStep {
    if ctx.transiting {
        taken(TouchAction::Nothing)
    } else {
        TouchStep::Ask(Probe::Login)
    }
}

/// The step after `probe` answered `hit`.
pub open spec fn touch_next_spec(ctx: TouchContext, probe: Probe, hit: bool) -> TouchStep {
    match probe {
        Probe::Login => if hit {
            taken(TouchAction::Nothing)
        } else if ctx.char_screen_closed {
            TouchStep::Ask(Probe::PlayTilt)
        } else {
            TouchStep::Ask(Probe::CharScroll)
        },
        Probe::PlayTilt => TouchStep::Ask(Probe::Play),
        Probe::Play => if hit {
            taken(TouchAction::Open(OverlayPage::Library))
        } else {
            TouchStep::Ask(Probe::Event)
        },
        Probe::Event => if hit {
            taken(TouchAction::Open(OverlayPage::Ranked))
        } else {
            TouchStep::Ask(Probe::ResPack)
        },
        Probe::ResPack => if hit {
            taken(TouchAction::Open(OverlayPage::ResPack))
        } else {
            TouchStep::Ask(Probe::Messages)
        },
        Probe::Messages => if hit {
            TouchStep::Ask(Probe::Terms)
        } else {
            TouchStep::Ask(Probe::Settings)
        },
        Probe::Terms => if hit {
            taken(TouchAction::Open(OverlayPage::Messages))
        } else {
            taken(TouchAction::Nothing)
        },
        Probe::Settings => if hit {
            taken(TouchAction::Open(OverlayPage::Settings))
        } else {
            TouchStep::Ask(Probe::User)
        },
        Probe::CharScroll => if hit {
            taken(TouchAction::Nothing)
        } else {
            TouchStep::Ask(Probe::CharEdit)
        },
        Probe::CharEdit => if hit {
            TouchStep::Ask(Probe::AccountPage)
        } else {
            TouchStep::Ask(Probe::User)
        },
        Probe::AccountPage => TouchStep::Ask(Probe::User),
        Probe::User => if hit {
            if ctx.logged_in {
                taken(TouchAction::ShowProfile)
            } else {
                taken(TouchAction::ShowLogin)
            }
        } else {
            TouchStep::Ask(Probe::Strict)
        },
        Probe::Strict => if hit {
            taken(TouchAction::ToggleStrict)
        } else {
            TouchStep::Ask(Probe::CharButton)
        },
        Probe::CharButton => if !hit {
            TouchStep::Done { consumed: false, action: TouchAction::Nothing }
        } else if ctx.char_screen_moving {
            taken(TouchAction::Nothing)
        } else if ctx.char_screen_below_half {
            taken(TouchAction::OpenCharScreen)
        } else {
            taken(TouchAction::CloseCharScreen)
        },
    }
}

/// The first step of routing a touch.
pub fn touch_start(ctx: &TouchContext) -> (step: TouchStep)
    ensures
        step == touch_start_spec(*ctx),
{
    if ctx.transiting {
        TouchStep::Done { consumed: true, action: TouchAction::Nothing }
    } else {
        TouchStep::Ask(Probe::Login)
    }
}

/// The next step of routing a touch, once `probe` answered `hit`.
pub fn touch_next(ctx: &TouchContext, probe: Probe, hit: bool) -> (step: TouchStep)
    ensures
        step == touch_next_spec(*ctx, probe, hit),
        probe == Probe::Play && hit ==> step == (TouchStep::Done {
            consumed: true,
            action: TouchAction::Open(OverlayPage::Library),
        }),
        probe == Probe::Event && hit ==> step == (TouchStep::Done {
            consumed: true,
            action: TouchAction::Open(OverlayPage::Ranked),
        }),
        probe == Probe::ResPack && hit ==> step == (TouchStep::Done {
            consumed: true,
            action: TouchAction::Open(OverlayPage::ResPack),
        }),
        probe == Probe::Settings && hit ==> step == (TouchStep::Done {
            consumed: true,
            action: TouchAction::Open(OverlayPage::Settings),
        }),
        probe == Probe::Terms && hit ==> step == (TouchStep::Done {
            consumed: true,
            action: TouchAction::Open(OverlayPage::Messages),
        }),
{
    let done = TouchStep::Done { consumed: true, action: TouchAction::Nothing };
    match probe {
        Probe::Login => {
            if hit {
                done
            } else if ctx.char_screen_closed {
                TouchStep::Ask(Probe::PlayTilt)
            } else {
                TouchStep::Ask(Probe::CharScroll)
            }
        },
        Probe::PlayTilt => TouchStep::Ask(Probe::Play),
        Probe::Play => {
            if hit {
                TouchStep::Done { consumed: true, action: TouchAction::Open(OverlayPage::Library) }
            } else {
                TouchStep::Ask(Probe::Event)
            }
        },
        Probe::Event => {
            if hit {
                TouchStep::Done { consumed: true, action: TouchAction::Open(OverlayPage::Ranked) }
            } else {
                TouchStep::Ask(Probe::ResPack)
            }
        },
        Probe::ResPack => {
            if hit {
                TouchStep::Done { consumed: true, action: TouchAction::Open(OverlayPage::ResPack) }
            } else {
                TouchStep::Ask(Probe::Messages)
            }
        },
        Probe::Messages => {
            if hit {
                TouchStep::Ask(Probe::Terms)
            } else {
                TouchStep::Ask(Probe::Settings)
            }
        },
        Probe::Terms => {
            if hit {
                TouchStep::Done { consumed: true, action: TouchAction::Open(OverlayPage::Messages) }
            } else {
                done
            }
        },
        Probe::Settings => {
            if hit {
                TouchStep::Done { consumed: true, action: TouchAction::Open(OverlayPage::Settings) }
            } else {
                TouchStep::Ask(Probe::User)
            }
        },
        Probe::CharScroll => {
            if hit {
                done
            } else {
                TouchStep::Ask(Probe::CharEdit)
            }
        },
        Probe::CharEdit => {
            if hit {
                TouchStep::Ask(Probe::AccountPage)
            } else {
                TouchStep::Ask(Probe::User)
            }
        },
        Probe::AccountPage => TouchStep::Ask(Probe::User),
        Probe::User => {
            if !hit {
                TouchStep::Ask(Probe::Strict)
            } else if ctx.logged_in {
                TouchStep::Done { consumed: true, action: TouchAction::ShowProfile }
            } else {
                TouchStep::Done { consumed: true, action: TouchAction::ShowLogin }
            }
        },
        Probe::Strict => {
            if hit {
                TouchStep::Done { consumed: true, action: TouchAction::ToggleStrict }
            } else {
                TouchStep::Ask(Probe::CharButton)
            }
        },
        Probe::CharButton => {
            if !hit {
                TouchStep::Done { consumed: false, action: TouchAction::Nothing }
            } else if ctx.char_screen_moving {
                done
            } else if ctx.char_screen_below_half {
                TouchStep::Done { consumed: true, action: TouchAction::OpenCharScreen }
            } else {
                TouchStep::Done { consumed: true, action: TouchAction::CloseCharScreen }
            }
        },
    }
}

/// Whether a touch is swallowed because the session restore that the HYKB build
/// waits for at start is still pending: the page stays inert until it resolves
/// (a scene transition swallows the touch first, as `touch_start` says).
pub fn blocked_by_startup_check(ctx: &TouchContext, restore_pending: bool) -> (r: bool)
    ensures
        r == (!ctx.transiting && restore_pending),
{
    !ctx.transiting && restore_pending
}

/// Each page button opens its own page when hit, whatever the context: play opens
/// the chart library, the event button the ranked page, the resource pack button
/// the resource packs, settings the settings, and messages (once the terms are
/// read) the messages. Logging in is needed for none of them.
pub proof fn page_buttons_open_their_pages(ctx: TouchContext)
    ensures
        touch_next_spec(ctx, Probe::Play, true) == (TouchStep::Done {
            consumed: true,
            action: TouchAction::Open(OverlayPage::Library),
        }),
        touch_next_spec(ctx, Probe::Event, true) == (TouchStep::Done {
            consumed: true,
            action: TouchAction::Open(OverlayPage::Ranked),
        }),
        touch_next_spec(ctx, Probe::ResPack, true) == (TouchStep::Done {
            consumed: true,
            action: TouchAction::Open(OverlayPage::ResPack),
        }),
        touch_next_spec(ctx, Probe::Settings, true) == (TouchStep::Done {
            consumed: true,
            action: TouchAction::Open(OverlayPage::Settings),
        }),
        touch_next_spec(ctx, Probe::Terms, true) == (TouchStep::Done {
            consumed: true,
            action: TouchAction::Open(OverlayPage::Messages),
        }),
{
}

/// The other controls do their own job when hit: the login panel and the
/// character scroll view keep the touch, the messages button first checks the
/// terms (and keeps the touch when they were not read), the "change character"
/// button opens the account page and lets the touch go on to the user button, the
/// strict switch toggles strict judgement, and the character area opens the
/// character screen from below half way, closes it from above, and does nothing
/// while it moves. A miss moves on to another control, except at the character
/// area, the last one, where the touch passes through.
pub proof fn controls_do_their_job(ctx: TouchContext, probe: Probe)
    ensures
        touch_next_spec(ctx, Probe::Login, true) == (TouchStep::Done {
            consumed: true,
            action: TouchAction::Nothing,
        }),
        touch_next_spec(ctx, Probe::CharScroll, true) == (TouchStep::Done {
            consumed: true,
            action: TouchAction::Nothing,
        }),
        touch_next_spec(ctx, Probe::Messages, true) == TouchStep::Ask(Probe::Terms),
        touch_next_spec(ctx, Probe::Terms, false) == (TouchStep::Done {
            consumed: true,
            action: TouchAction::Nothing,
        }),
        touch_next_spec(ctx, Probe::CharEdit, true) == TouchStep::Ask(Probe::AccountPage),
        touch_next_spec(ctx, Probe::AccountPage, true) == TouchStep::Ask(Probe::User),
        touch_next_spec(ctx, Probe::AccountPage, false) == TouchStep::Ask(Probe::User),
        touch_next_spec(ctx, Probe::Strict, true) == (TouchStep::Done {
            consumed: true,
            action: TouchAction::ToggleStrict,
        }),
        touch_next_spec(ctx, Probe::CharButton, true) == (TouchStep::Done {
            consumed: true,
            action: if ctx.char_screen_moving {
                TouchAction::Nothing
            } else if ctx.char_screen_below_half {
                TouchAction::OpenCharScreen
            } else {
                TouchAction::CloseCharScreen
            },
        }),
        touch_next_spec(ctx, Probe::CharButton, false) == (TouchStep::Done {
            consumed: false,
            action: TouchAction::Nothing,
        }),
        probe != Probe::CharButton && probe != Probe::Terms ==> touch_next_spec(ctx, probe, false)
            is Ask,
{
}

/// Only the user button's outcome depends on whether a player is logged in: two
/// contexts that differ only there route every other probe alike, and the user
/// button shows the profile exactly for a logged-in player.
pub proof fn only_user_button_depends_on_login(a: TouchContext, b: TouchContext, probe: Probe, hit: bool)
    requires
        a.transiting == b.transiting,
        a.char_screen_closed == b.char_screen_closed,
        a.char_screen_moving == b.char_screen_moving,
        a.char_screen_below_half == b.char_screen_below_half,
        probe != Probe::User,
    ensures
        touch_next_spec(a, probe, hit) == touch_next_spec(b, probe, hit),
        touch_start_spec(a) == touch_start_spec(b),
        touch_next_spec(a, Probe::User, true) == (TouchStep::Done {
            consumed: true,
            action: if a.logged_in {
                TouchAction::ShowProfile
            } else {
                TouchAction::ShowLogin
            },
        }),
{
}

/// How many probes at most can still follow `probe`.
pub open spec fn probes_left(probe: Probe) -> nat {
    match probe {
        Probe::Login => 13,
        Probe::PlayTilt => 12,
        Probe::Play => 11,
        Probe::Event => 10,
        Probe::ResPack => 9,
        Probe::Messages => 8,
        Probe::Terms => 7,
        Probe::Settings => 6,
        Probe::CharScroll => 5,
        Probe::CharEdit => 4,
        Probe::AccountPage => 3,
        Probe::User => 2,
        Probe::Strict => 1,
        Probe::CharButton => 0,
    }
}

/// The probes that a touch may meet: with the character screen closed, the page's
/// buttons; with it open, the character screen's own controls; and in both cases
/// the login panel, the user button, the strict switch and the character area.
pub open spec fn on_route(ctx: TouchContext, probe: Probe) -> bool {
    match probe {
        Probe::Login | Probe::User | Probe::Strict | Probe::CharButton => true,
        Probe::PlayTilt | Probe::Play | Probe::Event | Probe::ResPack | Probe::Messages
        | Probe::Terms | Probe::Settings => ctx.char_screen_closed,
        Probe::CharScroll | Probe::CharEdit | Probe::AccountPage => !ctx.char_screen_closed,
    }
}

/// Every touch finishes: each probe is followed by one that has fewer probes
/// left after it, so a touch meets at most fourteen probes.
pub proof fn touch_routing_finishes(ctx: TouchContext, probe: Probe, hit: bool)
    ensures
        touch_next_spec(ctx, probe, hit) matches TouchStep::Ask(next) ==> probes_left(next)
            < probes_left(probe),
{
}

/// A touch only meets the probes on its route: it starts on the route and each
/// probe on the route is followed by one on the route.
pub proof fn touch_routing_stays_on_route(ctx: TouchContext, probe: Probe, hit: bool)
    ensures
        touch_start_spec(ctx) matches TouchStep::Ask(first) ==> on_route(ctx, first),
        on_route(ctx, probe) ==> (touch_next_spec(ctx, probe, hit) matches TouchStep::Ask(next)
            ==> on_route(ctx, next)),
{
}

/// While the character screen is open, no touch opens another page.
pub proof fn char_screen_opens_no_page(ctx: TouchContext, probe: Probe, hit: bool)
    requires
        !ctx.char_screen_closed,
        on_route(ctx, probe),
    ensures
        !(touch_next_spec(ctx, probe, hit) matches TouchStep::Done { action: TouchAction::Open(_), .. }),
{
}

/// A touch passes through the page only when it hit nothing: the one step that
/// leaves a touch unconsumed is the character area's miss, and it asks for nothing.
pub proof fn unconsumed_touch_hit_nothing(ctx: TouchContext, probe: Probe, hit: bool)
    ensures
        touch_start_spec(ctx) matches TouchStep::Done { consumed, action } ==> consumed && action
            == TouchAction::Nothing,
        touch_next_spec(ctx, probe, hit) matches TouchStep::Done { consumed: false, action } ==> (
        probe == Probe::CharButton && !hit && action == TouchAction::Nothing),
{
}

} // verus!
