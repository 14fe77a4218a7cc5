//! Page navigation requests and the ranked page.

use vstd::prelude::*;

verus! {

/// A page that the home page opens on top of itself.
#[derive(Clone, Copy, PartialEq, Eq, Structural, Debug)]
pub enum OverlayPage {
    Library,
    Ranked,
    ResPack,
    Messages,
    Settings,
}

/// What a page asks its page stack to do next.
#[derive(Clone, Copy, PartialEq, Eq, Structural, Debug)]
pub enum NextPage {
    /// Stay on the current page.
    Stay,
    /// Close the current page.
    Pop,
    /// Open another page on top of the current one.
    Overlay(OverlayPage),
}

impl Default for NextPage {
    fn default() -> (r: Self)
        ensures
            r == NextPage::Stay,
    {
        NextPage::Stay
    }
}

/// The ranked (certification) page: a title, a placeholder and a back button.
pub struct RankedPage {
    next_page: Option<NextPage>,
}

/// The ranked course that entering the ranked page selects.
pub const RANKED_COURSE_ON_ENTRY: i32 = 1;

impl RankedPage {
    /// The request that the page holds for its page stack, if any.
    pub closed spec fn pending(self) -> Option<NextPage> {
        self.next_page
    }

    /// A ranked page with no pending request.
    pub fn new() -> (p: Self)
        ensures
            p.pending() == None::<NextPage>,
    {
        RankedPage { next_page: None }
    }

    /// The page's title.
    pub fn label() -> (s: &'static str)
        ensures
            s@ == "段位认证"@,
    {
        "段位认证"
    }

    /// Handles a touch, given whether it hit the back button: a hit asks the stack
    /// to close the page and consumes the touch; anything else passes through.
    pub fn touch(&mut self, back_hit: bool) -> (consumed: bool)
        ensures
            consumed == back_hit,
            back_hit ==> final(self).pending() == Some(NextPage::Pop),
            !back_hit ==> final(self).pending() == old(self).pending(),
    {
        if back_hit {
            self.next_page = Some(NextPage::Pop);
            return true;
        }
        false
    }

    /// The ranked course to select on each update of the page.
    pub fn update(&self) -> (course: i32)
        ensures
            course == RANKED_COURSE_ON_ENTRY,
    {
        RANKED_COURSE_ON_ENTRY
    }

    /// Hands the pending request to the page stack, once: the pending request
    /// (or `Stay` when there is none), leaving nothing pending.
    pub fn next_page(&mut self) -> (r: NextPage)
        ensures
            r == match old(self).pending() {
                Some(p) => p,
                None => NextPage::Stay,
            },
            final(self).pending() == None::<NextPage>,
    {
        match self.next_page.take() {
            Some(p) => p,
            None => NextPage::default(),
        }
    }
}

} // verus!
