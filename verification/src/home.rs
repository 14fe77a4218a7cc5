//! The home page's own state and the decisions it makes on it.

use vstd::prelude::*;
use crate::board::{
    board_draws,
    board_pick,
    board_pick_index,
    first_position,
    first_position_is_first,
    position_of,
    random_below,
    random_flag,
};
use crate::session::Session;
use crate::touch::{touch_next, touch_next_spec, touch_start, touch_start_spec, Probe, TouchAction, TouchContext, TouchStep};

verus! {

/// The decision state of the home page; the widgets, textures and running tasks
/// live beside it.
pub struct HomePage {
    /// The page left for the profile scene and fades back in when it is entered again.
    pub need_back: bool,
    /// The server reported unread messages.
    pub has_new: bool,
    /// The key of the character illustration shown (or being loaded) last.
    pub char_last_illu: Option<String>,
    /// The viewer whose character was asked for last (-1 for nobody).
    pub char_last_user_id: Option<i32>,
    /// The path of the chart whose illustration the board showed last.
    pub board_last: Option<String>,
    /// The direction of the board's next transition.
    pub board_dir: bool,
}

/// What entering the home page does.
#[derive(Clone, Copy, PartialEq, Eq, Structural, Debug)]
pub struct EnterPlan {
    /// Fade the scene back in (the page comes back from the profile scene).
    pub fade_back: bool,
    /// Ask the server whether there are unread messages.
    pub check_messages: bool,
}

/// What to do about the viewer's character.
#[derive(Clone, Copy, PartialEq, Eq, Structural, Debug)]
pub enum CharFetch {
    /// The viewer did not change: leave any running request alone.
    Keep,
    /// The viewer changed and the server cannot be asked: drop any running request.
    Cancel,
    /// The viewer changed: ask the server for the viewer's character.
    Start,
}

/// The key under which a character's illustration is loaded: `@<id>` for a
/// character whose illustration is bundled (written `@`), else the illustration's
/// address.
pub open spec fn illu_key(illust: Seq<char>, id: Seq<char>) -> Seq<char> {
    if illust == "@"@ {
        "@"@ + id
    } else {
        illust
    }
}

/// Whether `session`'s viewer differs from the viewer `last` remembered.
pub open spec fn viewer_changes(last: Option<i32>, session: Session) -> bool {
    last != Some(session.spec_viewer())
}

/// Whether selecting the illustration with key `key` changes the selection `last`.
pub open spec fn illu_changes(last: Option<String>, key: Seq<char>) -> bool {
    match last {
        Some(k) => k@ != key,
        None => true,
    }
}

/// Builds the illustration key of a character.
pub fn character_illu_key(illust: &str, id: &str) -> (key: String)
    ensures
        key@ == illu_key(illust@, id@),
        illust@ != "@"@ ==> key@ == illust@,
        illust@ == "@"@ ==> key@ == "@"@ + id@,
{
    proof {
        reveal_strlit("@");
    }
    if illust.unicode_len() == 1 && illust.get_char(0) == '@' {
        assert(illust@ =~= "@"@);
        String::from_str("@").concat(id)
    } else {
        String::from_str(illust)
    }
}

/// The caption of the strict judgement switch.
pub fn strict_switch_label(on: bool) -> (s: &'static str)
    ensures
        on ==> s@ == "严判: 开"@,
        !on ==> s@ == "严判: 关"@,
{
    if on {
        "严判: 开"
    } else {
        "严判: 关"
    }
}

impl HomePage {
    /// The state of a freshly opened home page.
    pub fn new() -> (p: Self)
        ensures
            !p.need_back,
            !p.has_new,
            p.char_last_illu is None,
            p.char_last_user_id is None,
            p.board_last is None,
            !p.board_dir,
    {
        HomePage {
            need_back: false,
            has_new: false,
            char_last_illu: None,
            char_last_user_id: None,
            board_last: None,
            board_dir: false,
        }
    }

    /// The page's title (the home page has none).
    pub fn label() -> (s: &'static str)
        ensures
            s@ == ""@,
    {
        proof {
            reveal_strlit("");
        }
        ""
    }

    /// Starts (or refuses) the check for unread messages: the server is asked only
    /// while online; otherwise the unread mark is cleared.
    pub fn fetch_has_new(&mut self, session: &Session) -> (ask: bool)
        ensures
            ask == session.spec_online(),
            final(self).has_new == (old(self).has_new && ask),
            final(self).need_back == old(self).need_back,
            final(self).char_last_illu == old(self).char_last_illu,
            final(self).char_last_user_id == old(self).char_last_user_id,
            final(self).board_last == old(self).board_last,
            final(self).board_dir == old(self).board_dir,
    {
        if !session.online() {
            self.has_new = false;
            return false;
        }
        true
    }

    /// Takes the server's answer about unread messages (`None` when it failed,
    /// which keeps the mark as it was).
    pub fn finish_has_new(&mut self, answer: Option<bool>)
        ensures
            final(self).has_new == match answer {
                Some(has) => has,
                None => old(self).has_new,
            },
            final(self).need_back == old(self).need_back,
            final(self).char_last_illu == old(self).char_last_illu,
            final(self).char_last_user_id == old(self).char_last_user_id,
            final(self).board_last == old(self).board_last,
            final(self).board_dir == old(self).board_dir,
    {
        if let Some(has) = answer {
            self.has_new = has;
        }
    }

    /// Entering the page: fade back in if the page left for the profile scene, and
    /// check for unread messages.
    pub fn enter(&mut self, session: &Session) -> (plan: EnterPlan)
        ensures
            plan.fade_back == old(self).need_back,
            plan.check_messages == session.spec_online(),
            !final(self).need_back,
            final(self).has_new == (old(self).has_new && session.spec_online()),
            final(self).char_last_illu == old(self).char_last_illu,
            final(self).char_last_user_id == old(self).char_last_user_id,
            final(self).board_last == old(self).board_last,
            final(self).board_dir == old(self).board_dir,
    {
        let fade_back = self.need_back;
        if self.need_back {
            self.need_back = false;
        }
        let check = self.fetch_has_new(session);
        EnterPlan { fade_back, check_messages: check }
    }

    /// Notices a change of viewer: when the viewer differs from the one whose
    /// character was asked for last, remember the new one and ask the server for
    /// its character (or drop the request while offline or logged out).
    pub fn track_viewer(&mut self, session: &Session) -> (fetch: CharFetch)
        ensures
            !viewer_changes(old(self).char_last_user_id, *session) ==> fetch == CharFetch::Keep,
            final(self).char_last_user_id == Some(session.spec_viewer()),
            fetch == CharFetch::Keep <==> old(self).char_last_user_id == Some(session.spec_viewer()),
            old(self).char_last_user_id != Some(session.spec_viewer()) && session.spec_online()
                ==> fetch == CharFetch::Start,
            old(self).char_last_user_id != Some(session.spec_viewer()) && !session.spec_online()
                ==> fetch == CharFetch::Cancel,
            viewer_changes(old(self).char_last_user_id, *session) ==> fetch == (if session.spec_online() {
                CharFetch::Start
            } else {
                CharFetch::Cancel
            }),
            final(self).need_back == old(self).need_back,
            final(self).has_new == old(self).has_new,
            final(self).char_last_illu == old(self).char_last_illu,
            final(self).board_last == old(self).board_last,
            final(self).board_dir == old(self).board_dir,
    {
        let current = Some(session.viewer());
        let same = match self.char_last_user_id {
            Some(id) => id == session.viewer(),
            None => false,
        };
        if same {
            return CharFetch::Keep;
        }
        self.char_last_user_id = current;
        if session.online() {
            CharFetch::Start
        } else {
            CharFetch::Cancel
        }
    }

    /// Selects the illustration of the character `illust`/`id`: returns whether it
    /// differs from the one selected last (then its appearance restarts and it is
    /// loaded); either way it is the one selected now.
    pub fn load_char_illu(&mut self, illust: &str, id: &str) -> (changed: bool)
        ensures
            changed == illu_changes(old(self).char_last_illu, illu_key(illust@, id@)),
            old(self).char_last_illu matches Some(k) ==> (illust@ != "@"@ ==> (changed <==> k@ != illust@)),
            old(self).char_last_illu is None ==> changed,
            final(self).char_last_illu matches Some(k) && k@ == illu_key(illust@, id@),
            !changed ==> final(self).char_last_illu == old(self).char_last_illu,
            final(self).need_back == old(self).need_back,
            final(self).has_new == old(self).has_new,
            final(self).char_last_user_id == old(self).char_last_user_id,
            final(self).board_last == old(self).board_last,
            final(self).board_dir == old(self).board_dir,
    {
        let key = character_illu_key(illust, id);
        let same = match &self.char_last_illu {
            Some(k) => *k == key,
            None => false,
        };
        if same {
            return false;
        }
        self.char_last_illu = Some(key);
        true
    }

    /// The position, among `paths`, of the chart that the board showed last.
    pub open spec fn board_last_position(self, paths: Seq<String>) -> Option<int> {
        match self.board_last {
            Some(p) => first_position(paths, p@),
            None => None,
        }
    }

    /// Chooses the chart whose illustration the board shows next, at random among
    /// all charts but the one shown last; `None` when there is no other chart to show.
    pub fn next_board(&self, paths: &Vec<String>) -> (r: Option<usize>)
        ensures
            ({
                let last = self.board_last_position(paths@);
                match r {
                    None => paths@.len() == 0 || (paths@.len() == 1 && last is Some),
                    Some(i) => {
                        &&& paths@.len() != 0
                        &&& !(paths@.len() == 1 && last is Some)
                        &&& i < paths@.len()
                        &&& (last matches Some(j) ==> i != j)
                        &&& exists|draw: int|
                            0 <= draw < board_draws(paths@.len() as int, last)
                                && #[trigger] board_pick(last, draw) == i
                    },
                }
            }),
    {
        let last: Option<usize> = match &self.board_last {
            Some(p) => position_of(paths, p),
            None => None,
        };
        proof {
            if let Some(p) = &self.board_last {
                first_position_is_first(paths@, p@);
            }
        }
        let count = paths.len();
        if count == 0 || (count == 1 && last.is_some()) {
            return None;
        }
        let draws = if last.is_some() {
            count - 1
        } else {
            count
        };
        let draw = random_below(draws);
        let i = board_pick_index(count, last, draw);
        Some(i)
    }

    /// Remembers the chart whose illustration the board is loading now.
    pub fn show_board(&mut self, path: &String)
        ensures
            final(self).board_last == Some(*path),
            final(self).need_back == old(self).need_back,
            final(self).has_new == old(self).has_new,
            final(self).char_last_illu == old(self).char_last_illu,
            final(self).char_last_user_id == old(self).char_last_user_id,
            final(self).board_dir == old(self).board_dir,
    {
        self.board_last = Some(path.clone());
    }

    /// Sets the board's transition direction to `flag` when a new illustration
    /// arrived (`has_image`); without one the direction is kept.
    pub fn set_board_dir(&mut self, has_image: bool, flag: bool)
        ensures
            has_image ==> final(self).board_dir == flag,
            !has_image ==> final(self).board_dir == old(self).board_dir,
            final(self).need_back == old(self).need_back,
            final(self).has_new == old(self).has_new,
            final(self).char_last_illu == old(self).char_last_illu,
            final(self).char_last_user_id == old(self).char_last_user_id,
            final(self).board_last == old(self).board_last,
    {
        if has_image {
            self.board_dir = flag;
        }
    }

    /// The board's illustration finished loading (`has_image` when there was one to
    /// show): a new illustration draws a new transition direction at random, which
    /// `set_board_dir` stores.
    pub fn board_loaded(&mut self, has_image: bool)
        ensures
            !has_image ==> final(self).board_dir == old(self).board_dir,
            final(self).need_back == old(self).need_back,
            final(self).has_new == old(self).has_new,
            final(self).char_last_illu == old(self).char_last_illu,
            final(self).char_last_user_id == old(self).char_last_user_id,
            final(self).board_last == old(self).board_last,
    {
        let flag = if has_image {
            random_flag()
        } else {
            self.board_dir
        };
        self.set_board_dir(has_image, flag);
    }

    /// Routes a touch one step: `answered` is `None` when the touch arrives, and
    /// then the probe that was asked for with its answer. Showing the profile makes
    /// the page fade back in when it is entered again.
    pub fn touch(&mut self, ctx: &TouchContext, answered: Option<(Probe, bool)>) -> (step: TouchStep)
        ensures
            step == match answered {
                None => touch_start_spec(*ctx),
                Some((probe, hit)) => touch_next_spec(*ctx, probe, hit),
            },
            final(self).need_back == (old(self).need_back || step == (TouchStep::Done {
                consumed: true,
                action: TouchAction::ShowProfile,
            })),
            final(self).has_new == old(self).has_new,
            final(self).char_last_illu == old(self).char_last_illu,
            final(self).char_last_user_id == old(self).char_last_user_id,
            final(self).board_last == old(self).board_last,
            final(self).board_dir == old(self).board_dir,
    {
        let step = match answered {
            None => touch_start(ctx),
            Some((probe, hit)) => touch_next(ctx, probe, hit),
        };
        if let TouchStep::Done { consumed: true, action: TouchAction::ShowProfile } = step {
            self.need_back = true;
        }
        step
    }
}

/// The board's choice never fails: whenever `next_board` does not give `None`
/// (there are charts, and not only the one shown last), the random draw is made
/// on a non-empty range, and every draw picks a chart in range that is not the
/// one shown last. When it gives `None`, `next_board` changes nothing (it only
/// reads the page), so the chart shown last stays remembered.
pub proof fn board_choice_never_fails(count: int, last: Option<int>)
    requires
        count >= 0,
        last matches Some(j) ==> 0 <= j < count,
        !(count == 0 || (count == 1 && last is Some)),
    ensures
        board_draws(count, last) >= 1,
        forall|draw: int|
            0 <= draw < board_draws(count, last) ==> 0 <= #[trigger] board_pick(last, draw) < count
                && (last matches Some(j) ==> board_pick(last, draw) != j),
{
}

/// A changed viewer always leads to a request decision: a viewer that differs
/// from the remembered one (the user id, or -1 for nobody) counts as a change,
/// and the same viewer never does.
pub proof fn viewer_change_is_inequality(last: Option<i32>, session: Session)
    ensures
        viewer_changes(last, session) <==> last != Some(session.spec_viewer()),
        session.user_id matches Some(id) ==> (viewer_changes(last, session) <==> last != Some(id)),
        session.user_id is None ==> (viewer_changes(last, session) <==> last != Some(-1i32)),
{
}

/// An illustration key is the illustration's own text unless the illustration is
/// the bundled mark `@`, where it is `@` and the character id; so two different
/// illustration addresses never share a key, and two bundled characters share one
/// only when their ids are equal.
pub proof fn illustration_keys_tell_apart(a: Seq<char>, b: Seq<char>, id_a: Seq<char>, id_b: Seq<char>)
    ensures
        a != "@"@ ==> illu_key(a, id_a) == a,
        a == "@"@ ==> illu_key(a, id_a) == "@"@ + id_a,
        a != "@"@ && b != "@"@ && a != b ==> illu_key(a, id_a) != illu_key(b, id_b),
        a == "@"@ && b == "@"@ && id_a != id_b ==> illu_key(a, id_a) != illu_key(b, id_b),
{
    reveal_strlit("@");
    if a == "@"@ && b == "@"@ && id_a != id_b {
        assert(("@"@ + id_a).subrange(1, 1 + id_a.len() as int) =~= id_a);
        assert(("@"@ + id_b).subrange(1, 1 + id_b.len() as int) =~= id_b);
    }
}

/// Selecting the same character's illustration twice loads it once: whatever the
/// first selection found, the selection it leaves makes the second one report no change.
pub proof fn same_illustration_loads_once(after_first: Option<String>, illust: Seq<char>, id: Seq<char>)
    requires
        after_first matches Some(k) && k@ == illu_key(illust, id),
    ensures
        !illu_changes(after_first, illu_key(illust, id)),
{
}

/// Noticing the same viewer twice asks for its character once: the viewer that the
/// first call leaves remembered makes the second call keep things as they are.
pub proof fn same_viewer_fetches_once(after_first: Option<i32>, session: Session)
    requires
        after_first == Some(session.spec_viewer()),
    ensures
        !viewer_changes(after_first, session),
{
}

} // verus!
