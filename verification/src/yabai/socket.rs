//! The per-request manager socket protocol: the socket path, the argument
//! lists of the standard queries, and the pure parts of every round trip.
//! Connecting, writing and reading are left to the caller process.

use vstd::prelude::*;

verus! {

use vstd::string::StringExecFns;
use crate::text::str_eq;
use crate::json::Json;
use crate::yabai::models::Window;
use crate::yabai::models::WindowView;
use crate::yabai::models::window_views;

/// A handle on the manager's socket: nothing but the path, derived from the
/// invoking user's name; a fresh connection is opened per request.
pub struct Socket {
    pub path: String,
}

impl Socket {
    /// The manager socket path for the given user name.
    pub fn from_user(user: &str) -> (s: Socket)
        ensures
            s.path@ == "/tmp/yabai_"@ + user@ + ".socket"@,
    {
        let p = "/tmp/yabai_".to_owned().concat(user).concat(".socket");
        Socket { path: p }
    }
}

/// Helper: the views of a list of argument strings.
pub open spec fn arg_views(args: Seq<String>) -> Seq<Seq<char>> {
    args.map_values(|a: String| a@)
}

/// Arguments of the query for all spaces.
pub fn spaces_query_args() -> (r: Vec<String>)
    ensures
        arg_views(r@) == seq!["query"@, "--spaces"@],
{
    let mut v: Vec<String> = Vec::new();
    v.push("query".to_owned());
    v.push("--spaces".to_owned());
    proof {
        assert(arg_views(v@) =~= seq!["query"@, "--spaces"@]);
    }
    v
}

/// Arguments of the query for the focused space.
pub fn focused_space_query_args() -> (r: Vec<String>)
    ensures
        arg_views(r@) == seq!["query"@, "--spaces"@, "--space"@],
{
    let mut v: Vec<String> = Vec::new();
    v.push("query".to_owned());
    v.push("--spaces".to_owned());
    v.push("--space".to_owned());
    proof {
        assert(arg_views(v@) =~= seq!["query"@, "--spaces"@, "--space"@]);
    }
    v
}

/// Arguments of the query for the focused window.
pub fn focused_window_query_args() -> (r: Vec<String>)
    ensures
        arg_views(r@) == seq!["query"@, "--windows"@, "--window"@],
{
    let mut v: Vec<String> = Vec::new();
    v.push("query".to_owned());
    v.push("--windows".to_owned());
    v.push("--window".to_owned());
    proof {
        assert(arg_views(v@) =~= seq!["query"@, "--windows"@, "--window"@]);
    }
    v
}

/// Arguments of the query for the manager's "last" window selector.
pub fn last_window_query_args() -> (r: Vec<String>)
    ensures
        arg_views(r@) == seq!["query"@, "--windows"@, "--window"@, "last"@],
{
    let mut v: Vec<String> = Vec::new();
    v.push("query".to_owned());
    v.push("--windows".to_owned());
    v.push("--window".to_owned());
    v.push("last".to_owned());
    proof {
        assert(arg_views(v@) =~= seq!["query"@, "--windows"@, "--window"@, "last"@]);
    }
    v
}

/// Arguments of the window listing for a scope: the current space, all
/// spaces, or a space named by index.
pub fn windows_query_args(space: &str) -> (r: Vec<String>)
    ensures
        space@ == "current"@ ==> arg_views(r@) == seq!["query"@, "--windows"@, "--space"@],
        space@ == "all"@ ==> arg_views(r@) == seq!["query"@, "--windows"@],
        space@ != "current"@ && space@ != "all"@ ==> arg_views(r@) == seq![
            "query"@,
            "--windows"@,
            "--space"@,
            space@,
        ],
{
    proof {
        reveal_strlit("current");
        reveal_strlit("all");
        assert("current"@.len() != "all"@.len());
        assert("current"@ != "all"@);
    }
    let mut v: Vec<String> = Vec::new();
    v.push("query".to_owned());
    v.push("--windows".to_owned());
    if str_eq(space, "current") {
        v.push("--space".to_owned());
        proof {
            assert(arg_views(v@) =~= seq!["query"@, "--windows"@, "--space"@]);
        }
    } else if str_eq(space, "all") {
        proof {
            assert(arg_views(v@) =~= seq!["query"@, "--windows"@]);
        }
    } else {
        v.push("--space".to_owned());
        v.push(space.to_owned());
        proof {
            assert(arg_views(v@) =~= seq!["query"@, "--windows"@, "--space"@, space@]);
        }
    }
    v
}

/// The manager-internal helper window class that every window listing
/// excludes.
pub open spec fn spec_helper_subrole() -> Seq<char> {
    "AXUnknown.Hammerspoon"@
}

/// Whether a window survives the standard listing filter: not the helper
/// class, not minimized, not hidden.
pub open spec fn spec_listed(w: WindowView) -> bool {
    w.subrole != spec_helper_subrole() && !w.is_minimized && !w.is_hidden
}

/// The windows of a listing that the client hands on, in order.
pub open spec fn spec_listed_windows(ws: Seq<WindowView>) -> Seq<WindowView>
    decreases ws.len(),
{
    if ws.len() == 0 {
        Seq::empty()
    } else if spec_listed(ws.last()) {
        spec_listed_windows(ws.drop_last()).push(ws.last())
    } else {
        spec_listed_windows(ws.drop_last())
    }
}

/// Apply the standard listing filter: drop the helper window class and
/// every minimized or hidden window, keeping order.
pub fn filter_listed_windows(ws: &Vec<Window>) -> (r: Vec<Window>)
    ensures
        window_views(r@) == spec_listed_windows(window_views(ws@)),
{
    let mut out: Vec<Window> = Vec::new();
    let mut i: usize = 0;
    while i < ws.len()
        invariant
            0 <= i <= ws@.len(),
            window_views(out@) == spec_listed_windows(window_views(ws@).take(i as int)),
        decreases ws@.len() - i,
    {
        let w = &ws[i];
        let keep = !str_eq(w.subrole.as_str(), "AXUnknown.Hammerspoon") && !w.is_minimized
            && !w.is_hidden;
        if keep {
            out.push(ws[i].clone());
            proof {
                assert(window_views(out@) =~= window_views(out@.drop_last()).push(
                    out@.last()@,
                ));
            }
        }
        proof {
            assert(window_views(ws@).take(i + 1).drop_last() =~= window_views(ws@).take(
                i as int,
            ));
            assert(window_views(ws@).take(i + 1).last() == ws@[i as int]@);
        }
        i += 1;
    }
    proof {
        assert(window_views(ws@).take(ws@.len() as int) =~= window_views(ws@));
    }
    out
}

/// The windows of a listing with only the helper class removed, in order:
/// the shape the reaping workflow reads, which must still see minimized and
/// hidden windows.
pub open spec fn spec_nonhelper_windows(ws: Seq<WindowView>) -> Seq<WindowView>
    decreases ws.len(),
{
    if ws.len() == 0 {
        Seq::empty()
    } else if ws.last().subrole != spec_helper_subrole() {
        spec_nonhelper_windows(ws.drop_last()).push(ws.last())
    } else {
        spec_nonhelper_windows(ws.drop_last())
    }
}

/// Drop only the helper window class, keeping minimized and hidden windows.
pub fn filter_nonhelper_windows(ws: &Vec<Window>) -> (r: Vec<Window>)
    ensures
        window_views(r@) == spec_nonhelper_windows(window_views(ws@)),
{
    let mut out: Vec<Window> = Vec::new();
    let mut i: usize = 0;
    while i < ws.len()
        invariant
            0 <= i <= ws@.len(),
            window_views(out@) == spec_nonhelper_windows(window_views(ws@).take(i as int)),
        decreases ws@.len() - i,
    {
        let w = &ws[i];
        if !str_eq(w.subrole.as_str(), "AXUnknown.Hammerspoon") {
            out.push(ws[i].clone());
            proof {
                assert(window_views(out@) =~= window_views(out@.drop_last()).push(
                    out@.last()@,
                ));
            }
        }
        proof {
            assert(window_views(ws@).take(i + 1).drop_last() =~= window_views(ws@).take(
                i as int,
            ));
            assert(window_views(ws@).take(i + 1).last() == ws@[i as int]@);
        }
        i += 1;
    }
    proof {
        assert(window_views(ws@).take(ws@.len() as int) =~= window_views(ws@));
    }
    out
}

/// The first window of a listing with the given id.
pub open spec fn spec_find_window(ws: Seq<WindowView>, id: u32) -> Option<WindowView>
    decreases ws.len(),
{
    if ws.len() == 0 {
        None
    } else if ws.first().id == id {
        Some(ws.first())
    } else {
        spec_find_window(ws.drop_first(), id)
    }
}

/// Look a window up by id in a listing: the first window with that id.
pub fn find_window_by_id(ws: &Vec<Window>, id: u32) -> (r: Option<Window>)
    ensures
        r is Some <==> spec_find_window(window_views(ws@), id) is Some,
        r matches Some(w) ==> spec_find_window(window_views(ws@), id) == Some(w@),
{
    let ghost vs = window_views(ws@);
    proof {
        assert(vs.skip(0) =~= vs);
    }
    let mut i: usize = 0;
    while i < ws.len()
        invariant
            0 <= i <= ws@.len(),
            vs == window_views(ws@),
            spec_find_window(vs, id) == spec_find_window(vs.skip(i as int), id),
        decreases ws@.len() - i,
    {
        proof {
            assert(vs.skip(i as int).first() == ws@[i as int]@);
            assert(vs.skip(i as int).drop_first() =~= vs.skip(i + 1));
        }
        if ws[i].id == id {
            return Some(ws[i].clone());
        }
        i += 1;
    }
    proof {
        assert(vs.skip(vs.len() as int).len() == 0);
    }
    None
}

/// The outcome of one query reply.
#[derive(Debug, PartialEq, Eq)]
pub enum QueryStep {
    /// The reply was empty: send the same command once more.
    Retry,
    /// The empty-reply retries are exhausted.
    GaveUp,
    /// The reply is not a well-formed JSON document.
    Malformed,
    /// The reply's decoded document.
    Done(Json),
}

/// The retry state of one query against the manager.  An empty reply is a
/// documented flakiness of the manager, not a caller error: the same
/// command is sent again, up to a bounded budget.
pub struct QuerySession {
    /// The command this query sends, anew on every retry.
    pub args: Vec<String>,
    /// How many empty replies may still be retried.
    pub retries_left: u32,
}

impl QuerySession {
    /// Start a query with a retry budget.
    pub fn new(args: Vec<String>, retries: u32) -> (s: Self)
        ensures
            s.args == args,
            s.retries_left == retries,
    {
        QuerySession { args, retries_left: retries }
    }

    /// Account one non-error reply body: an empty body asks for a resend
    /// while the budget lasts, any other body is decoded as one JSON
    /// document.
    pub fn on_reply(&mut self, body: &[u8]) -> (r: QueryStep)
        requires
            body@.len() + 16 <= usize::MAX,
        ensures
            final(self).args == old(self).args,
            body@.len() == 0 && old(self).retries_left > 0 ==> r is Retry
                && final(self).retries_left == old(self).retries_left - 1,
            body@.len() == 0 && old(self).retries_left == 0 ==> r is GaveUp
                && final(self).retries_left == 0,
            body@.len() > 0 ==> *final(self) == *old(self) && (match crate::json::spec_parse_json(body@) {
                Some(doc) => r matches QueryStep::Done(j) && crate::json::jview(j) == doc,
                None => r is Malformed,
            }),
    {
        if body.len() == 0 {
            if self.retries_left > 0 {
                self.retries_left = self.retries_left - 1;
                QueryStep::Retry
            } else {
                QueryStep::GaveUp
            }
        } else {
            match crate::json::parse_json(body) {
                Some(j) => QueryStep::Done(j),
                None => QueryStep::Malformed,
            }
        }
    }
}

} // verus!
