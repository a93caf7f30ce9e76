//! Scratchpads: named automation rules that toggle a utility application's
//! window, and their decoding from the configuration channel's relaxed JSON.

use vstd::prelude::*;

verus! {

use vstd::string::StringExecFns;
use crate::json::Json;
use crate::json::SpecJson;
use crate::json::jview;
use crate::json::jviews;
use crate::json::obj_get;
use crate::json::spec_obj_get;
use crate::json::json_str;
use crate::json::spec_json_str;
use crate::json::json_u8;
use crate::json::spec_json_u8;
use crate::config::Config;
use crate::text::str_eq;
use crate::yabai::models::Window;
use crate::yabai::models::WindowView;

/// What a scratchpad matches a window by.
#[derive(Debug, Clone, Copy, PartialEq, Eq, Structural)]
pub enum TargetKind {
    /// Match the window title.
    Title,
    /// Match the owning application's name.
    App,
}

impl TargetKind {
    /// Returns `true` if the kind is `App`.
    pub fn is_app(&self) -> (r: bool)
        ensures
            r == (self is App),
    {
        matches!(self, Self::App)
    }
}

/// A named automation rule: which window it stands for and how to launch
/// the backing application when it is not running.
#[derive(Debug, PartialEq, Eq)]
pub struct Scratchpad {
    /// The unique key the rule is addressed by.
    pub tag: String,
    pub kind: TargetKind,
    /// The literal string matched against the window title or application
    /// name.
    pub target: String,
    /// The argv used to launch the backing application.
    pub command: Vec<String>,
    /// Launch timeout override, seconds.
    pub timeout: Option<u8>,
    /// Space override.
    pub space: Option<u8>,
}

/// The mathematical image of a `Scratchpad`.
pub struct ScratchpadView {
    pub tag: Seq<char>,
    pub kind: TargetKind,
    pub target: Seq<char>,
    pub command: Seq<Seq<char>>,
    pub timeout: Option<u8>,
    pub space: Option<u8>,
}

impl View for Scratchpad {
    type V = ScratchpadView;

    open spec fn view(&self) -> ScratchpadView {
        ScratchpadView {
            tag: self.tag@,
            kind: self.kind,
            target: self.target@,
            command: self.command@.map_values(|c: String| c@),
            timeout: self.timeout,
            space: self.space,
        }
    }
}

impl Clone for Scratchpad {
    fn clone(&self) -> (r: Self)
        ensures
            r@ == self@,
    {
        let mut command: Vec<String> = Vec::new();
        let mut i: usize = 0;
        while i < self.command.len()
            invariant
                0 <= i <= self.command@.len(),
                command@.len() == i,
                forall|k: int| 0 <= k < i ==> (#[trigger] command@[k])@ == self.command@[k]@,
            decreases self.command@.len() - i,
        {
            command.push(self.command[i].clone());
            i += 1;
        }
        let r = Scratchpad {
            tag: self.tag.clone(),
            kind: self.kind,
            target: self.target.clone(),
            command,
            timeout: self.timeout,
            space: self.space,
        };
        proof {
            assert(r@.command =~= self@.command);
        }
        r
    }
}

/// The views of a scratchpad list.
pub open spec fn scratchpad_views(sps: Seq<Scratchpad>) -> Seq<ScratchpadView> {
    sps.map_values(|sp: Scratchpad| sp@)
}

/// The placement-rule arguments registered for a scratchpad: an anchored
/// exact match on the application name or title, the configured grid, and
/// the window left unmanaged.
pub open spec fn spec_configure_args(sp: ScratchpadView, grid: Seq<char>) -> Seq<Seq<char>> {
    seq![
        "rule"@,
        "--add"@,
        (if sp.kind is App {
            "app=^"@
        } else {
            "title=^"@
        }) + sp.target + "$"@,
        "grid="@ + grid,
        "manage=off"@,
    ]
}

impl Scratchpad {
    /// The manager command that registers this scratchpad's placement rule
    /// under the configured grid.
    pub fn configure_args(&self, config: &Config) -> (r: Vec<String>)
        ensures
            crate::yabai::socket::arg_views(r@) == spec_configure_args(
                self@,
                config@.scratchpad_grid,
            ),
    {
        let target = if self.kind.is_app() {
            "app=^".to_owned().concat(self.target.as_str()).concat("$")
        } else {
            "title=^".to_owned().concat(self.target.as_str()).concat("$")
        };
        let grid = "grid=".to_owned().concat(config.scratchpad_grid().as_str());
        let mut v: Vec<String> = Vec::new();
        v.push("rule".to_owned());
        v.push("--add".to_owned());
        v.push(target);
        v.push(grid);
        v.push("manage=off".to_owned());
        proof {
            assert(crate::yabai::socket::arg_views(v@) =~= spec_configure_args(
                self@,
                config@.scratchpad_grid,
            ));
        }
        v
    }
}

/// Whether a window is the one a scratchpad stands for, by the scratchpad's
/// match kind.
pub open spec fn spec_scratchpad_matches(sp: ScratchpadView, w: WindowView) -> bool {
    if sp.kind is App {
        w.app == sp.target
    } else {
        w.title == sp.target
    }
}

/// Test a window against one scratchpad.
pub fn scratchpad_matches(sp: &Scratchpad, w: &Window) -> (r: bool)
    ensures
        r == spec_scratchpad_matches(sp@, w@),
{
    if sp.kind.is_app() {
        str_eq(w.app.as_str(), sp.target.as_str())
    } else {
        str_eq(w.title.as_str(), sp.target.as_str())
    }
}

/// The kind a JSON string names: the lowercase spellings of the two kinds.
pub open spec fn spec_kind_from(cs: Seq<char>) -> Option<TargetKind> {
    if cs == "app"@ {
        Some(TargetKind::App)
    } else if cs == "title"@ {
        Some(TargetKind::Title)
    } else {
        None
    }
}

/// A list of strings read from JSON values.
pub open spec fn spec_str_items(items: Seq<SpecJson>) -> Option<Seq<Seq<char>>>
    decreases items.len(),
{
    if items.len() == 0 {
        Some(Seq::empty())
    } else {
        match spec_json_str(items.first()) {
            None => None,
            Some(cs) => match spec_str_items(items.drop_first()) {
                None => None,
                Some(rest) => Some(seq![cs] + rest),
            },
        }
    }
}

fn str_items(items: &[Json]) -> (r: Option<Vec<String>>)
    ensures
        r matches Some(vs) ==> spec_str_items(jviews(items@)) == Some(
            vs@.map_values(|c: String| c@),
        ),
        r is None ==> spec_str_items(jviews(items@)) is None,
    decreases items@.len(),
{
    if items.len() == 0 {
        let vs: Vec<String> = Vec::new();
        proof {
            assert(jviews(items@) =~= Seq::<SpecJson>::empty());
            assert(vs@.map_values(|c: String| c@) =~= Seq::<Seq<char>>::empty());
        }
        return Some(vs);
    }
    proof {
        assert(jviews(items@).first() == jview(items@[0]));
    }
    match json_str(&items[0]) {
        None => None,
        Some(cs) => {
            let c = cs.clone();
            let tail = vstd::slice::slice_subrange(items, 1, items.len());
            proof {
                assert(jviews(items@).drop_first() =~= jviews(tail@));
            }
            match str_items(tail) {
                None => None,
                Some(rest) => {
                    let ghost rest_views = rest@.map_values(|x: String| x@);
                    let ghost c_view = c@;
                    let mut vs = rest;
                    vs.insert(0, c);
                    proof {
                        assert(vs@.map_values(|x: String| x@) =~= seq![c_view] + rest_views);
                    }
                    Some(vs)
                },
            }
        },
    }
}

/// The scratchpad a JSON object describes: `tag`, `kind`, `target` and
/// `command` must be present and well shaped; `timeout` and `space` are
/// optional overrides; unknown fields are ignored.
pub open spec fn spec_scratchpad_from(j: SpecJson) -> Option<ScratchpadView> {
    match crate::json::spec_field_str(j, "tag"@) {
        None => None,
        Some(tag) => match crate::json::spec_field_str(j, "kind"@) {
            None => None,
            Some(kindname) => match spec_kind_from(kindname) {
                None => None,
                Some(kind) => match crate::json::spec_field_str(j, "target"@) {
                    None => None,
                    Some(target) => match spec_obj_get(j, "command"@) {
                        None => None,
                        Some(cj) => match cj {
                            SpecJson::Arr(items) => match spec_str_items(items) {
                                None => None,
                                Some(command) => match spec_opt_u8(j, "timeout"@) {
                                    None => None,
                                    Some(timeout) => match spec_opt_u8(j, "space"@) {
                                        None => None,
                                        Some(space) => Some(
                                            (ScratchpadView {
                                                tag,
                                                kind,
                                                target,
                                                command,
                                                timeout,
                                                space,
                                            }),
                                        ),
                                    },
                                },
                            },
                            _ => None,
                        },
                    },
                },
            },
        },
    }
}

/// An optional unsigned 8-bit field: absent is fine, present must be a
/// numeral in range.
pub open spec fn spec_opt_u8(j: SpecJson, key: Seq<char>) -> Option<Option<u8>> {
    match spec_obj_get(j, key) {
        None => Some(None),
        Some(v) => match spec_json_u8(v) {
            None => None,
            Some(x) => Some(Some(x)),
        },
    }
}

fn opt_u8(j: &Json, key: &str) -> (r: Option<Option<u8>>)
    ensures
        r == spec_opt_u8(jview(*j), key@),
{
    match obj_get(j, key) {
        None => Some(None),
        Some(v) => match json_u8(v) {
            None => None,
            Some(x) => Some(Some(x)),
        },
    }
}

/// Decode one scratchpad from a JSON value.
pub fn scratchpad_from_json(j: &Json) -> (r: Option<Scratchpad>)
    ensures
        r matches Some(sp) ==> spec_scratchpad_from(jview(*j)) == Some(sp@),
        r is None ==> spec_scratchpad_from(jview(*j)) is None,
{
    let tag = match obj_get(j, "tag") {
        None => {
            return None;
        },
        Some(v) => match json_str(v) {
            None => {
                return None;
            },
            Some(cs) => cs.clone(),
        },
    };
    let kind = match obj_get(j, "kind") {
        None => {
            return None;
        },
        Some(v) => match json_str(v) {
            None => {
                return None;
            },
            Some(cs) => {
                if str_eq(cs.as_str(), "app") {
                    TargetKind::App
                } else if str_eq(cs.as_str(), "title") {
                    TargetKind::Title
                } else {
                    return None;
                }
            },
        },
    };
    let target = match obj_get(j, "target") {
        None => {
            return None;
        },
        Some(v) => match json_str(v) {
            None => {
                return None;
            },
            Some(cs) => cs.clone(),
        },
    };
    let command = match obj_get(j, "command") {
        None => {
            return None;
        },
        Some(cj) => match cj {
            Json::Arr(items) => {
                proof {
                    assert(jview(*cj)->Arr_0 =~= jviews(items@));
                }
                match str_items(items.as_slice()) {
                    None => {
                        return None;
                    },
                    Some(vs) => vs,
                }
            },
            _ => {
                return None;
            },
        },
    };
    let timeout = match opt_u8(j, "timeout") {
        None => {
            return None;
        },
        Some(x) => x,
    };
    let space = match opt_u8(j, "space") {
        None => {
            return None;
        },
        Some(x) => x,
    };
    Some(Scratchpad { tag, kind, target, command, timeout, space })
}

/// A list of scratchpads read from JSON values.
pub open spec fn spec_scratchpad_items(items: Seq<SpecJson>) -> Option<Seq<ScratchpadView>>
    decreases items.len(),
{
    if items.len() == 0 {
        Some(Seq::empty())
    } else {
        match spec_scratchpad_from(items.first()) {
            None => None,
            Some(sp) => match spec_scratchpad_items(items.drop_first()) {
                None => None,
                Some(rest) => Some(seq![sp] + rest),
            },
        }
    }
}

fn scratchpad_items(items: &[Json]) -> (r: Option<Vec<Scratchpad>>)
    ensures
        r matches Some(vs) ==> spec_scratchpad_items(jviews(items@)) == Some(
            scratchpad_views(vs@),
        ),
        r is None ==> spec_scratchpad_items(jviews(items@)) is None,
    decreases items@.len(),
{
    if items.len() == 0 {
        let vs: Vec<Scratchpad> = Vec::new();
        proof {
            assert(jviews(items@) =~= Seq::<SpecJson>::empty());
            assert(scratchpad_views(vs@) =~= Seq::<ScratchpadView>::empty());
        }
        return Some(vs);
    }
    proof {
        assert(jviews(items@).first() == jview(items@[0]));
    }
    match scratchpad_from_json(&items[0]) {
        None => None,
        Some(sp) => {
            let tail = vstd::slice::slice_subrange(items, 1, items.len());
            proof {
                assert(jviews(items@).drop_first() =~= jviews(tail@));
            }
            match scratchpad_items(tail) {
                None => None,
                Some(rest) => {
                    let ghost rest_views = scratchpad_views(rest@);
                    let ghost sp_view = sp@;
                    let mut vs = rest;
                    vs.insert(0, sp);
                    proof {
                        assert(scratchpad_views(vs@) =~= seq![sp_view] + rest_views);
                    }
                    Some(vs)
                },
            }
        },
    }
}

/// The scratchpad list a whole configuration payload describes: a JSON
/// array of scratchpad objects.
pub open spec fn spec_scratchpads_from(j: SpecJson) -> Option<Seq<ScratchpadView>> {
    match j {
        SpecJson::Arr(items) => spec_scratchpad_items(items),
        _ => None,
    }
}

/// Decode a whole scratchpad list.
pub fn scratchpads_from_json(j: &Json) -> (r: Option<Vec<Scratchpad>>)
    ensures
        r matches Some(vs) ==> spec_scratchpads_from(jview(*j)) == Some(scratchpad_views(vs@)),
        r is None ==> spec_scratchpads_from(jview(*j)) is None,
{
    match j {
        Json::Arr(items) => {
            proof {
                assert(jview(*j)->Arr_0 =~= jviews(items@));
                assert(jview(*j) == SpecJson::Arr(jviews(items@)));
            }
            scratchpad_items(items.as_slice())
        },
        _ => None,
    }
}

/// What toggling a scratchpad does.
#[derive(Debug, PartialEq, Eq)]
pub enum ToggleAction {
    /// The scratchpad is showing: minimize the focused window, by id.
    Hide(u32),
    /// The scratchpad is not showing: launch its command as a detached
    /// process.
    Launch(Vec<String>),
}

/// Why a toggle request failed.
#[derive(Debug, PartialEq, Eq)]
pub enum ToggleError {
    /// No scratchpad has the requested tag; carries it.
    UnknownTag(String),
    /// The matched scratchpad has an empty launch command.
    EmptyCommand,
}

pub struct ScratchpadEvent;

impl ScratchpadEvent {
    /// Decide a toggle request: resolve the tag, compare the focused window
    /// against the scratchpad's target by its kind, and either hide the
    /// window or launch the configured command.
    pub fn toggle_decision(config: &Config, tag: &str, focused: &Window) -> (r: Result<
        ToggleAction,
        ToggleError,
    >)
        ensures
            match crate::config::spec_scratchpad_by_tag(config@.scratchpads, tag@) {
                None => r matches Err(ToggleError::UnknownTag(t)) && t@ == tag@,
                Some(sp) => {
                    if spec_scratchpad_matches(sp, focused@) {
                        r == Ok::<ToggleAction, ToggleError>(ToggleAction::Hide(focused@.id))
                    } else if sp.command.len() == 0 {
                        r == Err::<ToggleAction, ToggleError>(ToggleError::EmptyCommand)
                    } else {
                        r matches Ok(a) && a matches ToggleAction::Launch(cmd)
                            && cmd@.map_values(|c: String| c@) == sp.command
                    }
                },
            },
    {
        match config.scratchpad_by_tag(tag) {
            None => Err(ToggleError::UnknownTag(tag.to_owned())),
            Some(sp) => {
                if scratchpad_matches(sp, focused) {
                    Ok(ToggleAction::Hide(focused.id))
                } else if sp.command.len() == 0 {
                    Err(ToggleError::EmptyCommand)
                } else {
                    let copy = sp.clone();
                    Ok(ToggleAction::Launch(copy.command))
                }
            },
        }
    }
}

} // verus!
