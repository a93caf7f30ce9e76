//! Models of the manager's query replies, holding exactly the fields the
//! automation logic reads.

use vstd::prelude::*;

verus! {

use crate::json::Json;
use crate::json::SpecJson;
use crate::json::jview;
use crate::json::jviews;
use crate::json::obj_get;
use crate::json::spec_obj_get;
use crate::json::json_u32;
use crate::json::spec_json_u32;
use crate::json::field_u32;
use crate::json::spec_field_u32;
use crate::json::field_bool;
use crate::json::spec_field_bool;
use crate::json::field_str;
use crate::json::spec_field_str;

/// One space (virtual desktop) as the manager reports it.
#[derive(Debug, PartialEq, Eq)]
pub struct Space {
    pub id: u32,
    /// The positional index commands address the space by.
    pub index: u32,
    pub label: String,
    /// Ids of the windows in the space.
    pub windows: Vec<u32>,
    pub first_window: u32,
    pub last_window: u32,
    pub has_focus: bool,
    pub is_visible: bool,
    pub is_native_fullscreen: bool,
}

/// The mathematical image of a `Space`.
pub struct SpaceView {
    pub id: u32,
    pub index: u32,
    pub label: Seq<char>,
    pub windows: Seq<u32>,
    pub first_window: u32,
    pub last_window: u32,
    pub has_focus: bool,
    pub is_visible: bool,
    pub is_native_fullscreen: bool,
}

impl View for Space {
    type V = SpaceView;

    open spec fn view(&self) -> SpaceView {
        SpaceView {
            id: self.id,
            index: self.index,
            label: self.label@,
            windows: self.windows@,
            first_window: self.first_window,
            last_window: self.last_window,
            has_focus: self.has_focus,
            is_visible: self.is_visible,
            is_native_fullscreen: self.is_native_fullscreen,
        }
    }
}

impl Clone for Space {
    fn clone(&self) -> (r: Self)
        ensures
            r@ == self@,
    {
        let r = Space {
            id: self.id,
            index: self.index,
            label: self.label.clone(),
            windows: self.windows.clone(),
            first_window: self.first_window,
            last_window: self.last_window,
            has_focus: self.has_focus,
            is_visible: self.is_visible,
            is_native_fullscreen: self.is_native_fullscreen,
        };
        proof {
            assert(r.windows@ =~= self.windows@);
        }
        r
    }
}

/// One window as the manager reports it.
#[derive(Debug, PartialEq, Eq)]
pub struct Window {
    pub id: u32,
    /// The owning application's name.
    pub app: String,
    pub title: String,
    /// The accessibility subrole; one helper subrole is filtered out of
    /// every window listing.
    pub subrole: String,
    pub has_focus: bool,
    pub is_minimized: bool,
    pub is_hidden: bool,
    pub is_floating: bool,
}

/// The mathematical image of a `Window`.
pub struct WindowView {
    pub id: u32,
    pub app: Seq<char>,
    pub title: Seq<char>,
    pub subrole: Seq<char>,
    pub has_focus: bool,
    pub is_minimized: bool,
    pub is_hidden: bool,
    pub is_floating: bool,
}

impl View for Window {
    type V = WindowView;

    open spec fn view(&self) -> WindowView {
        WindowView {
            id: self.id,
            app: self.app@,
            title: self.title@,
            subrole: self.subrole@,
            has_focus: self.has_focus,
            is_minimized: self.is_minimized,
            is_hidden: self.is_hidden,
            is_floating: self.is_floating,
        }
    }
}

impl Clone for Window {
    fn clone(&self) -> (r: Self)
        ensures
            r@ == self@,
    {
        Window {
            id: self.id,
            app: self.app.clone(),
            title: self.title.clone(),
            subrole: self.subrole.clone(),
            has_focus: self.has_focus,
            is_minimized: self.is_minimized,
            is_hidden: self.is_hidden,
            is_floating: self.is_floating,
        }
    }
}

/// The views of a window listing.
pub open spec fn window_views(ws: Seq<Window>) -> Seq<WindowView> {
    ws.map_values(|w: Window| w@)
}

/// The views of a space listing.
pub open spec fn space_views(ss: Seq<Space>) -> Seq<SpaceView> {
    ss.map_values(|s: Space| s@)
}

/// A list of unsigned 32-bit integers read from JSON values.
pub open spec fn spec_u32_items(items: Seq<SpecJson>) -> Option<Seq<u32>>
    decreases items.len(),
{
    if items.len() == 0 {
        Some(Seq::empty())
    } else {
        match spec_json_u32(items.first()) {
            None => None,
            Some(v) => match spec_u32_items(items.drop_first()) {
                None => None,
                Some(rest) => Some(seq![v] + rest),
            },
        }
    }
}

fn u32_items(items: &[Json]) -> (r: Option<Vec<u32>>)
    ensures
        r matches Some(vs) ==> spec_u32_items(jviews(items@)) == Some(vs@),
        r is None ==> spec_u32_items(jviews(items@)) is None,
    decreases items@.len(),
{
    if items.len() == 0 {
        let vs: Vec<u32> = Vec::new();
        proof {
            assert(jviews(items@) =~= Seq::<SpecJson>::empty());
            assert(vs@ =~= Seq::<u32>::empty());
        }
        return Some(vs);
    }
    proof {
        assert(jviews(items@).first() == jview(items@[0]));
    }
    match json_u32(&items[0]) {
        None => None,
        Some(v) => {
            let tail = vstd::slice::slice_subrange(items, 1, items.len());
            proof {
                assert(jviews(items@).drop_first() =~= jviews(tail@));
            }
            match u32_items(tail) {
                None => None,
                Some(rest) => {
                    let ghost rest_view = rest@;
                    let mut vs = rest;
                    vs.insert(0, v);
                    proof {
                        assert(vs@ =~= seq![v] + rest_view);
                    }
                    Some(vs)
                },
            }
        },
    }
}

/// The space a JSON object describes; `None` when a required field is
/// absent or of the wrong shape.
pub open spec fn spec_space_from(j: SpecJson) -> Option<SpaceView> {
    match spec_field_u32(j, "id"@) {
        None => None,
        Some(id) => match spec_field_u32(j, "index"@) {
            None => None,
            Some(index) => match spec_field_str(j, "label"@) {
                None => None,
                Some(label) => match spec_obj_get(j, "windows"@) {
                    None => None,
                    Some(wj) => match wj {
                        SpecJson::Arr(items) => match spec_u32_items(items) {
                            None => None,
                            Some(windows) => match spec_field_u32(j, "first-window"@) {
                                None => None,
                                Some(first_window) => match spec_field_u32(j, "last-window"@) {
                                    None => None,
                                    Some(last_window) => match spec_field_bool(j, "has-focus"@) {
                                        None => None,
                                        Some(has_focus) => match spec_field_bool(
                                            j,
                                            "is-visible"@,
                                        ) {
                                            None => None,
                                            Some(is_visible) => match spec_field_bool(
                                                j,
                                                "is-native-fullscreen"@,
                                            ) {
                                                None => None,
                                                Some(is_native_fullscreen) => Some(
                                                    (SpaceView {
                                                        id,
                                                        index,
                                                        label,
                                                        windows,
                                                        first_window,
                                                        last_window,
                                                        has_focus,
                                                        is_visible,
                                                        is_native_fullscreen,
                                                    }),
                                                ),
                                            },
                                        },
                                    },
                                },
                            },
                        },
                        _ => None,
                    },
                },
            },
        },
    }
}

/// Decode one space from a JSON value.
pub fn space_from_json(j: &Json) -> (r: Option<Space>)
    ensures
        r matches Some(sp) ==> spec_space_from(jview(*j)) == Some(sp@),
        r is None ==> spec_space_from(jview(*j)) is None,
{
    let id = match field_u32(j, "id") {
        None => {
            return None;
        },
        Some(x) => x,
    };
    let index = match field_u32(j, "index") {
        None => {
            return None;
        },
        Some(x) => x,
    };
    let label = match field_str(j, "label") {
        None => {
            return None;
        },
        Some(x) => x,
    };
    let windows = match obj_get(j, "windows") {
        None => {
            return None;
        },
        Some(wj) => match wj {
            Json::Arr(items) => {
                proof {
                    assert(jview(*wj)->Arr_0 =~= jviews(items@));
                }
                match u32_items(items.as_slice()) {
                    None => {
                        return None;
                    },
                    Some(vs) => vs,
                }
            },
            _ => {
                return None;
            },
        },
    };
    let first_window = match field_u32(j, "first-window") {
        None => {
            return None;
        },
        Some(x) => x,
    };
    let last_window = match field_u32(j, "last-window") {
        None => {
            return None;
        },
        Some(x) => x,
    };
    let has_focus = match field_bool(j, "has-focus") {
        None => {
            return None;
        },
        Some(x) => x,
    };
    let is_visible = match field_bool(j, "is-visible") {
        None => {
            return None;
        },
        Some(x) => x,
    };
    let is_native_fullscreen = match field_bool(j, "is-native-fullscreen") {
        None => {
            return None;
        },
        Some(x) => x,
    };
    Some(
        Space {
            id,
            index,
            label,
            windows,
            first_window,
            last_window,
            has_focus,
            is_visible,
            is_native_fullscreen,
        },
    )
}

/// The window a JSON object describes.
pub open spec fn spec_window_from(j: SpecJson) -> Option<WindowView> {
    match spec_field_u32(j, "id"@) {
        None => None,
        Some(id) => match spec_field_str(j, "app"@) {
            None => None,
            Some(app) => match spec_field_str(j, "title"@) {
                None => None,
                Some(title) => match spec_field_str(j, "subrole"@) {
                    None => None,
                    Some(subrole) => match spec_field_bool(j, "has-focus"@) {
                        None => None,
                        Some(has_focus) => match spec_field_bool(j, "is-minimized"@) {
                            None => None,
                            Some(is_minimized) => match spec_field_bool(j, "is-hidden"@) {
                                None => None,
                                Some(is_hidden) => match spec_field_bool(j, "is-floating"@) {
                                    None => None,
                                    Some(is_floating) => Some(
                                        (WindowView {
                                            id,
                                            app,
                                            title,
                                            subrole,
                                            has_focus,
                                            is_minimized,
                                            is_hidden,
                                            is_floating,
                                        }),
                                    ),
                                },
                            },
                        },
                    },
                },
            },
        },
    }
}

/// Decode one window from a JSON value.
pub fn window_from_json(j: &Json) -> (r: Option<Window>)
    ensures
        r matches Some(w) ==> spec_window_from(jview(*j)) == Some(w@),
        r is None ==> spec_window_from(jview(*j)) is None,
{
    let id = match field_u32(j, "id") {
        None => {
            return None;
        },
        Some(x) => x,
    };
    let app = match field_str(j, "app") {
        None => {
            return None;
        },
        Some(x) => x,
    };
    let title = match field_str(j, "title") {
        None => {
            return None;
        },
        Some(x) => x,
    };
    let subrole = match field_str(j, "subrole") {
        None => {
            return None;
        },
        Some(x) => x,
    };
    let has_focus = match field_bool(j, "has-focus") {
        None => {
            return None;
        },
        Some(x) => x,
    };
    let is_minimized = match field_bool(j, "is-minimized") {
        None => {
            return None;
        },
        Some(x) => x,
    };
    let is_hidden = match field_bool(j, "is-hidden") {
        None => {
            return None;
        },
        Some(x) => x,
    };
    let is_floating = match field_bool(j, "is-floating") {
        None => {
            return None;
        },
        Some(x) => x,
    };
    Some(Window { id, app, title, subrole, has_focus, is_minimized, is_hidden, is_floating })
}

/// A list of spaces read from JSON values.
pub open spec fn spec_space_items(items: Seq<SpecJson>) -> Option<Seq<SpaceView>>
    decreases items.len(),
{
    if items.len() == 0 {
        Some(Seq::empty())
    } else {
        match spec_space_from(items.first()) {
            None => None,
            Some(sp) => match spec_space_items(items.drop_first()) {
                None => None,
                Some(rest) => Some(seq![sp] + rest),
            },
        }
    }
}

fn space_items(items: &[Json]) -> (r: Option<Vec<Space>>)
    ensures
        r matches Some(vs) ==> spec_space_items(jviews(items@)) == Some(space_views(vs@)),
        r is None ==> spec_space_items(jviews(items@)) is None,
    decreases items@.len(),
{
    if items.len() == 0 {
        let vs: Vec<Space> = Vec::new();
        proof {
            assert(jviews(items@) =~= Seq::<SpecJson>::empty());
            assert(space_views(vs@) =~= Seq::<SpaceView>::empty());
        }
        return Some(vs);
    }
    proof {
        assert(jviews(items@).first() == jview(items@[0]));
    }
    match space_from_json(&items[0]) {
        None => None,
        Some(sp) => {
            let tail = vstd::slice::slice_subrange(items, 1, items.len());
            proof {
                assert(jviews(items@).drop_first() =~= jviews(tail@));
            }
            match space_items(tail) {
                None => None,
                Some(rest) => {
                    let ghost rest_views = space_views(rest@);
                    let ghost sp_view = sp@;
                    let mut vs = rest;
                    vs.insert(0, sp);
                    proof {
                        assert(space_views(vs@) =~= seq![sp_view] + rest_views);
                    }
                    Some(vs)
                },
            }
        },
    }
}

/// The list of spaces a whole query reply describes: a JSON array of space
/// objects.
pub open spec fn spec_spaces_from(j: SpecJson) -> Option<Seq<SpaceView>> {
    match j {
        SpecJson::Arr(items) => spec_space_items(items),
        _ => None,
    }
}

/// Decode a whole spaces reply.
pub fn spaces_from_json(j: &Json) -> (r: Option<Vec<Space>>)
    ensures
        r matches Some(vs) ==> spec_spaces_from(jview(*j)) == Some(space_views(vs@)),
        r is None ==> spec_spaces_from(jview(*j)) is None,
{
    match j {
        Json::Arr(items) => {
            proof {
                assert(jview(*j)->Arr_0 =~= jviews(items@));
                assert(jview(*j) == SpecJson::Arr(jviews(items@)));
            }
            space_items(items.as_slice())
        },
        _ => None,
    }
}

/// A list of windows read from JSON values.
pub open spec fn spec_window_items(items: Seq<SpecJson>) -> Option<Seq<WindowView>>
    decreases items.len(),
{
    if items.len() == 0 {
        Some(Seq::empty())
    } else {
        match spec_window_from(items.first()) {
            None => None,
            Some(w) => match spec_window_items(items.drop_first()) {
                None => None,
                Some(rest) => Some(seq![w] + rest),
            },
        }
    }
}

fn window_items(items: &[Json]) -> (r: Option<Vec<Window>>)
    ensures
        r matches Some(vs) ==> spec_window_items(jviews(items@)) == Some(window_views(vs@)),
        r is None ==> spec_window_items(jviews(items@)) is None,
    decreases items@.len(),
{
    if items.len() == 0 {
        let vs: Vec<Window> = Vec::new();
        proof {
            assert(jviews(items@) =~= Seq::<SpecJson>::empty());
            assert(window_views(vs@) =~= Seq::<WindowView>::empty());
        }
        return Some(vs);
    }
    proof {
        assert(jviews(items@).first() == jview(items@[0]));
    }
    match window_from_json(&items[0]) {
        None => None,
        Some(w) => {
            let tail = vstd::slice::slice_subrange(items, 1, items.len());
            proof {
                assert(jviews(items@).drop_first() =~= jviews(tail@));
            }
            match window_items(tail) {
                None => None,
                Some(rest) => {
                    let ghost rest_views = window_views(rest@);
                    let ghost w_view = w@;
                    let mut vs = rest;
                    vs.insert(0, w);
                    proof {
                        assert(window_views(vs@) =~= seq![w_view] + rest_views);
                    }
                    Some(vs)
                },
            }
        },
    }
}

/// The list of windows a whole query reply describes: a JSON array of
/// window objects.
pub open spec fn spec_windows_from(j: SpecJson) -> Option<Seq<WindowView>> {
    match j {
        SpecJson::Arr(items) => spec_window_items(items),
        _ => None,
    }
}

/// Decode a whole windows reply.
pub fn windows_from_json(j: &Json) -> (r: Option<Vec<Window>>)
    ensures
        r matches Some(vs) ==> spec_windows_from(jview(*j)) == Some(window_views(vs@)),
        r is None ==> spec_windows_from(jview(*j)) is None,
{
    match j {
        Json::Arr(items) => {
            proof {
                assert(jview(*j)->Arr_0 =~= jviews(items@));
                assert(jview(*j) == SpecJson::Arr(jviews(items@)));
            }
            window_items(items.as_slice())
        },
        _ => None,
    }
}

} // verus!
