//! The shared daemon state and the configuration channel's request
//! handling: a key, its value tokens, and the placement-rule commands a
//! scratchpad update asks the caller to issue.

use vstd::prelude::*;

verus! {

use vstd::string::StringSliceAdditionalSpecFns;
use vstd::utf8::valid_utf8;
use vstd::utf8::decode_utf8;
use crate::codec::deep_tokens;
use crate::config::Config;
use crate::config::ConfigError;
use crate::config::ConfigView;
use crate::config::SpecConfigError;
use crate::config::spec_unique_tags;
use crate::num::spec_parse_uint;
use crate::scratchpad::ScratchpadView;
use crate::scratchpad::spec_configure_args;
use crate::scratchpad::spec_scratchpads_from;
use crate::text::bytes_eq;
use crate::text::string_from_utf8;
use crate::yabai::socket::arg_views;

/// The daemon's shared mutable state.
pub struct State {
    pub config: Config,
    /// Whether a scratchpad is currently considered open.
    pub scratchpad_open: bool,
}

impl Default for State {
    /// A fresh state: the default configuration, no scratchpad open.
    fn default() -> (s: Self)
        ensures
            s.config@.auto_close_empty_spaces == true,
            s.config@.scratchpad_launch_timeout == 10,
            s.config@.scratchpad_space == 8,
            s.config@.scratchpad_grid == "6:4:1:1:2:4"@,
            s.config@.scratchpads == Seq::<ScratchpadView>::empty(),
            s.scratchpad_open == false,
    {
        State { config: Config::default(), scratchpad_open: false }
    }
}

/// The value tokens joined back into one payload with single spaces.
pub open spec fn spec_join_sp(toks: Seq<Seq<u8>>) -> Seq<u8>
    decreases toks.len(),
{
    if toks.len() == 0 {
        Seq::empty()
    } else if toks.len() == 1 {
        toks[0]
    } else {
        spec_join_sp(toks.drop_last()) + seq![0x20u8] + toks.last()
    }
}

/// One placement-rule command per scratchpad, in order.
pub open spec fn spec_rule_commands(sps: Seq<ScratchpadView>, grid: Seq<char>) -> Seq<
    Seq<Seq<char>>,
> {
    Seq::new(
        sps.len(),
        |i: int|
            if 0 <= i < sps.len() {
                spec_configure_args(sps[i], grid)
            } else {
                Seq::empty()
            },
    )
}

/// What a configuration request does: the new configuration, and either the
/// commands the caller must issue (placement rules for a scratchpad update,
/// nothing otherwise) or the error that left the configuration unchanged.
pub open spec fn spec_apply_config(c: ConfigView, toks: Seq<Seq<u8>>) -> (
    ConfigView,
    Result<Seq<Seq<Seq<char>>>, SpecConfigError>,
) {
    if toks.len() == 0 {
        (c, Err(SpecConfigError::MissingKey))
    } else {
        let key = toks[0];
        if key == "yctrl_auto_close_empty_spaces".spec_bytes() {
            if toks.len() < 2 {
                (c, Err(SpecConfigError::MissingValue))
            } else if !valid_utf8(toks[1]) {
                (c, Err(SpecConfigError::InvalidText(toks[1])))
            } else if decode_utf8(toks[1]) == "true"@ {
                ((ConfigView { auto_close_empty_spaces: true, ..c }), Ok(Seq::empty()))
            } else if decode_utf8(toks[1]) == "false"@ {
                ((ConfigView { auto_close_empty_spaces: false, ..c }), Ok(Seq::empty()))
            } else {
                (c, Err(SpecConfigError::InvalidBool(toks[1])))
            }
        } else if key == "yctrl_scratchpad_launch_timeout".spec_bytes() {
            if toks.len() < 2 {
                (c, Err(SpecConfigError::MissingValue))
            } else if !valid_utf8(toks[1]) {
                (c, Err(SpecConfigError::InvalidText(toks[1])))
            } else {
                match spec_parse_uint(toks[1]) {
                    Some(n) => if n <= u8::MAX {
                        (
                            (ConfigView { scratchpad_launch_timeout: n as u8, ..c }),
                            Ok(Seq::empty()),
                        )
                    } else {
                        (c, Err(SpecConfigError::InvalidNumber(toks[1])))
                    },
                    None => (c, Err(SpecConfigError::InvalidNumber(toks[1]))),
                }
            }
        } else if key == "yctrl_scratchpad_space".spec_bytes() {
            if toks.len() < 2 {
                (c, Err(SpecConfigError::MissingValue))
            } else if !valid_utf8(toks[1]) {
                (c, Err(SpecConfigError::InvalidText(toks[1])))
            } else {
                match spec_parse_uint(toks[1]) {
                    Some(n) => if n <= u8::MAX {
                        ((ConfigView { scratchpad_space: n as u8, ..c }), Ok(Seq::empty()))
                    } else {
                        (c, Err(SpecConfigError::InvalidNumber(toks[1])))
                    },
                    None => (c, Err(SpecConfigError::InvalidNumber(toks[1]))),
                }
            }
        } else if key == "yctrl_scratchpad_grid".spec_bytes() {
            if toks.len() < 2 {
                (c, Err(SpecConfigError::MissingValue))
            } else if !valid_utf8(toks[1]) {
                (c, Err(SpecConfigError::InvalidText(toks[1])))
            } else {
                ((ConfigView { scratchpad_grid: decode_utf8(toks[1]), ..c }), Ok(Seq::empty()))
            }
        } else if key == "yctrl_scratchpads".spec_bytes() {
            let payload = spec_join_sp(toks.drop_first());
            if payload.len() + 16 > usize::MAX {
                (c, Err(SpecConfigError::InvalidScratchpads))
            } else if !valid_utf8(payload) {
                (c, Err(SpecConfigError::InvalidText(payload)))
            } else {
                match crate::json::spec_parse_json(payload) {
                    None => (c, Err(SpecConfigError::InvalidScratchpads)),
                    Some(doc) => match spec_scratchpads_from(doc) {
                        None => (c, Err(SpecConfigError::InvalidScratchpads)),
                        Some(vs) => if spec_unique_tags(vs) {
                            (
                                (ConfigView { scratchpads: vs, ..c }),
                                Ok(spec_rule_commands(vs, c.scratchpad_grid)),
                            )
                        } else {
                            (c, Err(SpecConfigError::DuplicateTag))
                        },
                    },
                }
            }
        } else {
            (c, Err(SpecConfigError::UnknownKey(key)))
        }
    }
}

/// Law: updating the placement grid through the configuration channel and
/// reading it back returns exactly the text that was set, and the update
/// itself succeeds and issues no commands.
pub proof fn lemma_grid_update_roundtrip(c: ConfigView, v: Seq<u8>)
    requires
        valid_utf8(v),
    ensures
        spec_apply_config(c, seq!["yctrl_scratchpad_grid".spec_bytes(), v]).0.scratchpad_grid
            == decode_utf8(v),
        spec_apply_config(c, seq!["yctrl_scratchpad_grid".spec_bytes(), v]).1 == Ok::<
            Seq<Seq<Seq<char>>>,
            SpecConfigError,
        >(Seq::empty()),
{
    lemma_config_keys_distinct();
    let toks = seq!["yctrl_scratchpad_grid".spec_bytes(), v];
    assert(toks[0] == "yctrl_scratchpad_grid".spec_bytes());
}

/// The configuration keys spell pairwise different byte strings.
proof fn lemma_config_keys_distinct()
    ensures
        "yctrl_scratchpad_grid".spec_bytes() != "yctrl_auto_close_empty_spaces".spec_bytes(),
        "yctrl_scratchpad_grid".spec_bytes() != "yctrl_scratchpad_launch_timeout".spec_bytes(),
        "yctrl_scratchpad_grid".spec_bytes() != "yctrl_scratchpad_space".spec_bytes(),
{
    reveal_strlit("yctrl_scratchpad_grid");
    reveal_strlit("yctrl_auto_close_empty_spaces");
    reveal_strlit("yctrl_scratchpad_launch_timeout");
    reveal_strlit("yctrl_scratchpad_space");
    vstd::utf8::encode_utf8_decode_utf8("yctrl_scratchpad_grid"@);
    vstd::utf8::encode_utf8_decode_utf8("yctrl_auto_close_empty_spaces"@);
    vstd::utf8::encode_utf8_decode_utf8("yctrl_scratchpad_launch_timeout"@);
    vstd::utf8::encode_utf8_decode_utf8("yctrl_scratchpad_space"@);
    assert("yctrl_scratchpad_grid"@.len() != "yctrl_auto_close_empty_spaces"@.len());
    assert("yctrl_scratchpad_grid"@.len() != "yctrl_scratchpad_launch_timeout"@.len());
    assert("yctrl_scratchpad_grid"@.len() != "yctrl_scratchpad_space"@.len());
}

/// Join the value tokens (everything after the key) with single spaces.
fn join_values(tokens: &[Vec<u8>]) -> (r: Vec<u8>)
    requires
        tokens@.len() >= 1,
    ensures
        r@ == spec_join_sp(deep_tokens(tokens@).drop_first()),
{
    let ghost vals = deep_tokens(tokens@).drop_first();
    let mut out: Vec<u8> = Vec::new();
    let mut i: usize = 1;
    proof {
        assert(vals.subrange(0, 0) =~= Seq::<Seq<u8>>::empty());
        assert(out@ =~= spec_join_sp(vals.subrange(0, 0)));
    }
    while i < tokens.len()
        invariant
            1 <= i <= tokens@.len(),
            vals == deep_tokens(tokens@).drop_first(),
            out@ == spec_join_sp(vals.subrange(0, i - 1)),
        decreases tokens@.len() - i,
    {
        let ghost prev = out@;
        if i > 1 {
            out.push(0x20);
        }
        out.extend_from_slice(tokens[i].as_slice());
        proof {
            assert(vals.subrange(0, i as int).drop_last() =~= vals.subrange(0, i - 1));
            assert(vals.subrange(0, i as int).last() == deep_tokens(tokens@)[i as int]);
            if i > 1 {
                assert(out@ =~= spec_join_sp(vals.subrange(0, i - 1)) + seq![0x20u8]
                    + deep_tokens(tokens@)[i as int]);
            } else {
                assert(out@ =~= deep_tokens(tokens@)[1]);
            }
        }
        i += 1;
    }
    proof {
        assert(vals.subrange(0, vals.len() as int) =~= vals);
    }
    out
}

impl State {
    /// Apply one configuration request: the key token selects the setting,
    /// the value tokens carry its new value.  On a scratchpad update the
    /// returned commands register one placement rule per scratchpad; every
    /// other successful update returns no commands.  An error leaves the
    /// configuration exactly as it was.
    pub fn handle(&mut self, tokens: &[Vec<u8>]) -> (r: Result<Vec<Vec<String>>, ConfigError>)
        ensures
            final(self).scratchpad_open == old(self).scratchpad_open,
            final(self).config@ == spec_apply_config(
                old(self).config@,
                deep_tokens(tokens@),
            ).0,
            match r {
                Ok(cmds) => spec_apply_config(old(self).config@, deep_tokens(tokens@)).1
                    matches Ok(sc) && cmds@.map_values(|c: Vec<String>| arg_views(c@)) == sc,
                Err(e) => spec_apply_config(old(self).config@, deep_tokens(tokens@)).1 == Err::<
                    Seq<Seq<Seq<char>>>,
                    SpecConfigError,
                >(e@),
            },
    {
        let ghost toks = deep_tokens(tokens@);
        if tokens.len() == 0 {
            return Err(ConfigError::MissingKey);
        }
        let key = tokens[0].as_slice();
        proof {
            assert(toks[0] == tokens@[0]@);
        }
        if bytes_eq(key, "yctrl_auto_close_empty_spaces".as_bytes()) {
            if tokens.len() < 2 {
                return Err(ConfigError::MissingValue);
            }
            proof {
                assert(toks[1] == tokens@[1]@);
            }
            match string_from_utf8(tokens[1].as_slice()) {
                None => Err(
                    ConfigError::InvalidText(vstd::slice::slice_to_vec(tokens[1].as_slice())),
                ),
                Some(v) => {
                    proof {
                        vstd::utf8::decode_utf8_encode_utf8(toks[1]);
                        assert(vstd::utf8::encode_utf8(v@) == toks[1]);
                    }
                    match self.config.set_auto_close_empty_spaces_with_str(v.as_str()) {
                        Ok(()) => {
                            let cmds: Vec<Vec<String>> = Vec::new();
                            proof {
                                assert(cmds@.map_values(|c: Vec<String>| arg_views(c@)) =~= Seq::<
                                    Seq<Seq<char>>,
                                >::empty());
                            }
                            Ok(cmds)
                        },
                        Err(e) => Err(e),
                    }
                },
            }
        } else if bytes_eq(key, "yctrl_scratchpad_launch_timeout".as_bytes()) {
            if tokens.len() < 2 {
                return Err(ConfigError::MissingValue);
            }
            proof {
                assert(toks[1] == tokens@[1]@);
            }
            match string_from_utf8(tokens[1].as_slice()) {
                None => Err(
                    ConfigError::InvalidText(vstd::slice::slice_to_vec(tokens[1].as_slice())),
                ),
                Some(v) => {
                    proof {
                        vstd::utf8::decode_utf8_encode_utf8(toks[1]);
                        assert(vstd::utf8::encode_utf8(v@) == toks[1]);
                    }
                    match self.config.set_scratchpad_launch_timeout_with_str(v.as_str()) {
                        Ok(()) => {
                            let cmds: Vec<Vec<String>> = Vec::new();
                            proof {
                                assert(cmds@.map_values(|c: Vec<String>| arg_views(c@)) =~= Seq::<
                                    Seq<Seq<char>>,
                                >::empty());
                            }
                            Ok(cmds)
                        },
                        Err(e) => Err(e),
                    }
                },
            }
        } else if bytes_eq(key, "yctrl_scratchpad_space".as_bytes()) {
            if tokens.len() < 2 {
                return Err(ConfigError::MissingValue);
            }
            proof {
                assert(toks[1] == tokens@[1]@);
            }
            match string_from_utf8(tokens[1].as_slice()) {
                None => Err(
                    ConfigError::InvalidText(vstd::slice::slice_to_vec(tokens[1].as_slice())),
                ),
                Some(v) => {
                    proof {
                        vstd::utf8::decode_utf8_encode_utf8(toks[1]);
                        assert(vstd::utf8::encode_utf8(v@) == toks[1]);
                    }
                    match self.config.set_scratchpad_space_with_str(v.as_str()) {
                        Ok(()) => {
                            let cmds: Vec<Vec<String>> = Vec::new();
                            proof {
                                assert(cmds@.map_values(|c: Vec<String>| arg_views(c@)) =~= Seq::<
                                    Seq<Seq<char>>,
                                >::empty());
                            }
                            Ok(cmds)
                        },
                        Err(e) => Err(e),
                    }
                },
            }
        } else if bytes_eq(key, "yctrl_scratchpad_grid".as_bytes()) {
            if tokens.len() < 2 {
                return Err(ConfigError::MissingValue);
            }
            proof {
                assert(toks[1] == tokens@[1]@);
            }
            match string_from_utf8(tokens[1].as_slice()) {
                None => Err(
                    ConfigError::InvalidText(vstd::slice::slice_to_vec(tokens[1].as_slice())),
                ),
                Some(v) => {
                    proof {
                        vstd::utf8::decode_utf8_encode_utf8(toks[1]);
                        assert(vstd::utf8::encode_utf8(v@) == toks[1]);
                    }
                    match self.config.set_scratchpad_grid_with_str(v.as_str()) {
                        Ok(()) => {
                            let cmds: Vec<Vec<String>> = Vec::new();
                            proof {
                                assert(cmds@.map_values(|c: Vec<String>| arg_views(c@)) =~= Seq::<
                                    Seq<Seq<char>>,
                                >::empty());
                            }
                            Ok(cmds)
                        },
                        Err(e) => Err(e),
                    }
                },
            }
        } else if bytes_eq(key, "yctrl_scratchpads".as_bytes()) {
            let payload = join_values(tokens);
            if payload.len() > usize::MAX - 16 {
                return Err(ConfigError::InvalidScratchpads);
            }
            match string_from_utf8(payload.as_slice()) {
                None => Err(ConfigError::InvalidText(payload)),
                Some(v) => {
                    proof {
                        vstd::utf8::decode_utf8_encode_utf8(payload@);
                        assert(vstd::utf8::encode_utf8(v@) == payload@);
                    }
                    match self.config.set_scratchpads_with_str(v.as_str()) {
                        Ok(()) => {
                            let ghost new_view = self.config@;
                            let ghost sps = new_view.scratchpads;
                            let ghost grid = new_view.scratchpad_grid;
                            let ghost open_mark = self.scratchpad_open;
                            let mut cmds: Vec<Vec<String>> = Vec::new();
                            let sps_vec = self.config.scratchpads();
                            let n = sps_vec.len();
                            let mut i: usize = 0;
                            while i < n
                                invariant
                                    0 <= i <= n,
                                    n == sps_vec@.len(),
                                    crate::scratchpad::scratchpad_views(sps_vec@) == sps,
                                    self.config@ == new_view,
                                    self.scratchpad_open == open_mark,
                                    sps.len() == n,
                                    grid == new_view.scratchpad_grid,
                                    cmds@.len() == i,
                                    forall|k: int|
                                        0 <= k < i ==> arg_views(#[trigger] cmds@[k]@)
                                            == spec_configure_args(sps[k], grid),
                                decreases n - i,
                            {
                                proof {
                                    assert(crate::scratchpad::scratchpad_views(sps_vec@)[
                                        i as int] == sps_vec@[i as int]@);
                                }
                                let args = sps_vec[i].configure_args(&self.config);
                                cmds.push(args);
                                i += 1;
                            }
                            proof {
                                assert(cmds@.map_values(|c: Vec<String>| arg_views(c@))
                                    =~= spec_rule_commands(sps, grid));
                            }
                            Ok(cmds)
                        },
                        Err(e) => Err(e),
                    }
                },
            }
        } else {
            Err(ConfigError::UnknownKey(vstd::slice::slice_to_vec(key)))
        }
    }
}

} // verus!
