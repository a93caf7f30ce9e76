//! The runtime configuration store: feature toggles, the scratchpad grid,
//! and the scratchpad registry, mutated only through validated setters.

use vstd::prelude::*;

verus! {

use vstd::string::StringSliceAdditionalSpecFns;
use vstd::string::StringExecFns;
use crate::num::parse_bool;
use crate::num::parse_u8;
use crate::num::spec_parse_uint;
use crate::scratchpad::Scratchpad;
use crate::scratchpad::ScratchpadView;
use crate::scratchpad::scratchpad_views;
use crate::scratchpad::scratchpads_from_json;
use crate::scratchpad::spec_scratchpads_from;
use crate::text::str_eq;

/// Why a configuration update was rejected.
#[derive(Debug, PartialEq, Eq)]
pub enum ConfigError {
    /// The value is neither "true" nor "false"; carries it.
    InvalidBool(Vec<u8>),
    /// The value is not an unsigned 8-bit decimal numeral; carries it.
    InvalidNumber(Vec<u8>),
    /// The scratchpad payload is not a well-formed relaxed-JSON list of
    /// scratchpads.
    InvalidScratchpads,
    /// Two scratchpads in the new list share a tag.
    DuplicateTag,
    /// The request named no configuration key.
    MissingKey,
    /// The request named no value for the key.
    MissingValue,
    /// The configuration key is not recognized; carries it.
    UnknownKey(Vec<u8>),
    /// A value is not valid UTF-8; carries it.
    InvalidText(Vec<u8>),
}

/// The mathematical image of a `ConfigError`.
pub enum SpecConfigError {
    InvalidBool(Seq<u8>),
    InvalidNumber(Seq<u8>),
    InvalidScratchpads,
    DuplicateTag,
    MissingKey,
    MissingValue,
    UnknownKey(Seq<u8>),
    InvalidText(Seq<u8>),
}

impl View for ConfigError {
    type V = SpecConfigError;

    open spec fn view(&self) -> SpecConfigError {
        match self {
            ConfigError::InvalidBool(v) => SpecConfigError::InvalidBool(v@),
            ConfigError::InvalidNumber(v) => SpecConfigError::InvalidNumber(v@),
            ConfigError::InvalidScratchpads => SpecConfigError::InvalidScratchpads,
            ConfigError::DuplicateTag => SpecConfigError::DuplicateTag,
            ConfigError::MissingKey => SpecConfigError::MissingKey,
            ConfigError::MissingValue => SpecConfigError::MissingValue,
            ConfigError::UnknownKey(v) => SpecConfigError::UnknownKey(v@),
            ConfigError::InvalidText(v) => SpecConfigError::InvalidText(v@),
        }
    }
}

/// The first scratchpad with the given tag.
pub open spec fn spec_scratchpad_by_tag(sps: Seq<ScratchpadView>, tag: Seq<char>) -> Option<
    ScratchpadView,
>
    decreases sps.len(),
{
    if sps.len() == 0 {
        None
    } else if sps.first().tag == tag {
        Some(sps.first())
    } else {
        spec_scratchpad_by_tag(sps.drop_first(), tag)
    }
}

/// No two scratchpads share a tag.
pub open spec fn spec_unique_tags(sps: Seq<ScratchpadView>) -> bool {
    forall|i: int, j: int|
        0 <= i < j < sps.len() ==> (#[trigger] sps[i]).tag != (#[trigger] sps[j]).tag
}

/// The runtime configuration: a single shared instance, mutated in place.
#[derive(Debug)]
pub struct Config {
    auto_close_empty_spaces: bool,
    scratchpad_launch_timeout: u8,
    scratchpad_space: u8,
    scratchpad_grid: String,
    scratchpads: Vec<Scratchpad>,
}

/// The mathematical image of a `Config`.
pub struct ConfigView {
    pub auto_close_empty_spaces: bool,
    pub scratchpad_launch_timeout: u8,
    pub scratchpad_space: u8,
    pub scratchpad_grid: Seq<char>,
    pub scratchpads: Seq<ScratchpadView>,
}

impl View for Config {
    type V = ConfigView;

    closed spec fn view(&self) -> ConfigView {
        ConfigView {
            auto_close_empty_spaces: self.auto_close_empty_spaces,
            scratchpad_launch_timeout: self.scratchpad_launch_timeout,
            scratchpad_space: self.scratchpad_space,
            scratchpad_grid: self.scratchpad_grid@,
            scratchpads: scratchpad_views(self.scratchpads@),
        }
    }
}

/// A configuration is well formed when its scratchpad tags are unique.
pub open spec fn spec_config_wf(c: ConfigView) -> bool {
    spec_unique_tags(c.scratchpads)
}

impl Default for Config {
    /// The defaults the daemon starts with: empty spaces are reaped, a ten
    /// second launch timeout, space eight, the stock grid, no scratchpads.
    fn default() -> (c: Self)
        ensures
            c@.auto_close_empty_spaces == true,
            c@.scratchpad_launch_timeout == 10,
            c@.scratchpad_space == 8,
            c@.scratchpad_grid == "6:4:1:1:2:4"@,
            c@.scratchpads == Seq::<ScratchpadView>::empty(),
            spec_config_wf(c@),
    {
        let c = Config {
            auto_close_empty_spaces: true,
            scratchpad_launch_timeout: 10,
            scratchpad_space: 8,
            scratchpad_grid: "6:4:1:1:2:4".to_owned(),
            scratchpads: Vec::new(),
        };
        proof {
            assert(c@.scratchpads =~= Seq::<ScratchpadView>::empty());
        }
        c
    }
}

impl Config {
    /// Set the empty-space reaping toggle from its textual value: exactly
    /// "true" or "false", anything else is rejected unapplied.
    pub fn set_auto_close_empty_spaces_with_str(&mut self, value: &str) -> (r: Result<
        (),
        ConfigError,
    >)
        ensures
            value@ == "true"@ ==> r is Ok && final(self)@ == (ConfigView {
                auto_close_empty_spaces: true,
                ..old(self)@
            }),
            value@ == "false"@ ==> r is Ok && final(self)@ == (ConfigView {
                auto_close_empty_spaces: false,
                ..old(self)@
            }),
            value@ != "true"@ && value@ != "false"@ ==> *final(self) == *old(self) && (
            r matches Err(ConfigError::InvalidBool(v)) && v@ == value.spec_bytes()),
    {
        proof {
            reveal_strlit("true");
            reveal_strlit("false");
            assert("true"@.len() != "false"@.len());
            vstd::utf8::encode_utf8_decode_utf8("true"@);
            vstd::utf8::encode_utf8_decode_utf8("false"@);
            vstd::utf8::encode_utf8_decode_utf8(value@);
        }
        match parse_bool(value.as_bytes()) {
            Some(b) => {
                self.auto_close_empty_spaces = b;
                Ok(())
            },
            None => Err(ConfigError::InvalidBool(vstd::slice::slice_to_vec(value.as_bytes()))),
        }
    }

    /// Set the scratchpad launch timeout from its textual value: an
    /// unsigned 8-bit decimal numeral.
    pub fn set_scratchpad_launch_timeout_with_str(&mut self, value: &str) -> (r: Result<
        (),
        ConfigError,
    >)
        ensures
            match spec_parse_uint(value.spec_bytes()) {
                Some(n) => if n <= u8::MAX {
                    r is Ok && final(self)@ == (ConfigView {
                        scratchpad_launch_timeout: n as u8,
                        ..old(self)@
                    })
                } else {
                    *final(self) == *old(self) && (r matches Err(ConfigError::InvalidNumber(v))
                        && v@ == value.spec_bytes())
                },
                None => *final(self) == *old(self) && (r matches Err(
                    ConfigError::InvalidNumber(v),
                ) && v@ == value.spec_bytes()),
            },
    {
        match parse_u8(value.as_bytes()) {
            Some(n) => {
                self.scratchpad_launch_timeout = n;
                Ok(())
            },
            None => Err(
                ConfigError::InvalidNumber(vstd::slice::slice_to_vec(value.as_bytes())),
            ),
        }
    }

    /// Set the scratchpad space from its textual value: an unsigned 8-bit
    /// decimal numeral.
    pub fn set_scratchpad_space_with_str(&mut self, value: &str) -> (r: Result<(), ConfigError>)
        ensures
            match spec_parse_uint(value.spec_bytes()) {
                Some(n) => if n <= u8::MAX {
                    r is Ok && final(self)@ == (ConfigView {
                        scratchpad_space: n as u8,
                        ..old(self)@
                    })
                } else {
                    *final(self) == *old(self) && (r matches Err(ConfigError::InvalidNumber(v))
                        && v@ == value.spec_bytes())
                },
                None => *final(self) == *old(self) && (r matches Err(
                    ConfigError::InvalidNumber(v),
                ) && v@ == value.spec_bytes()),
            },
    {
        match parse_u8(value.as_bytes()) {
            Some(n) => {
                self.scratchpad_space = n;
                Ok(())
            },
            None => Err(
                ConfigError::InvalidNumber(vstd::slice::slice_to_vec(value.as_bytes())),
            ),
        }
    }

    /// Set the placement grid: any string is accepted verbatim.
    pub fn set_scratchpad_grid_with_str(&mut self, value: &str) -> (r: Result<(), ConfigError>)
        ensures
            r is Ok,
            final(self)@ == (ConfigView { scratchpad_grid: value@, ..old(self)@ }),
    {
        self.scratchpad_grid = value.to_owned();
        Ok(())
    }

    /// Replace the scratchpad list wholesale; rejected unapplied when two
    /// entries share a tag.
    pub fn set_scratchpads(&mut self, sps: Vec<Scratchpad>) -> (r: Result<(), ConfigError>)
        ensures
            spec_unique_tags(scratchpad_views(sps@)) ==> r is Ok && final(self)@ == (ConfigView {
                scratchpads: scratchpad_views(sps@),
                ..old(self)@
            }) && spec_config_wf(final(self)@),
            !spec_unique_tags(scratchpad_views(sps@)) ==> *final(self) == *old(self) && r == Err::<
                (),
                ConfigError,
            >(ConfigError::DuplicateTag),
    {
        let ghost views = scratchpad_views(sps@);
        let mut i: usize = 0;
        while i < sps.len()
            invariant
                0 <= i <= sps@.len(),
                views == scratchpad_views(sps@),
                forall|a: int, b: int|
                    0 <= a < b < i ==> (#[trigger] views[a]).tag != (#[trigger] views[b]).tag,
            decreases sps@.len() - i,
        {
            let mut k: usize = 0;
            while k < i
                invariant
                    0 <= k <= i < sps@.len(),
                    views == scratchpad_views(sps@),
                    forall|b: int| 0 <= b < k ==> (#[trigger] views[b]).tag != views[i as int].tag,
                decreases i - k,
            {
                if str_eq(sps[k].tag.as_str(), sps[i].tag.as_str()) {
                    proof {
                        assert(views[k as int].tag == views[i as int].tag);
                        assert(!spec_unique_tags(views));
                    }
                    return Err(ConfigError::DuplicateTag);
                }
                k += 1;
            }
            i += 1;
        }
        self.scratchpads = sps;
        Ok(())
    }

    /// Replace the scratchpad list from its relaxed-JSON textual payload.
    pub fn set_scratchpads_with_str(&mut self, scratchpads: &str) -> (r: Result<(), ConfigError>)
        requires
            scratchpads.spec_bytes().len() + 16 <= usize::MAX,
        ensures
            match crate::json::spec_parse_json(scratchpads.spec_bytes()) {
                None => *final(self) == *old(self) && r == Err::<(), ConfigError>(
                    ConfigError::InvalidScratchpads,
                ),
                Some(doc) => match spec_scratchpads_from(doc) {
                    None => *final(self) == *old(self) && r == Err::<(), ConfigError>(
                        ConfigError::InvalidScratchpads,
                    ),
                    Some(vs) => if spec_unique_tags(vs) {
                        r is Ok && final(self)@ == (ConfigView { scratchpads: vs, ..old(self)@ })
                            && spec_config_wf(final(self)@)
                    } else {
                        *final(self) == *old(self) && r == Err::<(), ConfigError>(
                            ConfigError::DuplicateTag,
                        )
                    },
                },
            },
    {
        match crate::json::parse_json(scratchpads.as_bytes()) {
            None => Err(ConfigError::InvalidScratchpads),
            Some(doc) => match scratchpads_from_json(&doc) {
                None => Err(ConfigError::InvalidScratchpads),
                Some(vs) => self.set_scratchpads(vs),
            },
        }
    }

    /// Whether empty spaces are reaped.
    pub fn auto_close_empty_spaces(&self) -> (r: &bool)
        ensures
            *r == self@.auto_close_empty_spaces,
    {
        &self.auto_close_empty_spaces
    }

    /// The scratchpad launch timeout, seconds.
    pub fn scratchpad_launch_timeout(&self) -> (r: u8)
        ensures
            r == self@.scratchpad_launch_timeout,
    {
        self.scratchpad_launch_timeout
    }

    /// The default scratchpad space.
    pub fn scratchpad_space(&self) -> (r: u8)
        ensures
            r == self@.scratchpad_space,
    {
        self.scratchpad_space
    }

    /// The placement grid.
    pub fn scratchpad_grid(&self) -> (r: &String)
        ensures
            r@ == self@.scratchpad_grid,
    {
        &self.scratchpad_grid
    }

    /// The scratchpad registry, in insertion order.
    pub fn scratchpads(&self) -> (r: &Vec<Scratchpad>)
        ensures
            scratchpad_views(r@) == self@.scratchpads,
    {
        &self.scratchpads
    }

    /// The first scratchpad with the given tag.
    pub fn scratchpad_by_tag(&self, tag: &str) -> (r: Option<&Scratchpad>)
        ensures
            r matches Some(sp) ==> spec_scratchpad_by_tag(self@.scratchpads, tag@) == Some(sp@),
            r is None ==> spec_scratchpad_by_tag(self@.scratchpads, tag@) is None,
    {
        let ghost views = self@.scratchpads;
        proof {
            assert(views.skip(0) =~= views);
        }
        let mut i: usize = 0;
        while i < self.scratchpads.len()
            invariant
                0 <= i <= self.scratchpads@.len(),
                views == self@.scratchpads,
                spec_scratchpad_by_tag(views, tag@) == spec_scratchpad_by_tag(
                    views.skip(i as int),
                    tag@,
                ),
            decreases self.scratchpads@.len() - i,
        {
            proof {
                assert(views.skip(i as int).first() == self.scratchpads@[i as int]@);
                assert(views.skip(i as int).drop_first() =~= views.skip(i + 1));
            }
            if str_eq(self.scratchpads[i].tag.as_str(), tag) {
                return Some(&self.scratchpads[i]);
            }
            i += 1;
        }
        proof {
            assert(views.skip(views.len() as int).len() == 0);
        }
        None
    }
}

} // verus!
