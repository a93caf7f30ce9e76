//! The two wire framings: the daemon's own whitespace-tokenized control
//! messages, and the NUL-delimited command framing of the manager socket.

use vstd::prelude::*;

verus! {

use vstd::string::StringSliceAdditionalSpecFns;
use vstd::utf8::encode_utf8;
use crate::text::is_ascii_ws;
use crate::text::byte_is_ascii_ws;

/// A control request body with its one permitted trailing newline removed.
pub open spec fn spec_strip_newline(s: Seq<u8>) -> Seq<u8> {
    if s.len() > 0 && s.last() == 0x0A {
        s.drop_last()
    } else {
        s
    }
}

/// The tokens of `s` from position `i` on, given the token read so far and
/// the tokens already complete: maximal runs of non-whitespace bytes.
pub open spec fn spec_tokens_from(s: Seq<u8>, i: int, cur: Seq<u8>, acc: Seq<Seq<u8>>) -> Seq<
    Seq<u8>,
>
    decreases s.len() - i,
{
    if i < 0 || i >= s.len() {
        if cur.len() > 0 {
            acc.push(cur)
        } else {
            acc
        }
    } else if is_ascii_ws(s[i]) {
        if cur.len() > 0 {
            spec_tokens_from(s, i + 1, Seq::empty(), acc.push(cur))
        } else {
            spec_tokens_from(s, i + 1, Seq::empty(), acc)
        }
    } else {
        spec_tokens_from(s, i + 1, cur.push(s[i]), acc)
    }
}

/// The maximal runs of non-whitespace bytes in `s`, in order.
pub open spec fn spec_tokens(s: Seq<u8>) -> Seq<Seq<u8>> {
    spec_tokens_from(s, 0, Seq::empty(), Seq::empty())
}

/// The token list as a sequence of byte sequences.
pub open spec fn deep_tokens(toks: Seq<Vec<u8>>) -> Seq<Seq<u8>> {
    toks.map_values(|t: Vec<u8>| t@)
}

/// Tokenize a control request body: strip one trailing newline, then split
/// on runs of ASCII whitespace.
pub fn tokenize(body: &[u8]) -> (r: Vec<Vec<u8>>)
    ensures
        deep_tokens(r@) == spec_tokens(spec_strip_newline(body@)),
{
    let len = if body.len() > 0 && body[body.len() - 1] == 0x0A {
        body.len() - 1
    } else {
        body.len()
    };
    let s = vstd::slice::slice_subrange(body, 0, len);
    proof {
        assert(s@ =~= spec_strip_newline(body@));
    }
    let mut acc: Vec<Vec<u8>> = Vec::new();
    let mut cur: Vec<u8> = Vec::new();
    let mut i: usize = 0;
    proof {
        assert(deep_tokens(acc@) =~= Seq::<Seq<u8>>::empty());
        assert(cur@ =~= Seq::<u8>::empty());
    }
    while i < s.len()
        invariant
            0 <= i <= s@.len(),
            spec_tokens(s@) == spec_tokens_from(s@, i as int, cur@, deep_tokens(acc@)),
        decreases s@.len() - i,
    {
        let ghost prev_acc = acc@;
        let ghost prev_cur = cur@;
        let b = s[i];
        if byte_is_ascii_ws(b) {
            if cur.len() > 0 {
                acc.push(cur);
                cur = Vec::new();
                proof {
                    assert(acc@ == prev_acc.push(acc@.last()));
                    assert(deep_tokens(acc@) =~= deep_tokens(prev_acc).push(prev_cur));
                    assert(cur@ =~= Seq::<u8>::empty());
                }
            } else {
                proof {
                    assert(prev_cur =~= Seq::<u8>::empty());
                }
            }
        } else {
            cur.push(b);
        }
        i += 1;
    }
    if cur.len() > 0 {
        let ghost prev_acc = acc@;
        let ghost prev_cur = cur@;
        acc.push(cur);
        proof {
            assert(deep_tokens(acc@) =~= deep_tokens(prev_acc).push(prev_cur));
        }
    }
    acc
}

/// The byte image of a command's arguments: each argument's UTF-8 bytes
/// followed by one NUL, in order.
pub open spec fn spec_frame_args(args: Seq<Seq<u8>>) -> Seq<u8>
    decreases args.len(),
{
    if args.len() == 0 {
        Seq::empty()
    } else {
        spec_frame_args(args.drop_last()) + args.last() + seq![0u8]
    }
}

/// The full command frame: every argument NUL-terminated, then one extra
/// NUL closing the command.
pub open spec fn spec_frame(args: Seq<Seq<u8>>) -> Seq<u8> {
    spec_frame_args(args) + seq![0u8]
}

/// The UTF-8 byte strings of a list of argument strings.
pub open spec fn args_bytes(args: Seq<String>) -> Seq<Seq<u8>> {
    args.map_values(|a: String| encode_utf8(a@))
}

pub open spec fn has_nul(s: Seq<u8>) -> bool {
    exists|i: int| 0 <= i < s.len() && s[i] == 0
}

fn find_nul(s: &[u8]) -> (r: bool)
    ensures
        r == has_nul(s@),
{
    let mut i: usize = 0;
    while i < s.len()
        invariant
            0 <= i <= s@.len(),
            forall|j: int| 0 <= j < i ==> s@[j] != 0,
        decreases s@.len() - i,
    {
        if s[i] == 0 {
            return true;
        }
        i += 1;
    }
    false
}

/// A command that cannot be framed: one of its arguments embeds a NUL byte.
/// This is a caller error detected before any byte is written.
#[derive(Debug, PartialEq, Eq)]
pub struct NulArgument {
    /// Index of the offending argument.
    pub index: usize,
}

/// Frame a manager command: write each argument followed by a NUL byte,
/// then one extra NUL to terminate the command.  Fails, writing nothing,
/// when any argument embeds a NUL byte.
pub fn encode_command(args: &Vec<String>) -> (r: Result<Vec<u8>, NulArgument>)
    ensures
        r matches Ok(frame) ==> frame@ == spec_frame(args_bytes(args@)) && (forall|i: int|
            0 <= i < args@.len() ==> !has_nul(#[trigger] args_bytes(args@)[i])),
        r matches Err(e) ==> e.index < args@.len() && has_nul(args_bytes(args@)[e.index as int]),
{
    let mut out: Vec<u8> = Vec::new();
    let mut i: usize = 0;
    while i < args.len()
        invariant
            0 <= i <= args@.len(),
            out@ == spec_frame_args(args_bytes(args@).take(i as int)),
            forall|j: int| 0 <= j < i ==> !has_nul(#[trigger] args_bytes(args@)[j]),
        decreases args@.len() - i,
    {
        let b = args[i].as_str().as_bytes();
        if find_nul(b) {
            return Err(NulArgument { index: i });
        }
        out.extend_from_slice(b);
        out.push(0);
        proof {
            assert(args_bytes(args@).take(i + 1).drop_last() =~= args_bytes(args@).take(
                i as int,
            ));
            assert(out@ =~= spec_frame_args(args_bytes(args@).take(i as int)) + args_bytes(
                args@,
            )[i as int] + seq![0u8]);
        }
        i += 1;
    }
    out.push(0);
    proof {
        assert(args_bytes(args@).take(args@.len() as int) =~= args_bytes(args@));
    }
    Ok(out)
}

/// A manager error reply: the BEL sentinel followed by message text.
#[derive(Debug, PartialEq, Eq)]
pub struct ManagerError {
    /// The reply text after the sentinel, trimmed of ASCII whitespace.
    pub message: Vec<u8>,
}

/// Classify a full manager reply: a first byte 0x07 (ASCII BEL) always
/// denotes an error whose message is the rest of the reply, trimmed; any
/// other reply is the payload itself.
pub fn classify_response(buf: &[u8]) -> (r: Result<Vec<u8>, ManagerError>)
    ensures
        (buf@.len() > 0 && buf@[0] == 7) <==> r is Err,
        r matches Err(e) ==> e.message@ == crate::text::spec_trim(
            buf@.subrange(1, buf@.len() as int),
        ),
        r matches Ok(b) ==> b@ == buf@,
{
    if buf.len() > 0 && buf[0] == 7 {
        let rest = vstd::slice::slice_subrange(buf, 1, buf.len());
        Err(ManagerError { message: crate::text::trim_bytes(rest) })
    } else {
        Ok(vstd::slice::slice_to_vec(buf))
    }
}

/// The request kinds the control socket accepts, selected by the first
/// token of a request body.
#[derive(Debug, Clone, Copy, PartialEq, Eq, Structural)]
pub enum RequestKind {
    /// A manager notification to run the automation engine on.
    Event,
    /// A runtime-configuration update.
    Config,
    /// An explicit scratchpad toggle.
    Scratchpad,
}

/// Classify a request's leading token; anything outside the three request
/// kinds is unsupported.
pub fn classify_request(token: &[u8]) -> (r: Option<RequestKind>)
    ensures
        token@ == "event".spec_bytes() ==> r == Some(RequestKind::Event),
        token@ == "config".spec_bytes() ==> r == Some(RequestKind::Config),
        token@ == "scratchpad".spec_bytes() ==> r == Some(RequestKind::Scratchpad),
        token@ != "event".spec_bytes() && token@ != "config".spec_bytes() && token@
            != "scratchpad".spec_bytes() ==> r is None,
{
    proof {
        reveal_strlit("event");
        reveal_strlit("config");
        reveal_strlit("scratchpad");
        vstd::utf8::encode_utf8_decode_utf8("event"@);
        vstd::utf8::encode_utf8_decode_utf8("config"@);
        vstd::utf8::encode_utf8_decode_utf8("scratchpad"@);
        assert("event"@.len() != "config"@.len());
        assert("event"@.len() != "scratchpad"@.len());
        assert("config"@.len() != "scratchpad"@.len());
    }
    if crate::text::bytes_eq(token, "event".as_bytes()) {
        Some(RequestKind::Event)
    } else if crate::text::bytes_eq(token, "config".as_bytes()) {
        Some(RequestKind::Config)
    } else if crate::text::bytes_eq(token, "scratchpad".as_bytes()) {
        Some(RequestKind::Scratchpad)
    } else {
        None
    }
}

/// Whether a fire-and-forget command succeeded: the manager answers with at
/// most one byte, and anything but the BEL sentinel (including no byte at
/// all) is success.
pub fn execute_reply_ok(first: Option<u8>) -> (r: bool)
    ensures
        r == (first != Some(7u8)),
{
    match first {
        Some(b) => b != 7,
        None => true,
    }
}

} // verus!
