//! Reading a capture request from `key=value` launch tokens.
use vstd::prelude::*;

use crate::decimal::{decimal_u64, parse_u64};

verus! {

/// The three keys that a capture request needs.
#[derive(Clone, Copy, Debug, PartialEq, Eq, Structural)]
pub enum ArgKey {
    Duration,
    Output,
    MaxSize,
}

/// Why the launch tokens do not make a capture request.
#[derive(Clone, Copy, Debug, PartialEq, Eq, Structural)]
pub enum UsageError {
    /// No token carries this key.
    Missing(ArgKey),
    /// A `duration=` token holds something other than an unsigned 64-bit decimal.
    InvalidDuration,
}

/// A validated request for one capture session.
#[derive(Clone, Debug, PartialEq, Eq)]
pub struct CaptureRequest {
    /// Seconds to capture for.
    pub duration: u64,
    /// Where the trace facility writes the trace, passed on verbatim.
    pub output: String,
    /// The trace's size bound in MB, passed on verbatim.
    pub max_size: String,
}

/// The mathematical value of a [`CaptureRequest`].
pub struct CaptureRequestView {
    pub duration: u64,
    pub output: Seq<char>,
    pub max_size: Seq<char>,
}

impl View for CaptureRequest {
    type V = CaptureRequestView;

    open spec fn view(&self) -> CaptureRequestView {
        CaptureRequestView { duration: self.duration, output: self.output@, max_size: self.max_size@ }
    }
}

/// What a token starts with when it carries key `k`.
pub open spec fn key_prefix(k: ArgKey) -> Seq<char> {
    match k {
        ArgKey::Duration => "duration="@,
        ArgKey::Output => "output="@,
        ArgKey::MaxSize => "maxsize="@,
    }
}

/// The rest of `tok` after `prefix`, if `tok` starts with `prefix`.
pub open spec fn strip_prefix(tok: Seq<char>, prefix: Seq<char>) -> Option<Seq<char>> {
    if prefix.len() <= tok.len() && tok.subrange(0, prefix.len() as int) == prefix {
        Some(tok.subrange(prefix.len() as int, tok.len() as int))
    } else {
        None
    }
}

/// The value that `tok` gives key `k`, if it carries that key.
pub open spec fn value_for(tok: Seq<char>, k: ArgKey) -> Option<Seq<char>> {
    strip_prefix(tok, key_prefix(k))
}

/// The value of the last token that carries key `k`.
pub open spec fn last_value(toks: Seq<Seq<char>>, k: ArgKey) -> Option<Seq<char>>
    decreases toks.len(),
{
    if toks.len() == 0 {
        None
    } else if value_for(toks.last(), k) is Some {
        value_for(toks.last(), k)
    } else {
        last_value(toks.drop_last(), k)
    }
}

/// Token `i` carries a duration that is not an unsigned 64-bit decimal.
pub open spec fn bad_duration_at(toks: Seq<Seq<char>>, i: int) -> bool {
    &&& value_for(toks[i], ArgKey::Duration) is Some
    &&& decimal_u64(value_for(toks[i], ArgKey::Duration)->0) is None
}

pub open spec fn has_bad_duration(toks: Seq<Seq<char>>) -> bool {
    exists|i: int| 0 <= i < toks.len() && #[trigger] bad_duration_at(toks, i)
}

/// The request that the tokens make: a bad duration anywhere is refused first,
/// then a missing key (duration, output, maxsize in that order); otherwise the
/// last token of each key gives its value and unknown tokens are ignored.
pub open spec fn parse_spec(toks: Seq<Seq<char>>) -> Result<CaptureRequestView, UsageError> {
    if has_bad_duration(toks) {
        Err(UsageError::InvalidDuration)
    } else if last_value(toks, ArgKey::Duration) is None {
        Err(UsageError::Missing(ArgKey::Duration))
    } else if last_value(toks, ArgKey::Output) is None {
        Err(UsageError::Missing(ArgKey::Output))
    } else if last_value(toks, ArgKey::MaxSize) is None {
        Err(UsageError::Missing(ArgKey::MaxSize))
    } else {
        Ok(
            CaptureRequestView {
                duration: decimal_u64(last_value(toks, ArgKey::Duration)->0)->0,
                output: last_value(toks, ArgKey::Output)->0,
                max_size: last_value(toks, ArgKey::MaxSize)->0,
            },
        )
    }
}

/// The text of each launch token.
pub open spec fn tokens_view(args: Seq<String>) -> Seq<Seq<char>> {
    args.map_values(|a: String| a@)
}

/// The result of [`parse_args`] as a mathematical value.
pub open spec fn parse_result_view(r: Result<CaptureRequest, UsageError>) -> Result<
    CaptureRequestView,
    UsageError,
> {
    match r {
        Ok(req) => Ok(req@),
        Err(e) => Err(e),
    }
}

/// No token carries two keys: the prefixes differ in their first character.
pub proof fn lemma_keys_exclusive(tok: Seq<char>, a: ArgKey, b: ArgKey)
    requires
        a != b,
        value_for(tok, a) is Some,
    ensures
        value_for(tok, b) is None,
{
    reveal_strlit("duration=");
    reveal_strlit("output=");
    reveal_strlit("maxsize=");
    let pa = key_prefix(a);
    let pb = key_prefix(b);
    assert(tok.subrange(0, pa.len() as int)[0] == pa[0]);
    if value_for(tok, b) is Some {
        assert(tok.subrange(0, pb.len() as int)[0] == pb[0]);
    }
}

/// What a usage error says about the tokens.
pub open spec fn usage_error_text(e: UsageError) -> Seq<char> {
    match e {
        UsageError::Missing(k) => "missing argument "@ + key_prefix(k),
        UsageError::InvalidDuration => "duration is not a non-negative integer"@,
    }
}

impl UsageError {
    /// A one-line description of the error.
    pub fn describe(&self) -> (r: String)
        ensures
            r@ == usage_error_text(*self),
    {
        match self {
            UsageError::Missing(k) => {
                let mut r = String::from_str("missing argument ");
                r.append(key_text(*k));
                r
            },
            UsageError::InvalidDuration => String::from_str("duration is not a non-negative integer"),
        }
    }
}

/// The usage line, naming the three required keys, for program name `program`.
pub fn usage_message(program: &str) -> (r: String)
    ensures
        r@ == "Usage: "@ + program@
            + " duration=<duration in seconds> output=<path> maxsize=<maximum size in MB>"@,
{
    let mut r = String::from_str("Usage: ");
    r.append(program);
    r.append(" duration=<duration in seconds> output=<path> maxsize=<maximum size in MB>");
    r
}

/// The token prefix of key `k`.
pub fn key_text(k: ArgKey) -> (r: &'static str)
    ensures
        r@ == key_prefix(k),
{
    match k {
        ArgKey::Duration => "duration=",
        ArgKey::Output => "output=",
        ArgKey::MaxSize => "maxsize=",
    }
}

/// The rest of `tok` after `prefix`, if `tok` starts with `prefix`.
pub fn split_prefix(tok: &str, prefix: &str) -> (r: Option<String>)
    ensures
        r is Some == strip_prefix(tok@, prefix@) is Some,
        r is Some ==> r->0@ == strip_prefix(tok@, prefix@)->0,
{
    let tlen = tok.unicode_len();
    let plen = prefix.unicode_len();
    if plen > tlen {
        return None;
    }
    let mut i: usize = 0;
    while i < plen
        invariant
            i <= plen <= tlen,
            tlen == tok@.len(),
            plen == prefix@.len(),
            tok@.subrange(0, i as int) == prefix@.subrange(0, i as int),
        decreases plen - i,
    {
        if tok.get_char(i) != prefix.get_char(i) {
            assert(tok@.subrange(0, plen as int)[i as int] != prefix@[i as int]);
            return None;
        }
        assert(tok@.subrange(0, i + 1) =~= prefix@.subrange(0, i + 1));
        i = i + 1;
    }
    assert(prefix@.subrange(0, plen as int) =~= prefix@);
    Some(String::from_str(tok.substring_char(plen, tlen)))
}

/// Reads a capture request from the launch tokens, program name excluded.
pub fn parse_args(args: &Vec<String>) -> (r: Result<CaptureRequest, UsageError>)
    ensures
        parse_result_view(r) == parse_spec(tokens_view(args@)),
{
    let ghost toks = tokens_view(args@);
    let mut duration: Option<u64> = None;
    let mut output: Option<String> = None;
    let mut max_size: Option<String> = None;
    let mut i: usize = 0;
    while i < args.len()
        invariant
            i <= args@.len(),
            toks == tokens_view(args@),
            forall|j: int| 0 <= j < i ==> !#[trigger] bad_duration_at(toks, j),
            last_value(toks.subrange(0, i as int), ArgKey::Duration) is Some == duration is Some,
            duration is Some ==> decimal_u64(
                last_value(toks.subrange(0, i as int), ArgKey::Duration)->0,
            ) == duration,
            last_value(toks.subrange(0, i as int), ArgKey::Output) is Some == output is Some,
            output is Some ==> last_value(toks.subrange(0, i as int), ArgKey::Output)->0
                == output->0@,
            last_value(toks.subrange(0, i as int), ArgKey::MaxSize) is Some == max_size is Some,
            max_size is Some ==> last_value(toks.subrange(0, i as int), ArgKey::MaxSize)->0
                == max_size->0@,
        decreases args@.len() - i,
    {
        let tok = args[i].as_str();
        let ghost prev = toks.subrange(0, i as int);
        let ghost next = toks.subrange(0, i + 1);
        assert(next.drop_last() =~= prev);
        assert(next.last() == tok@);
        if let Some(v) = split_prefix(tok, key_text(ArgKey::Duration)) {
            proof {
                lemma_keys_exclusive(tok@, ArgKey::Duration, ArgKey::Output);
                lemma_keys_exclusive(tok@, ArgKey::Duration, ArgKey::MaxSize);
            }
            match parse_u64(v.as_str()) {
                Some(d) => {
                    duration = Some(d);
                },
                None => {
                    assert(bad_duration_at(toks, i as int));
                    return Err(UsageError::InvalidDuration);
                },
            }
        } else if let Some(v) = split_prefix(tok, key_text(ArgKey::Output)) {
            proof {
                lemma_keys_exclusive(tok@, ArgKey::Output, ArgKey::MaxSize);
            }
            output = Some(v);
        } else if let Some(v) = split_prefix(tok, key_text(ArgKey::MaxSize)) {
            max_size = Some(v);
        }
        i = i + 1;
    }
    assert(toks.subrange(0, args@.len() as int) =~= toks);
    match (duration, output, max_size) {
        (None, _, _) => Err(UsageError::Missing(ArgKey::Duration)),
        (Some(_), None, _) => Err(UsageError::Missing(ArgKey::Output)),
        (Some(_), Some(_), None) => Err(UsageError::Missing(ArgKey::MaxSize)),
        (Some(d), Some(o), Some(m)) => Ok(CaptureRequest { duration: d, output: o, max_size: m }),
    }
}

} // verus!
