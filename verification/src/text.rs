//! Text carried in byte runs: where a run ends, and what it decodes to.

use crate::errors::{ParseError, ParseFault};
use vstd::prelude::*;
use vstd::string::StringExecFns;
use vstd::utf8::{decode_utf8, valid_utf8};

verus! {

/// The bytes in front of the first zero byte; all of them when none is zero.
pub open spec fn before_zero(bytes: Seq<u8>) -> Seq<u8>
    decreases bytes.len(),
{
    if bytes.len() == 0 || bytes[0] == 0 {
        Seq::empty()
    } else {
        seq![bytes[0]] + before_zero(bytes.drop_first())
    }
}

/// `before_zero` is the prefix that stops at the first zero byte: if no byte
/// in front of `end` is zero, and `end` is the end of the run or holds a
/// zero, the prefix is the first `end` bytes.
pub proof fn lemma_before_zero_is_prefix(bytes: Seq<u8>, end: int)
    requires
        0 <= end <= bytes.len(),
        forall|i: int| 0 <= i < end ==> bytes[i] != 0,
        end == bytes.len() || bytes[end] == 0,
    ensures
        before_zero(bytes) == bytes.take(end),
    decreases bytes.len(),
{
    if end == 0 {
        assert(before_zero(bytes) =~= bytes.take(0));
    } else {
        let tail = bytes.drop_first();
        assert forall|i: int| 0 <= i < end - 1 implies tail[i] != 0 by {
            assert(tail[i] == bytes[i + 1]);
        }
        lemma_before_zero_is_prefix(tail, end - 1);
        assert(bytes.take(end) =~= seq![bytes[0]] + tail.take(end - 1));
    }
}

/// `before_zero` holds no zero byte, is a prefix of the run, and falls short
/// of the whole run exactly when the run holds a zero byte, which then
/// follows the prefix directly.
pub proof fn lemma_before_zero_stops_at_zero(bytes: Seq<u8>)
    ensures
        before_zero(bytes).len() <= bytes.len(),
        before_zero(bytes) == bytes.take(before_zero(bytes).len() as int),
        !before_zero(bytes).contains(0u8),
        bytes.contains(0u8) <==> before_zero(bytes).len() < bytes.len(),
        before_zero(bytes).len() < bytes.len() ==> bytes[before_zero(bytes).len() as int] == 0,
    decreases bytes.len(),
{
    let run = before_zero(bytes);
    if bytes.len() == 0 {
        assert(run =~= bytes.take(0));
    } else if bytes[0] == 0 {
        assert(run =~= bytes.take(0));
    } else {
        let tail = bytes.drop_first();
        let rest = before_zero(tail);
        lemma_before_zero_stops_at_zero(tail);
        assert(run =~= bytes.take(run.len() as int)) by {
            assert(rest == tail.take(rest.len() as int));
        }
        assert(!run.contains(0u8)) by {
            if run.contains(0u8) {
                let i = choose|i: int| 0 <= i < run.len() && run[i] == 0u8;
                assert(rest[i - 1] == 0u8);
            }
        }
        if bytes.contains(0u8) {
            let i = choose|i: int| 0 <= i < bytes.len() && bytes[i] == 0u8;
            assert(tail[i - 1] == 0u8);
        }
        if tail.contains(0u8) {
            let i = choose|i: int| 0 <= i < tail.len() && tail[i] == 0u8;
            assert(bytes[i + 1] == 0u8);
        }
        if rest.len() < tail.len() {
            assert(tail[rest.len() as int] == bytes[rest.len() as int + 1]);
        }
    }
}

/// The text with which std describes why `bytes` are not valid UTF-8. It is
/// left unspecified for valid input.
pub uninterp spec fn utf8_fault(bytes: Seq<u8>) -> Seq<char>;

/// What a byte run yields as text: its characters when it is valid UTF-8, and
/// otherwise `InvalidData` whose message is `context` followed by the
/// description of the fault.
pub open spec fn text_outcome(run: Seq<u8>, context: Seq<char>) -> Result<Seq<char>, ParseFault> {
    if valid_utf8(run) {
        Ok(decode_utf8(run))
    } else {
        Err(ParseFault::InvalidData(context + utf8_fault(run)))
    }
}

/// The mathematical value of the result of a text read.
pub open spec fn text_result_view(res: Result<String, ParseError>) -> Result<
    Seq<char>,
    ParseFault,
> {
    match res {
        Ok(text) => Ok(text@),
        Err(error) => Err(error@),
    }
}

/// Checks a byte run with std's `String::from_utf8`. Trusted: the call
/// succeeds exactly on valid UTF-8 and then returns the decoded characters;
/// otherwise the error, shown as text, is `utf8_fault` of the run.
#[verifier::external_body]
pub(crate) fn utf8_checked(bytes: Vec<u8>) -> (res: Result<String, String>)
    ensures
        match res {
            Ok(text) => valid_utf8(bytes@) && text@ == decode_utf8(bytes@),
            Err(fault) => !valid_utf8(bytes@) && fault@ == utf8_fault(bytes@),
        },
{
    match String::from_utf8(bytes) {
        Ok(text) => Ok(text),
        Err(error) => Err(format!("{}", error)),
    }
}

/// Turns the result of a UTF-8 check into the result of a text read: valid
/// text passes through, and a fault becomes `InvalidData` whose message is
/// `context` followed by the fault.
pub fn text_or_invalid(checked: Result<String, String>, context: &str) -> (res: Result<
    String,
    ParseError,
>)
    ensures
        match checked {
            Ok(text) => res == Ok::<String, ParseError>(text),
            Err(fault) => res matches Err(error) && error@ == ParseFault::InvalidData(
                context@ + fault@,
            ),
        },
{
    match checked {
        Ok(text) => Ok(text),
        Err(fault) => {
            let message = String::from_str(context).concat(fault.as_str());
            Err(ParseError::InvalidData(message))
        },
    }
}

/// Decodes a byte run as UTF-8 text.
pub fn decode_text(run: Vec<u8>, context: &str) -> (res: Result<String, ParseError>)
    ensures
        text_result_view(res) == text_outcome(run@, context@),
{
    text_or_invalid(utf8_checked(run), context)
}

} // verus!
