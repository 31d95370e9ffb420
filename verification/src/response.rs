//! Splitting a reply line into its class and its value.

use vstd::prelude::*;
use vstd::slice::slice_subrange;
use vstd::utf8::{decode_utf8, valid_utf8};

use crate::command::{lemma_class_table, reveal_verbs, CommandType};
use crate::error::{
    outcome, pjlink_error, protocol_error, spec_pjlink_error, PjlinkError, PjlinkErrorView,
    ProtocolError,
};
use crate::text::starts_with;

verus! {

/// A reply that carries a value: its class and the text after the separator.
#[derive(Debug, PartialEq, Eq)]
pub struct PjlinkResponse {
    pub action: CommandType,
    pub value: String,
}

/// Mathematical model of a [`PjlinkResponse`].
pub struct PjlinkResponseView {
    pub action: CommandType,
    pub value: Seq<char>,
}

impl View for PjlinkResponse {
    type V = PjlinkResponseView;

    open spec fn view(&self) -> PjlinkResponseView {
        PjlinkResponseView { action: self.action, value: self.value@ }
    }
}

/// Whether `c` separates the class of a reply from its value.
pub open spec fn is_separator(c: char) -> bool {
    c == '=' || c == ' '
}

/// Number of characters of `raw` that stand before its first separator; the
/// length of `raw` where it holds none.
pub open spec fn leading_len(raw: Seq<char>) -> int
    decreases raw.len(),
{
    if raw.len() == 0 || is_separator(raw[0]) {
        0
    } else {
        1 + leading_len(raw.skip(1))
    }
}

/// Position at which a reply is split: that of its first separator. A reply
/// without a separator is split at its first character.
pub open spec fn spec_separator(raw: Seq<char>) -> int {
    let i = leading_len(raw);
    if i < raw.len() {
        i
    } else {
        0
    }
}

/// Whether a reply begins with the framing marker.
pub open spec fn is_framed(raw: Seq<char>) -> bool {
    raw.len() > 0 && raw[0] == '%'
}

/// The class of a reply. A framed reply has the class of its token, the text
/// between the two-character framing prefix and the separator; `None` where
/// there is no such text or the class table does not hold it. Any other
/// reply is generic.
pub open spec fn spec_class(raw: Seq<char>) -> Option<CommandType> {
    let sep = spec_separator(raw);
    if !is_framed(raw) {
        Some(CommandType::Generic)
    } else if sep >= 2 {
        CommandType::spec_from_verb(raw.subrange(2, sep))
    } else {
        None
    }
}

/// The value of a reply: everything after the position at which it is split.
pub open spec fn spec_value(raw: Seq<char>) -> Seq<char> {
    if raw.len() == 0 {
        raw
    } else {
        raw.skip(spec_separator(raw) + 1)
    }
}

/// Whether a value is a device error code: four characters, the first three
/// of them `ERR`.
pub open spec fn is_error_code(value: Seq<char>) -> bool {
    value.len() == 4 && value.subrange(0, 3) == "ERR"@
}

/// What a reply line means: a protocol error where its class is unknown, the
/// classified device error where its value is an error code, and otherwise
/// its class and value.
pub open spec fn spec_parse_response(raw: Seq<char>) -> Result<PjlinkResponseView, PjlinkErrorView> {
    match spec_class(raw) {
        None => Err(protocol_error(ProtocolError::UnknownClass)),
        Some(action) => {
            let value = spec_value(raw);
            if is_error_code(value) {
                Err(PjlinkErrorView::Device { kind: spec_pjlink_error(value), code: value })
            } else {
                Ok(PjlinkResponseView { action, value })
            }
        },
    }
}

/// The first `k` characters of `raw` stand before its first separator where
/// none of them is a separator and `raw` ends or has a separator after them.
pub proof fn lemma_leading_len_is(raw: Seq<char>, k: int)
    requires
        0 <= k <= raw.len(),
        forall|j: int| 0 <= j < k ==> !is_separator(#[trigger] raw[j]),
        k == raw.len() || is_separator(raw[k]),
    ensures
        leading_len(raw) == k,
    decreases k,
{
    if k > 0 {
        let rest = raw.skip(1);
        assert forall|j: int| 0 <= j < k - 1 implies !is_separator(#[trigger] rest[j]) by {
            assert(rest[j] == raw[j + 1]);
        }
        lemma_leading_len_is(rest, k - 1);
    }
}

fn find_separator(response: &str, len: usize) -> (i: usize)
    requires
        len == response@.len(),
    ensures
        i == leading_len(response@),
        i <= len,
{
    let mut i: usize = 0;
    loop
        invariant
            i <= len,
            len == response@.len(),
            forall|j: int| 0 <= j < i ==> !is_separator(#[trigger] response@[j]),
        ensures
            i <= len,
            forall|j: int| 0 <= j < i ==> !is_separator(#[trigger] response@[j]),
            i == len || is_separator(response@[i as int]),
        decreases len - i,
    {
        if i == len {
            break;
        }
        let c = response.get_char(i);
        if c == '=' || c == ' ' {
            break;
        }
        i += 1;
    }
    proof {
        lemma_leading_len_is(response@, i as int);
    }
    i
}

/// Parses a reply line whose terminator has been removed.
///
/// The line is split at its first `=` or space. A line that begins with `%`
/// is framed: the text between its two-character prefix and the separator
/// must be a verb of the class table. Any other line is a generic reply. A
/// value of four characters that begins with `ERR` is a device error code
/// and comes back as the classified error instead of a response.
pub fn parse_response(response: &str) -> (r: Result<PjlinkResponse, PjlinkError>)
    ensures
        outcome(r) == spec_parse_response(response@),
{
    let len = response.unicode_len();
    let found = find_separator(response, len);
    let sep = if found < len {
        found
    } else {
        0
    };
    let framed = len > 0 && response.get_char(0) == '%';
    let action = if !framed {
        CommandType::Generic
    } else if sep >= 2 {
        match CommandType::from_verb(response.substring_char(2, sep)) {
            Some(class) => class,
            None => {
                return Err(PjlinkError::Protocol(ProtocolError::UnknownClass));
            },
        }
    } else {
        return Err(PjlinkError::Protocol(ProtocolError::UnknownClass));
    };
    let value = if len == 0 {
        response
    } else {
        response.substring_char(sep + 1, len)
    };
    assert(value@ =~= spec_value(response@));
    if value.unicode_len() == 4 && starts_with(value, "ERR") {
        proof {
            reveal_strlit("ERR");
        }
        return Err(PjlinkError::Device { kind: pjlink_error(value), code: value.to_owned() });
    }
    proof {
        reveal_strlit("ERR");
    }
    Ok(PjlinkResponse { action, value: value.to_owned() })
}

/// The text of a framed reply: the prefix `%1`, the verb, a separator, the
/// value.
pub open spec fn spec_reply(verb: Seq<char>, separator: char, value: Seq<char>) -> Seq<char> {
    seq!['%', '1'] + verb + seq![separator] + value
}

/// Renders the reply of the given class that carries `value`, with `=` as
/// its separator. A generic reply has no verb and so no rendering.
pub fn encode_reply(class: CommandType, value: &str) -> (reply: Option<String>)
    ensures
        match class.spec_verb() {
            Some(verb) => reply matches Some(text) && text@ == spec_reply(verb, '=', value@),
            None => reply is None,
        },
{
    match class.verb() {
        None => None,
        Some(verb) => {
            proof {
                reveal_strlit("%1");
                reveal_strlit("=");
            }
            let mut text = String::new();
            text.append("%1");
            text.append(verb);
            text.append("=");
            text.append(value);
            assert(text@ =~= spec_reply(verb@, '=', value@));
            Some(text)
        },
    }
}

/// A framed reply is split behind its verb, whichever separator it uses and
/// whatever its value holds.
pub proof fn lemma_reply_parts(class: CommandType, separator: char, value: Seq<char>)
    requires
        class != CommandType::Generic,
        is_separator(separator),
    ensures
        spec_class(spec_reply(class.spec_verb()->0, separator, value)) == Some(class),
        spec_value(spec_reply(class.spec_verb()->0, separator, value)) == value,
{
    reveal_verbs();
    lemma_class_table(class, Seq::empty());
    let verb = class.spec_verb()->0;
    let raw = spec_reply(verb, separator, value);
    assert(verb.len() == 4);
    assert(raw.len() == 7 + value.len());
    assert(raw[0] == '%' && raw[1] == '1');
    assert(raw[2] == verb[0] && raw[3] == verb[1] && raw[4] == verb[2] && raw[5] == verb[3]);
    assert(raw[6] == separator);
    lemma_leading_len_is(raw, 6);
    assert(raw.subrange(2, 6) =~= verb);
    assert(raw.skip(7) =~= value);
}

/// Parsing the rendering of a reply recovers its class and its value, for
/// every class of the class table and every value that is not an error code.
pub proof fn lemma_parse_reply(class: CommandType, separator: char, value: Seq<char>)
    requires
        class != CommandType::Generic,
        is_separator(separator),
        !is_error_code(value),
    ensures
        spec_parse_response(spec_reply(class.spec_verb()->0, separator, value)) == Ok::<
            PjlinkResponseView,
            PjlinkErrorView,
        >(PjlinkResponseView { action: class, value }),
{
    lemma_reply_parts(class, separator, value);
}

/// A reply whose value is an error code parses to the device error that the
/// code stands for, whatever the class of the reply.
pub proof fn lemma_parse_error_reply(class: CommandType, separator: char, code: Seq<char>)
    requires
        class != CommandType::Generic,
        is_separator(separator),
        is_error_code(code),
    ensures
        spec_parse_response(spec_reply(class.spec_verb()->0, separator, code)) == Err::<
            PjlinkResponseView,
            PjlinkErrorView,
        >(PjlinkErrorView::Device { kind: spec_pjlink_error(code), code }),
{
    lemma_reply_parts(class, separator, code);
}

/// The text that `String::from_utf8_lossy` makes of `bytes`.
pub uninterp spec fn utf8_lossy(bytes: Seq<u8>) -> Seq<char>;

/// Calls `String::from_utf8_lossy`. The contract names the result, which is
/// a function of the bytes alone, and states the one fact that the
/// documentation of that function gives in a line: bytes that are valid
/// UTF-8 come back as the text that they encode.
#[verifier::external_body]
fn decode_lossy(bytes: &[u8]) -> (text: String)
    ensures
        text@ == utf8_lossy(bytes@),
        valid_utf8(bytes@) ==> text@ == decode_utf8(bytes@),
{
    String::from_utf8_lossy(bytes).into_owned()
}

/// The reply line in the bytes that were read from a connection: the text
/// of all of them but the last, which is the terminator.
pub open spec fn spec_response_text(received: Seq<u8>) -> Seq<char> {
    if received.len() == 0 {
        utf8_lossy(received)
    } else {
        utf8_lossy(received.drop_last())
    }
}

/// Strips the terminator from the bytes that were read from a connection and
/// decodes the rest. Nothing read gives the empty line.
pub fn response_text(received: &[u8]) -> (text: String)
    ensures
        text@ == spec_response_text(received@),
        received@.len() > 0 && valid_utf8(received@.drop_last()) ==> text@ == decode_utf8(
            received@.drop_last(),
        ),
{
    if received.len() == 0 {
        decode_lossy(received)
    } else {
        decode_lossy(slice_subrange(received, 0, received.len() - 1))
    }
}

} // verus!
