//! The stream reply decoder.
//!
//! The service answers a message with a stream of newline-separated records.
//! Only the last record carries the complete answer: the decoder takes the
//! last line that holds anything but whitespace, removes the event-stream
//! marker in front of it, and leaves the rest to the JSON parser.

use vstd::prelude::*;
use vstd::utf8::{decode_utf8, encode_utf8, valid_utf8};

use crate::error::ClientError;
use crate::json::{json_parse, parse_json, Json, JsonTree};
use crate::text::{chars_of, trim, trimmed, utf8_text};

verus! {

/// The number of characters of the event-stream marker that precedes the
/// payload of a record.
pub const MARKER_LEN: usize = 6;

/// The index at which the last line of `s` starts: just behind the last line
/// feed, or 0 where `s` holds none.
pub open spec fn last_line_start(s: Seq<char>) -> nat
    decreases s.len(),
{
    if s.len() == 0 {
        0
    } else if s.last() == '\n' {
        s.len()
    } else {
        last_line_start(s.drop_last())
    }
}

/// What follows the last line feed of `s`; all of `s` where it holds none.
pub open spec fn last_line(s: Seq<char>) -> Seq<char> {
    s.skip(last_line_start(s) as int)
}

/// The terminal record of a streamed reply: the last line of the body once
/// surrounding whitespace is removed. A body of whitespace alone has none.
pub open spec fn terminal_record_of(body: Seq<char>) -> Option<Seq<char>> {
    let t = trimmed(body);
    if t.len() == 0 {
        None
    } else {
        Some(last_line(t))
    }
}

/// The payload of a streamed reply: its terminal record without the marker.
/// A record shorter than the marker has none.
pub open spec fn payload_of(body: Seq<char>) -> Option<Seq<char>> {
    match terminal_record_of(body) {
        Some(line) => if line.len() >= MARKER_LEN {
            Some(line.skip(MARKER_LEN as int))
        } else {
            None
        },
        None => None,
    }
}

/// The answer that a streamed reply carries: the JSON value that the payload
/// of its terminal record spells. A body that is not UTF-8, has no payload, or
/// whose payload is not JSON carries none.
pub open spec fn reply_of(body: Seq<u8>) -> Option<JsonTree> {
    if valid_utf8(body) {
        match payload_of(decode_utf8(body)) {
            Some(rest) => json_parse(encode_utf8(rest)),
            None => None,
        }
    } else {
        None
    }
}

/// The start of the last line lies within the text, directly behind a line
/// feed unless it is 0, and no line feed follows it.
pub proof fn lemma_last_line_start(s: Seq<char>)
    ensures
        last_line_start(s) <= s.len(),
        last_line_start(s) > 0 ==> s[last_line_start(s) - 1] == '\n',
        forall|i: int| last_line_start(s) <= i < s.len() ==> s[i] != '\n',
    decreases s.len(),
{
    if s.len() > 0 && s.last() != '\n' {
        let t = s.drop_last();
        lemma_last_line_start(t);
        assert forall|i: int| last_line_start(s) <= i < s.len() implies s[i] != '\n' by {
            if i < t.len() {
                assert(t[i] == s[i]);
            }
        }
    }
}

/// Any index directly behind a line feed (or 0) from which no line feed
/// follows is the start of the last line.
pub proof fn lemma_last_line_start_unique(s: Seq<char>, k: int)
    requires
        0 <= k <= s.len(),
        k > 0 ==> s[k - 1] == '\n',
        forall|i: int| k <= i < s.len() ==> s[i] != '\n',
    ensures
        last_line_start(s) == k,
{
    lemma_last_line_start(s);
    let j = last_line_start(s) as int;
    if j < k {
        assert(s[k - 1] == '\n');
    } else if k < j {
        assert(s[j - 1] == '\n');
    }
}

/// A terminal record is never empty, holds no line feed, and neither starts
/// the body with whitespace nor ends with it: it is the last line of the body
/// that holds more than whitespace, up to its last such character.
pub proof fn lemma_terminal_record_is_last_nonblank_line(body: Seq<char>)
    requires
        terminal_record_of(body) is Some,
    ensures
        terminal_record_of(body)->0.len() > 0,
        forall|i: int|
            0 <= i < terminal_record_of(body)->0.len() ==> terminal_record_of(body)->0[i] != '\n',
        !crate::text::is_whitespace(terminal_record_of(body)->0.last()),
{
    let t = trimmed(body);
    crate::text::lemma_trimmed_ends(body);
    lemma_last_line_start(t);
    let k = last_line_start(t) as int;
    if k == t.len() {
        assert(t[k - 1] == '\n');
        assert(crate::text::is_whitespace(t.last()));
    }
    assert(last_line(t).last() == t.last());
}

/// A body without a line feed is one record: its terminal record is the whole
/// body without the surrounding whitespace.
pub proof fn lemma_single_line_is_terminal(body: Seq<char>)
    requires
        forall|i: int| 0 <= i < body.len() ==> body[i] != '\n',
        trimmed(body).len() > 0,
    ensures
        terminal_record_of(body) == Some(trimmed(body)),
{
    let t = trimmed(body);
    crate::text::lemma_trimmed_is_slice(body);
    lemma_last_line_start_unique(t, 0);
    assert(t.skip(0) == t);
}

/// Earlier records do not matter: of a body that neither starts nor ends with
/// whitespace, the terminal record is what follows its last line feed.
pub proof fn lemma_earlier_records_are_discarded(earlier: Seq<char>, last: Seq<char>)
    requires
        earlier.len() > 0,
        !crate::text::is_whitespace(earlier.first()),
        last.len() > 0,
        !crate::text::is_whitespace(last.last()),
        forall|i: int| 0 <= i < last.len() ==> last[i] != '\n',
    ensures
        terminal_record_of(earlier + seq!['\n'] + last) == Some(last),
{
    let body = earlier + seq!['\n'] + last;
    assert(body.first() == earlier.first());
    assert(body.last() == last.last());
    assert(crate::text::trim_start(body) == body);
    assert(crate::text::trim_end(body) == body);
    let k = earlier.len() + 1;
    assert forall|i: int| k <= i < body.len() implies body[i] != '\n' by {
        assert(body[i] == last[i - k]);
    }
    lemma_last_line_start_unique(body, k as int);
    assert(body.skip(k as int) == last);
}

/// A body that holds nothing but whitespace, the empty body among them, has no
/// payload.
pub proof fn lemma_blank_body_has_no_payload(body: Seq<char>)
    requires
        forall|i: int| 0 <= i < body.len() ==> crate::text::is_whitespace(body[i]),
    ensures
        terminal_record_of(body) is None,
        payload_of(body) is None,
{
    crate::text::lemma_trimmed_is_slice(body);
    crate::text::lemma_trimmed_ends(body);
}

/// The terminal record of a streamed reply, where it has one.
pub fn terminal_record(body: &str) -> (line: Option<&str>)
    ensures
        line is Some <==> terminal_record_of(body@) is Some,
        line is Some ==> line->0@ == terminal_record_of(body@)->0,
{
    let t = trim(body);
    let chars = chars_of(t);
    let n = chars.len();
    if n == 0 {
        return None;
    }
    let mut k: usize = n;
    while k > 0 && chars[k - 1] != '\n'
        invariant
            k <= n,
            n == chars@.len(),
            forall|i: int| k <= i < n ==> chars@[i] != '\n',
        decreases k,
    {
        k = k - 1;
    }
    proof {
        lemma_last_line_start_unique(chars@, k as int);
    }
    Some(t.substring_char(k, n))
}

/// The payload of a streamed reply: what follows the marker in its terminal
/// record.
pub fn payload(body: &str) -> (rest: Option<&str>)
    ensures
        rest is Some <==> payload_of(body@) is Some,
        rest is Some ==> rest->0@ == payload_of(body@)->0,
{
    match terminal_record(body) {
        Some(line) => {
            let n = line.unicode_len();
            if n >= MARKER_LEN {
                Some(line.substring_char(MARKER_LEN, n))
            } else {
                None
            }
        },
        None => None,
    }
}

/// Decodes a streamed reply into the answer it carries. Every way in which
/// the body can fail to carry one is a [`ClientError::Format`].
pub fn decode_reply(body: &[u8]) -> (answer: Result<Json, ClientError>)
    ensures
        answer is Ok <==> reply_of(body@) is Some,
        answer is Ok ==> answer->Ok_0@ == reply_of(body@)->0,
        answer is Err ==> answer->Err_0 == ClientError::Format,
{
    let text = match utf8_text(body) {
        Some(text) => text,
        None => {
            return Err(ClientError::Format);
        },
    };
    let rest = match payload(text) {
        Some(rest) => rest,
        None => {
            return Err(ClientError::Format);
        },
    };
    match parse_json(rest.as_bytes()) {
        Some(json) => Ok(json),
        None => Err(ClientError::Format),
    }
}

} // verus!
