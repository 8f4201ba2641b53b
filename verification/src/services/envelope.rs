//! The envelope: the unit of protected data at rest.
//!
//! An envelope is a nonce and a ciphertext, each as base64 text, written as
//! the text record `{"nonce":"<nonce>","ciphertext":"<ciphertext>"}`. The
//! record names its fields, so that a reader tells them apart by name and
//! not by position. [`Envelope::parse`] accepts exactly the records that
//! [`Envelope::to_text`] writes.

use vstd::prelude::*;
use vstd::string::*;
use vstd::utf8::{is_ascii_chars, is_ascii_chars_encode_utf8};

verus! {

/// One encrypted field: the nonce and the ciphertext, both as base64 text.
#[derive(Debug)]
pub struct Envelope {
    pub nonce: String,
    pub ciphertext: String,
}

/// A character that may stand in a field of the record: printable ASCII,
/// but neither the quote that ends a field nor the backslash.
pub open spec fn is_field_char(c: char) -> bool {
    ' ' <= c <= '~' && c != '"' && c != '\\'
}

/// A text that can be a field of the record.
pub open spec fn is_field_text(text: Seq<char>) -> bool {
    forall|i: int| 0 <= i < text.len() ==> is_field_char(#[trigger] text[i])
}

/// What opens the record, up to the nonce.
pub open spec fn record_head() -> Seq<char> {
    "{\"nonce\":\""@
}

/// What stands between the nonce and the ciphertext.
pub open spec fn record_middle() -> Seq<char> {
    "\",\"ciphertext\":\""@
}

/// What closes the record.
pub open spec fn record_tail() -> Seq<char> {
    "\"}"@
}

/// The text record of an envelope with the given fields.
pub open spec fn envelope_text(nonce: Seq<char>, ciphertext: Seq<char>) -> Seq<char> {
    record_head() + nonce + record_middle() + ciphertext + record_tail()
}

/// Whether `text` is the record of some envelope.
pub open spec fn is_envelope_text(text: Seq<char>) -> bool {
    exists|nonce: Seq<char>, ciphertext: Seq<char>|
        is_field_text(nonce) && is_field_text(ciphertext) && text == #[trigger] envelope_text(
            nonce,
            ciphertext,
        )
}

/// The lengths of the record's fixed parts, and the quote that starts the
/// middle and the tail.
proof fn lemma_fixed_parts()
    ensures
        record_head().len() == 10,
        record_middle().len() == 16,
        record_tail().len() == 2,
        record_middle()[0] == '"',
        record_tail()[0] == '"',
        is_ascii_chars(record_head()),
        is_ascii_chars(record_middle()),
        is_ascii_chars(record_tail()),
{
    reveal_strlit("{\"nonce\":\"");
    reveal_strlit("\",\"ciphertext\":\"");
    reveal_strlit("\"}");
}

/// Where the parts of a record lie within it.
proof fn lemma_record_layout(nonce: Seq<char>, ciphertext: Seq<char>)
    ensures
        ({
            let text = envelope_text(nonce, ciphertext);
            let n = nonce.len() as int;
            let c = ciphertext.len() as int;
            &&& text.len() == 28 + n + c
            &&& text.subrange(0, 10) == record_head()
            &&& text.subrange(10, 10 + n) == nonce
            &&& text.subrange(10 + n, 26 + n) == record_middle()
            &&& text.subrange(26 + n, 26 + n + c) == ciphertext
            &&& text.subrange(26 + n + c, 28 + n + c) == record_tail()
        }),
{
    lemma_fixed_parts();
    let text = envelope_text(nonce, ciphertext);
    let n = nonce.len() as int;
    let c = ciphertext.len() as int;
    assert(text.subrange(0, 10) =~= record_head());
    assert(text.subrange(10, 10 + n) =~= nonce);
    assert(text.subrange(10 + n, 26 + n) =~= record_middle());
    assert(text.subrange(26 + n, 26 + n + c) =~= ciphertext);
    assert(text.subrange(26 + n + c, 28 + n + c) =~= record_tail());
}

/// A record determines its fields: two envelopes with the same record have
/// the same nonce and the same ciphertext.
pub proof fn lemma_envelope_text_injective(
    nonce: Seq<char>,
    ciphertext: Seq<char>,
    other_nonce: Seq<char>,
    other_ciphertext: Seq<char>,
)
    requires
        is_field_text(nonce),
        is_field_text(other_nonce),
        envelope_text(nonce, ciphertext) == envelope_text(other_nonce, other_ciphertext),
    ensures
        nonce == other_nonce,
        ciphertext == other_ciphertext,
{
    lemma_fixed_parts();
    lemma_record_layout(nonce, ciphertext);
    lemma_record_layout(other_nonce, other_ciphertext);
    let text = envelope_text(nonce, ciphertext);
    let n = nonce.len() as int;
    let m = other_nonce.len() as int;
    if n < m {
        assert(text[10 + n] == text.subrange(10 + n, 26 + n)[0]);
        assert(text[10 + n] == text.subrange(10, 10 + m)[n]);
        assert(is_field_char(other_nonce[n]));
    }
    if m < n {
        assert(text[10 + m] == text.subrange(10 + m, 26 + m)[0]);
        assert(text[10 + m] == text.subrange(10, 10 + n)[m]);
        assert(is_field_char(nonce[m]));
    }
}

/// The number of characters of a text that is all ASCII.
fn ascii_len(text: &str) -> (len: usize)
    requires
        text.is_ascii(),
    ensures
        len == text@.len(),
{
    proof {
        is_ascii_chars_encode_utf8(text@);
    }
    text.as_bytes().len()
}

/// Whether `pattern` stands in `text` at position `at`.
fn matches_at(text: &str, at: usize, pattern: &str) -> (found: bool)
    requires
        text.is_ascii(),
        pattern.is_ascii(),
        at <= text@.len(),
    ensures
        found <==> at + pattern@.len() <= text@.len() && text@.subrange(
            at as int,
            at + pattern@.len(),
        ) == pattern@,
{
    let text_len = ascii_len(text);
    let pattern_len = ascii_len(pattern);
    if pattern_len > text_len - at {
        return false;
    }
    let mut i: usize = 0;
    while i < pattern_len
        invariant
            text.is_ascii(),
            pattern.is_ascii(),
            text_len == text@.len(),
            pattern_len == pattern@.len(),
            at + pattern_len <= text_len,
            i <= pattern_len,
            forall|j: int| 0 <= j < i ==> text@[at + j] == pattern@[j],
        decreases pattern_len - i,
    {
        if text.get_ascii(at + i) != pattern.get_ascii(i) {
            assert(text@.subrange(at as int, at + pattern@.len())[i as int] != pattern@[i as int]);
            return false;
        }
        i += 1;
    }
    assert(text@.subrange(at as int, at + pattern@.len()) =~= pattern@);
    true
}

/// The end of the longest run of field characters that starts at `from`.
fn field_end(text: &str, from: usize) -> (end: usize)
    requires
        text.is_ascii(),
        from <= text@.len(),
    ensures
        from <= end <= text@.len(),
        is_field_text(text@.subrange(from as int, end as int)),
        end < text@.len() ==> !is_field_char(text@[end as int]),
{
    let text_len = ascii_len(text);
    let mut end: usize = from;
    while end < text_len
        invariant
            text.is_ascii(),
            text_len == text@.len(),
            from <= end <= text_len,
            is_field_text(text@.subrange(from as int, end as int)),
        decreases text_len - end,
    {
        let byte = text.get_ascii(end);
        if byte < 0x20 || byte > 0x7e || byte == 0x22 || byte == 0x5c {
            return end;
        }
        proof {
            let before = text@.subrange(from as int, end as int);
            let after = text@.subrange(from as int, end + 1);
            assert forall|i: int| 0 <= i < after.len() implies is_field_char(
                #[trigger] after[i],
            ) by {
                if i < before.len() {
                    assert(after[i] == before[i]);
                }
            }
        }
        end += 1;
    }
    end
}

impl Envelope {
    /// Whether both fields can stand in a record.
    pub open spec fn well_formed(self) -> bool {
        is_field_text(self.nonce@) && is_field_text(self.ciphertext@)
    }

    /// The envelope's text record.
    pub open spec fn text(self) -> Seq<char> {
        envelope_text(self.nonce@, self.ciphertext@)
    }

    /// Writes the envelope as its text record.
    pub fn to_text(&self) -> (text: String)
        ensures
            text@ == self.text(),
    {
        let mut text = String::from_str("{\"nonce\":\"");
        text.append(self.nonce.as_str());
        text.append("\",\"ciphertext\":\"");
        text.append(self.ciphertext.as_str());
        text.append("\"}");
        text
    }

    /// Reads an envelope from its text record. Succeeds exactly on the
    /// records of well-formed envelopes, and gives back the fields that the
    /// record was written from.
    pub fn parse(text: &str) -> (envelope: Option<Envelope>)
        ensures
            envelope is Some <==> is_envelope_text(text@),
            envelope matches Some(e) ==> e.well_formed() && e.text() == text@,
    {
        proof {
            lemma_fixed_parts();
            assert forall|nonce: Seq<char>, ciphertext: Seq<char>|
                is_field_text(nonce) && is_field_text(ciphertext) && text@ == envelope_text(
                    nonce,
                    ciphertext,
                ) implies is_ascii_chars(text@) by {
                lemma_record_layout(nonce, ciphertext);
                assert forall|i: int| 0 <= i < text@.len() implies '\0' <= #[trigger] text@[i]
                    <= '\u{7f}' by {
                    let n = nonce.len() as int;
                    let c = ciphertext.len() as int;
                    if i < 10 {
                        assert(text@[i] == text@.subrange(0, 10)[i]);
                    } else if i < 10 + n {
                        assert(text@[i] == text@.subrange(10, 10 + n)[i - 10]);
                    } else if i < 26 + n {
                        assert(text@[i] == text@.subrange(10 + n, 26 + n)[i - 10 - n]);
                    } else if i < 26 + n + c {
                        assert(text@[i] == text@.subrange(26 + n, 26 + n + c)[i - 26 - n]);
                    } else {
                        assert(text@[i] == text@.subrange(26 + n + c, 28 + n + c)[i - 26 - n - c]);
                    }
                }
            }
        }
        if !text.is_ascii() {
            return None;
        }
        let text_len = ascii_len(text);
        if !matches_at(text, 0, "{\"nonce\":\"") {
            proof {
                assert forall|nonce: Seq<char>, ciphertext: Seq<char>|
                    is_field_text(nonce) && is_field_text(ciphertext) implies text@
                    != #[trigger] envelope_text(nonce, ciphertext) by {
                    lemma_record_layout(nonce, ciphertext);
                }
            }
            return None;
        }
        let nonce_end = field_end(text, 10);
        if !matches_at(text, nonce_end, "\",\"ciphertext\":\"") {
            proof {
                assert forall|nonce: Seq<char>, ciphertext: Seq<char>|
                    is_field_text(nonce) && is_field_text(ciphertext) implies text@
                    != #[trigger] envelope_text(nonce, ciphertext) by {
                    if text@ == envelope_text(nonce, ciphertext) {
                        lemma_record_layout(nonce, ciphertext);
                        lemma_nonce_end(text@, nonce, ciphertext, nonce_end as int);
                    }
                }
            }
            return None;
        }
        assert(record_middle().len() == 16);
        let ciphertext_end = field_end(text, nonce_end + 16);
        if !matches_at(text, ciphertext_end, "\"}") || ciphertext_end + 2 != text_len {
            proof {
                assert forall|nonce: Seq<char>, ciphertext: Seq<char>|
                    is_field_text(nonce) && is_field_text(ciphertext) implies text@
                    != #[trigger] envelope_text(nonce, ciphertext) by {
                    if text@ == envelope_text(nonce, ciphertext) {
                        lemma_record_layout(nonce, ciphertext);
                        lemma_nonce_end(text@, nonce, ciphertext, nonce_end as int);
                        lemma_ciphertext_end(text@, nonce, ciphertext, ciphertext_end as int);
                    }
                }
            }
            return None;
        }
        let nonce = String::from_str(text.substring_ascii(10, nonce_end));
        let ciphertext = String::from_str(text.substring_ascii(nonce_end + 16, ciphertext_end));
        proof {
            assert(text@ =~= envelope_text(nonce@, ciphertext@));
        }
        Some(Envelope { nonce, ciphertext })
    }
}

/// In a record, the run of field characters that starts after the head ends
/// where the nonce ends.
proof fn lemma_nonce_end(text: Seq<char>, nonce: Seq<char>, ciphertext: Seq<char>, end: int)
    requires
        is_field_text(nonce),
        text == envelope_text(nonce, ciphertext),
        10 <= end <= text.len(),
        is_field_text(text.subrange(10, end)),
        end < text.len() ==> !is_field_char(text[end]),
    ensures
        end == 10 + nonce.len(),
{
    lemma_fixed_parts();
    lemma_record_layout(nonce, ciphertext);
    let n = nonce.len() as int;
    if end < 10 + n {
        assert(text[end] == text.subrange(10, 10 + n)[end - 10]);
    }
    if end > 10 + n {
        assert(text[10 + n] == text.subrange(10 + n, 26 + n)[0]);
        assert(text[10 + n] == text.subrange(10, end)[n]);
    }
}

/// In a record, the run of field characters that starts after the middle
/// ends where the ciphertext ends.
proof fn lemma_ciphertext_end(
    text: Seq<char>,
    nonce: Seq<char>,
    ciphertext: Seq<char>,
    end: int,
)
    requires
        is_field_text(ciphertext),
        text == envelope_text(nonce, ciphertext),
        26 + nonce.len() <= end <= text.len(),
        is_field_text(text.subrange(26 + nonce.len() as int, end)),
        end < text.len() ==> !is_field_char(text[end]),
    ensures
        end == 26 + nonce.len() + ciphertext.len(),
{
    lemma_fixed_parts();
    lemma_record_layout(nonce, ciphertext);
    let n = nonce.len() as int;
    let c = ciphertext.len() as int;
    if end < 26 + n + c {
        assert(text[end] == text.subrange(26 + n, 26 + n + c)[end - 26 - n]);
    }
    if end > 26 + n + c {
        assert(text[26 + n + c] == text.subrange(26 + n + c, 28 + n + c)[0]);
        assert(text[26 + n + c] == text.subrange(26 + n, end)[c]);
    }
}

} // verus!
