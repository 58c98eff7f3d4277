//! Why a text that stands in a script as a string literal stays a text.

use vstd::prelude::*;
use crate::value::{escaped, escaped_char, hex_digit, json_string};

verus! {

/// Where a string literal ends whose opening quote stands just before
/// `text[from]`: at the first double quote that no backslash escapes, or at
/// the end of the text if there is none. A backslash takes the character
/// behind it along.
pub open spec fn literal_end(text: Seq<char>, from: int) -> int
    decreases text.len() - from,
{
    if from < 0 || from >= text.len() {
        text.len() as int
    } else if text[from] == '\\' {
        if from + 2 <= text.len() {
            literal_end(text, from + 2)
        } else {
            text.len() as int
        }
    } else if text[from] == '"' {
        from
    } else {
        literal_end(text, from + 1)
    }
}

proof fn lemma_escaped_concat(a: Seq<char>, b: Seq<char>)
    ensures
        escaped(a + b) == escaped(a) + escaped(b),
    decreases b.len(),
{
    if b.len() == 0 {
        assert(a + b =~= a);
        assert(escaped(a) + escaped(b) =~= escaped(a));
    } else {
        lemma_escaped_concat(a, b.drop_last());
        assert((a + b).drop_last() =~= a + b.drop_last());
        assert((a + b).last() == b.last());
        assert(escaped(a + b) =~= escaped(a) + escaped(b));
    }
}

proof fn lemma_escaped_first(s: Seq<char>)
    requires
        s.len() > 0,
    ensures
        escaped(s) == escaped_char(s[0]) + escaped(s.subrange(1, s.len() as int)),
{
    let head = seq![s[0]];
    let tail = s.subrange(1, s.len() as int);
    assert(s =~= head + tail);
    lemma_escaped_concat(head, tail);
    assert(head.drop_last() =~= Seq::<char>::empty());
    assert(escaped(head.drop_last()) =~= Seq::<char>::empty());
    assert(escaped(head) =~= escaped_char(s[0]));
}

proof fn lemma_hex_digit_is_plain(n: int)
    ensures
        hex_digit(n) != '"',
        hex_digit(n) != '\\',
{
}

proof fn lemma_literal_end_after(s: Seq<char>, text: Seq<char>, at: int)
    requires
        0 <= at,
        at + escaped(s).len() < text.len(),
        text.subrange(at, at + escaped(s).len()) == escaped(s),
        text[at + escaped(s).len()] == '"',
    ensures
        literal_end(text, at) == at + escaped(s).len(),
    decreases s.len(),
{
    if s.len() == 0 {
        assert(escaped(s).len() == 0);
    } else {
        let c = s[0];
        let rest = s.subrange(1, s.len() as int);
        let head = escaped_char(c);
        lemma_escaped_first(s);
        let body = escaped(s);
        assert(body.len() == head.len() + escaped(rest).len());
        assert forall|k: int| 0 <= k < head.len() implies text[at + k] == head[k] by {
            assert(text.subrange(at, at + body.len())[k] == body[k]);
        }
        assert(text.subrange(at + head.len(), at + head.len() + escaped(rest).len()) =~= escaped(
            rest,
        )) by {
            assert forall|k: int| 0 <= k < escaped(rest).len() implies text[at + head.len() + k]
                == escaped(rest)[k] by {
                assert(text.subrange(at, at + body.len())[head.len() + k] == body[head.len() + k]);
            }
        }
        lemma_literal_end_after(rest, text, at + head.len());
        let code = c as u32;
        if code == 0x22 || code == 0x5C || code == 0x08 || code == 0x09 || code == 0x0A || code
            == 0x0C || code == 0x0D {
            assert(head.len() == 2);
            assert(text[at] == head[0]);
            assert(text[at] == '\\');
        } else if code < 0x20 {
            assert(head.len() == 6);
            assert(text[at] == head[0]);
            assert(text[at + 2] == head[2]);
            assert(text[at + 3] == head[3]);
            assert(text[at + 4] == head[4]);
            assert(text[at + 5] == head[5]);
            lemma_hex_digit_is_plain(code as int / 16);
            lemma_hex_digit_is_plain(code as int % 16);
            assert(literal_end(text, at) == literal_end(text, at + 2));
            assert(literal_end(text, at + 2) == literal_end(text, at + 3));
            assert(literal_end(text, at + 3) == literal_end(text, at + 4));
            assert(literal_end(text, at + 4) == literal_end(text, at + 5));
            assert(literal_end(text, at + 5) == literal_end(text, at + 6));
        } else {
            assert(head.len() == 1);
            assert(text[at] == head[0]);
            assert(text[at] == c);
            assert(c != '"' && c != '\\');
        }
    }
}

/// Wherever the literal of a text stands in a script, it ends at the quote
/// that closes it: nothing in the text can end the literal early or carry it
/// on, so the text is read as text and what follows it as written.
pub proof fn lemma_string_literal_is_closed(before: Seq<char>, s: Seq<char>, after: Seq<char>)
    ensures
        ({
            let script = before + json_string(s) + after;
            let opens = before.len() as int;
            let closes = opens + 1 + escaped(s).len();
            &&& script[opens] == '"'
            &&& script[closes] == '"'
            &&& literal_end(script, opens + 1) == closes
            &&& script.subrange(opens + 1, closes) == escaped(s)
            &&& script.subrange(closes + 1, script.len() as int) == after
        }),
{
    let script = before + json_string(s) + after;
    let opens = before.len() as int;
    let at = opens + 1;
    let closes = at + escaped(s).len();
    assert(script[opens] == json_string(s)[0]);
    assert(script.subrange(at, closes) =~= escaped(s)) by {
        assert forall|k: int| 0 <= k < escaped(s).len() implies script[at + k] == escaped(s)[k] by {
            assert(script[at + k] == json_string(s)[k + 1]);
        }
    }
    assert(script[closes] == json_string(s)[closes - opens]);
    assert(script.subrange(closes + 1, script.len() as int) =~= after);
    lemma_literal_end_after(s, script, at);
}

} // verus!
