//! Lists written as one text, with commas between the items.

use vstd::prelude::*;
use crate::types::string_views;

verus! {

/// Whether `c` is whitespace: whether it has the Unicode property
/// `White_Space`. These are the tab, the line feed, the vertical tab, the
/// form feed, the carriage return and the space; the next line (U+0085)
/// and the no-break space (U+00A0); the ogham space mark (U+1680); the
/// spaces from U+2000 to U+200A; the line and paragraph separators (U+2028,
/// U+2029); and the narrow no-break, medium mathematical and ideographic
/// spaces (U+202F, U+205F, U+3000).
pub open spec fn is_whitespace(c: char) -> bool {
    let code = c as u32;
    ||| 0x09 <= code <= 0x0D
    ||| code == 0x20
    ||| code == 0x85
    ||| code == 0xA0
    ||| code == 0x1680
    ||| 0x2000 <= code <= 0x200A
    ||| code == 0x2028
    ||| code == 0x2029
    ||| code == 0x202F
    ||| code == 0x205F
    ||| code == 0x3000
}

/// `char::is_whitespace`: whether the character has the Unicode property
/// `White_Space`.
#[verifier::external_body]
fn char_is_whitespace(c: char) -> (white: bool)
    ensures
        white == is_whitespace(c),
{
    c.is_whitespace()
}

/// `s` without the whitespace it begins with.
pub open spec fn trim_start(s: Seq<char>) -> Seq<char>
    decreases s.len(),
{
    if s.len() > 0 && is_whitespace(s[0]) {
        trim_start(s.subrange(1, s.len() as int))
    } else {
        s
    }
}

/// `s` without the whitespace it ends with.
pub open spec fn trim_end(s: Seq<char>) -> Seq<char>
    decreases s.len(),
{
    if s.len() > 0 && is_whitespace(s.last()) {
        trim_end(s.drop_last())
    } else {
        s
    }
}

/// `s` without the whitespace around it.
pub open spec fn trimmed(s: Seq<char>) -> Seq<char> {
    trim_end(trim_start(s))
}

/// What stands in `s` behind its last comma, or all of `s` if it has none.
pub open spec fn last_piece(s: Seq<char>) -> Seq<char>
    decreases s.len(),
{
    if s.len() == 0 {
        Seq::empty()
    } else if s.last() == ',' {
        Seq::empty()
    } else {
        last_piece(s.drop_last()).push(s.last())
    }
}

/// `items` with `item` behind them, unless `item` is empty.
pub open spec fn with_item(items: Seq<Seq<char>>, item: Seq<char>) -> Seq<Seq<char>> {
    if item.len() > 0 {
        items.push(item)
    } else {
        items
    }
}

/// The items of the pieces of `s` that a comma ends: each piece trimmed, the
/// empty ones left out, in order.
pub open spec fn ended_items(s: Seq<char>) -> Seq<Seq<char>>
    decreases s.len(),
{
    if s.len() == 0 {
        Seq::empty()
    } else if s.last() == ',' {
        with_item(ended_items(s.drop_last()), trimmed(last_piece(s.drop_last())))
    } else {
        ended_items(s.drop_last())
    }
}

/// The items of a list written with commas: the pieces between the commas,
/// each without the whitespace around it, the empty ones left out, in order.
pub open spec fn list_items(s: Seq<char>) -> Seq<Seq<char>> {
    with_item(ended_items(s), trimmed(last_piece(s)))
}

/// The characters of `text`.
fn to_chars(text: &str) -> (chars: Vec<char>)
    ensures
        chars@ == text@,
{
    let mut chars: Vec<char> = Vec::new();
    for c in iter: text.chars()
        invariant
            chars@ == iter.seq().take(iter.index() as int),
            iter.seq() == text@,
    {
        chars.push(c);
        assert(chars@ =~= iter.seq().take(iter.index() + 1));
    }
    assert(chars@ =~= text@);
    chars
}

/// Adds to `items` the piece of `text` from `start` to `end`, trimmed,
/// unless nothing is left of it.
fn push_piece(text: &str, chars: &Vec<char>, start: usize, end: usize, items: &mut Vec<String>)
    requires
        chars@ == text@,
        start <= end <= chars@.len(),
    ensures
        string_views(final(items)@) == with_item(
            string_views(old(items)@),
            trimmed(text@.subrange(start as int, end as int)),
        ),
{
    let ghost piece = text@.subrange(start as int, end as int);
    let mut from: usize = start;
    while from < end && char_is_whitespace(chars[from])
        invariant
            start <= from <= end <= chars@.len(),
            chars@ == text@,
            trim_start(piece) == trim_start(text@.subrange(from as int, end as int)),
        decreases end - from,
    {
        proof {
            let rest = text@.subrange(from as int, end as int);
            assert(rest[0] == chars@[from as int]);
            assert(rest.subrange(1, rest.len() as int) =~= text@.subrange(
                from as int + 1,
                end as int,
            ));
        }
        from += 1;
    }
    proof {
        let rest = text@.subrange(from as int, end as int);
        if from < end {
            assert(rest[0] == chars@[from as int]);
        }
        assert(trim_start(piece) == rest);
    }
    let mut to: usize = end;
    while to > from && char_is_whitespace(chars[to - 1])
        invariant
            from <= to <= end <= chars@.len(),
            chars@ == text@,
            trim_end(text@.subrange(from as int, end as int)) == trim_end(
                text@.subrange(from as int, to as int),
            ),
        decreases to - from,
    {
        proof {
            let rest = text@.subrange(from as int, to as int);
            assert(rest.last() == chars@[to as int - 1]);
            assert(rest.drop_last() =~= text@.subrange(from as int, to as int - 1));
        }
        to -= 1;
    }
    proof {
        let rest = text@.subrange(from as int, to as int);
        if to > from {
            assert(rest.last() == chars@[to as int - 1]);
        }
        assert(trimmed(piece) == rest);
    }
    if from < to {
        let item = String::from_str(text.substring_char(from, to));
        items.push(item);
        assert(string_views(items@) =~= string_views(old(items)@).push(item@));
    }
}

/// Reads a list written with commas: the pieces between the commas, each
/// without the whitespace around it, the empty ones left out.
pub fn split_list(text: &str) -> (items: Vec<String>)
    ensures
        string_views(items@) == list_items(text@),
{
    let chars = to_chars(text);
    let mut items: Vec<String> = Vec::new();
    let mut start: usize = 0;
    let mut i: usize = 0;
    assert(string_views(items@) =~= Seq::empty());
    assert(text@.take(0) =~= Seq::empty());
    assert(text@.subrange(0, 0) =~= Seq::empty());
    while i < chars.len()
        invariant
            start <= i <= chars@.len(),
            chars@ == text@,
            string_views(items@) == ended_items(text@.take(i as int)),
            last_piece(text@.take(i as int)) == text@.subrange(start as int, i as int),
        decreases chars@.len() - i,
    {
        proof {
            let shorter = text@.take(i as int);
            let longer = text@.take(i as int + 1);
            assert(longer.drop_last() =~= shorter);
            assert(longer.last() == chars@[i as int]);
        }
        if chars[i] == ',' {
            push_piece(text, &chars, start, i, &mut items);
            start = i + 1;
            assert(text@.subrange(start as int, i as int + 1) =~= Seq::empty());
        } else {
            assert(text@.subrange(start as int, i as int + 1) =~= text@.subrange(
                start as int,
                i as int,
            ).push(chars@[i as int]));
        }
        i += 1;
    }
    assert(text@.take(chars@.len() as int) =~= text@);
    push_piece(text, &chars, start, i, &mut items);
    items
}

/// Whether `item` can stand in a list: it is not empty, holds no comma, and
/// neither begins nor ends with whitespace.
pub open spec fn is_item(item: Seq<char>) -> bool {
    &&& item.len() > 0
    &&& !is_whitespace(item[0])
    &&& !is_whitespace(item.last())
    &&& forall|i: int| 0 <= i < item.len() ==> item[i] != ','
}

proof fn lemma_last_piece_has_no_comma(s: Seq<char>)
    ensures
        forall|i: int| 0 <= i < last_piece(s).len() ==> last_piece(s)[i] != ',',
    decreases s.len(),
{
    if s.len() > 0 && s.last() != ',' {
        lemma_last_piece_has_no_comma(s.drop_last());
        let shorter = last_piece(s.drop_last());
        assert forall|i: int| 0 <= i < last_piece(s).len() implies last_piece(s)[i] != ',' by {
            if i < shorter.len() {
                assert(last_piece(s)[i] == shorter[i]);
            }
        }
    }
}

proof fn lemma_trim_start(s: Seq<char>)
    ensures
        trim_start(s).len() <= s.len(),
        trim_start(s) == s.subrange(s.len() - trim_start(s).len(), s.len() as int),
        trim_start(s).len() > 0 ==> !is_whitespace(trim_start(s)[0]),
    decreases s.len(),
{
    if s.len() > 0 && is_whitespace(s[0]) {
        let rest = s.subrange(1, s.len() as int);
        lemma_trim_start(rest);
        assert(trim_start(s) =~= s.subrange(s.len() - trim_start(s).len(), s.len() as int));
    } else {
        assert(s =~= s.subrange(0, s.len() as int));
    }
}

proof fn lemma_trim_end(s: Seq<char>)
    ensures
        trim_end(s).len() <= s.len(),
        trim_end(s) == s.subrange(0, trim_end(s).len() as int),
        trim_end(s).len() > 0 ==> !is_whitespace(trim_end(s).last()),
    decreases s.len(),
{
    if s.len() > 0 && is_whitespace(s.last()) {
        lemma_trim_end(s.drop_last());
        assert(trim_end(s) =~= s.subrange(0, trim_end(s).len() as int));
    } else {
        assert(s =~= s.subrange(0, s.len() as int));
    }
}

proof fn lemma_trimmed_piece_is_item(piece: Seq<char>)
    requires
        forall|i: int| 0 <= i < piece.len() ==> piece[i] != ',',
        trimmed(piece).len() > 0,
    ensures
        is_item(trimmed(piece)),
{
    lemma_trim_start(piece);
    lemma_trim_end(trim_start(piece));
    let inner = trim_start(piece);
    let item = trimmed(piece);
    assert(item[0] == inner[0]);
    assert forall|i: int| 0 <= i < item.len() implies item[i] != ',' by {
        assert(item[i] == inner[i]);
        assert(inner[i] == piece[piece.len() - inner.len() + i]);
    }
}

proof fn lemma_ended_items_are_items(s: Seq<char>)
    ensures
        forall|k: int| 0 <= k < ended_items(s).len() ==> is_item(#[trigger] ended_items(s)[k]),
    decreases s.len(),
{
    if s.len() > 0 {
        lemma_ended_items_are_items(s.drop_last());
        if s.last() == ',' {
            let piece = last_piece(s.drop_last());
            lemma_last_piece_has_no_comma(s.drop_last());
            if trimmed(piece).len() > 0 {
                lemma_trimmed_piece_is_item(piece);
            }
            let before = ended_items(s.drop_last());
            assert forall|k: int| 0 <= k < ended_items(s).len() implies is_item(
                #[trigger] ended_items(s)[k],
            ) by {
                if k < before.len() {
                    assert(ended_items(s)[k] == before[k]);
                }
            }
        }
    }
}

/// Every item read from a list is not empty, holds no comma, and neither
/// begins nor ends with whitespace.
pub proof fn lemma_list_items_are_items(s: Seq<char>)
    ensures
        forall|k: int| 0 <= k < list_items(s).len() ==> is_item(#[trigger] list_items(s)[k]),
{
    lemma_ended_items_are_items(s);
    lemma_last_piece_has_no_comma(s);
    if trimmed(last_piece(s)).len() > 0 {
        lemma_trimmed_piece_is_item(last_piece(s));
    }
    let before = ended_items(s);
    assert forall|k: int| 0 <= k < list_items(s).len() implies is_item(
        #[trigger] list_items(s)[k],
    ) by {
        if k < before.len() {
            assert(list_items(s)[k] == before[k]);
        }
    }
}

} // verus!
