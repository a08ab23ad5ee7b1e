//! Text and byte helpers shared by the rest of the library.
use vstd::prelude::*;
use vstd::string::*;
use vstd::utf8::*;

verus! {

/// `String::push` appends the given character to the end of the string.
pub assume_specification[ String::push ](text: &mut String, c: char)
    ensures
        final(text)@ == old(text)@.push(c),
;

/// The decimal digit of a value below ten.
pub open spec fn digit(n: nat) -> char {
    ('0' as u32 + n) as char
}

/// The decimal numeral of `n`, without leading zeros.
pub open spec fn decimal(n: nat) -> Seq<char>
    decreases n,
{
    if n < 10 {
        seq![digit(n)]
    } else {
        decimal(n / 10).push(digit(n % 10))
    }
}

/// Writes `n` in decimal.
pub fn decimal_text(n: u64) -> (text: String)
    ensures
        text@ == decimal(n as nat),
    decreases n,
{
    let mut text = if n < 10 {
        String::new()
    } else {
        decimal_text(n / 10)
    };
    let low: u8 = (n % 10) as u8;
    text.push((48u8 + low) as char);
    text
}

/// Whether two byte strings hold the same bytes.
pub fn same_bytes(left: &[u8], right: &[u8]) -> (same: bool)
    ensures
        same == (left@ == right@),
{
    if left.len() != right.len() {
        return false;
    }
    let mut at: usize = 0;
    while at < left.len()
        invariant
            at <= left@.len() == right@.len(),
            forall|i: int| 0 <= i < at ==> left@[i] == right@[i],
        decreases left@.len() - at,
    {
        if left[at] != right[at] {
            return false;
        }
        at += 1;
    }
    assert(left@ =~= right@);
    true
}

/// Whether two texts hold the same characters.
pub fn same_text(left: &str, right: &str) -> (same: bool)
    ensures
        same == (left@ == right@),
{
    proof {
        encode_utf8_decode_utf8(left@);
        encode_utf8_decode_utf8(right@);
    }
    same_bytes(left.as_bytes(), right.as_bytes())
}

/// Collects the characters of a text.
pub fn characters(text: &str) -> (found: Vec<char>)
    ensures
        found@ == text@,
{
    let mut found: Vec<char> = Vec::new();
    for c in it: text.chars()
        invariant
            it.seq() == text@,
            found@ == it.seq().take(it.index() as int),
    {
        found.push(c);
    }
    found
}

/// Where `c` first occurs in `text`; the length of `text` when it does not occur.
pub open spec fn first_index<C>(text: Seq<C>, c: C) -> int
    decreases text.len(),
{
    if text.len() == 0 || text[0] == c {
        0
    } else {
        1 + first_index(text.skip(1), c)
    }
}

/// `first_index` is the least position that holds `c`, or the length.
pub proof fn lemma_first_index<C>(text: Seq<C>, c: C)
    ensures
        0 <= first_index(text, c) <= text.len(),
        forall|i: int| 0 <= i < first_index(text, c) ==> text[i] != c,
        first_index(text, c) < text.len() ==> text[first_index(text, c)] == c,
        first_index(text, c) < text.len() <==> text.contains(c),
    decreases text.len(),
{
    if text.len() > 0 && text[0] != c {
        lemma_first_index(text.skip(1), c);
        assert forall|i: int| 0 <= i < first_index(text, c) implies text[i] != c by {
            if i > 0 {
                assert(text.skip(1)[i - 1] == text[i]);
            }
        }
        if text.contains(c) {
            let i = choose|i: int| 0 <= i < text.len() && text[i] == c;
            assert(text.skip(1)[i - 1] == c);
        }
    } else if text.len() > 0 {
        assert(text[0] == c);
    }
}

/// A position that holds `c`, with no `c` before it, is where `c` first occurs;
/// a text without `c` has its length there.
pub proof fn lemma_first_index_unique<C>(text: Seq<C>, c: C, at: int)
    requires
        0 <= at <= text.len(),
        forall|i: int| 0 <= i < at ==> text[i] != c,
        at < text.len() ==> text[at] == c,
    ensures
        first_index(text, c) == at,
{
    lemma_first_index(text, c);
    if first_index(text, c) < at {
        assert(text[first_index(text, c)] != c);
    } else if at < first_index(text, c) {
        assert(text[at] != c);
    }
}

/// Splits at the first `=`: the text before it and the text after it.
pub open spec fn split_pair(text: Seq<char>) -> Option<(Seq<char>, Seq<char>)> {
    let at = first_index(text, '=');
    if at < text.len() {
        Some((text.take(at), text.skip(at + 1)))
    } else {
        None
    }
}

/// Splits `text` at its first `=`, if it has one.
pub fn split_at_equals<'a>(text: &'a str) -> (pair: Option<(&'a str, &'a str)>)
    ensures
        match pair {
            Some((before, after)) => split_pair(text@) == Some((before@, after@)),
            None => split_pair(text@) is None,
        },
{
    let all = characters(text);
    let mut at: usize = 0;
    while at < all.len()
        invariant
            all@ == text@,
            at <= all@.len(),
            forall|i: int| 0 <= i < at ==> text@[i] != '=',
        decreases all@.len() - at,
    {
        if all[at] == '=' {
            proof {
                lemma_first_index_unique(text@, '=', at as int);
            }
            let before = text.substring_char(0, at);
            let after = text.substring_char(at + 1, all.len());
            assert(text@.subrange(0, at as int) =~= text@.take(at as int));
            assert(text@.subrange(at + 1, text@.len() as int) =~= text@.skip(at + 1));
            return Some((before, after));
        }
        at += 1;
    }
    proof {
        lemma_first_index_unique(text@, '=', at as int);
    }
    None
}

/// The texts one after another, with `separator` between neighbours.
pub open spec fn joined(parts: Seq<Seq<char>>, separator: Seq<char>) -> Seq<char>
    decreases parts.len(),
{
    if parts.len() == 0 {
        Seq::empty()
    } else if parts.len() == 1 {
        parts[0]
    } else {
        joined(parts.drop_last(), separator) + separator + parts.last()
    }
}

/// The contents of a list of strings.
pub open spec fn texts(parts: Seq<String>) -> Seq<Seq<char>> {
    parts.map_values(|part: String| part@)
}

/// Joins `parts` with `separator` between neighbours.
pub fn join(parts: &Vec<String>, separator: &str) -> (text: String)
    ensures
        text@ == joined(texts(parts@), separator@),
{
    let mut text = String::new();
    let mut at: usize = 0;
    while at < parts.len()
        invariant
            at <= parts@.len(),
            text@ == joined(texts(parts@).take(at as int), separator@),
        decreases parts@.len() - at,
    {
        let ghost before = texts(parts@).take(at as int);
        let ghost after = texts(parts@).take(at + 1);
        assert(after.drop_last() =~= before);
        assert(after.last() == parts@[at as int]@);
        if at > 0 {
            text.append(separator);
        }
        text.append(parts[at].as_str());
        assert(text@ =~= joined(after, separator@));
        at += 1;
    }
    assert(texts(parts@).take(at as int) =~= texts(parts@));
    text
}

/// A text is split exactly when it holds an equals sign, at the first one: what
/// stands before it holds none, and the two parts with the sign between them are
/// the text.
pub proof fn law_split_pair(text: Seq<char>)
    ensures
        split_pair(text) is Some <==> text.contains('='),
        split_pair(text) matches Some((before, after)) ==> text == before + seq!['='] + after
            && !before.contains('='),
{
    lemma_first_index(text, '=');
    let at = first_index(text, '=');
    if at < text.len() {
        assert(text =~= text.take(at) + seq!['='] + text.skip(at + 1));
    }
}

/// The number that a text of decimal digits stands for.
pub open spec fn decimal_value(text: Seq<char>) -> int
    decreases text.len(),
{
    if text.len() == 0 {
        0
    } else {
        10 * decimal_value(text.drop_last()) + (text.last() as int - 48)
    }
}

/// A numeral stands for its number, is made of digits alone, and starts with a
/// zero only where it is nothing else.
pub proof fn law_decimal_stands_for_its_number(n: nat)
    ensures
        decimal(n).len() > 0,
        forall|i: int| 0 <= i < decimal(n).len() ==> 48 <= (#[trigger] decimal(n)[i]) as int <= 57,
        decimal_value(decimal(n)) == n,
        decimal(n)[0] as int == 48 ==> n == 0 && decimal(n).len() == 1,
    decreases n,
{
    if n < 10 {
        assert(decimal(n).drop_last() =~= Seq::empty());
        reveal_with_fuel(decimal_value, 2);
    } else {
        law_decimal_stands_for_its_number(n / 10);
        assert(decimal(n).drop_last() =~= decimal(n / 10));
        assert(decimal(n)[0] == decimal(n / 10)[0]);
    }
}

/// Numerals differ where their numbers do.
pub proof fn law_numerals_are_told_apart(one: u64, other: u64, text: String, retold: String)
    requires
        call_ensures(decimal_text, (one,), text),
        call_ensures(decimal_text, (other,), retold),
    ensures
        text@ == retold@ <==> one == other,
        decimal_value(text@) == one,
{
    law_decimal_stands_for_its_number(one as nat);
    law_decimal_stands_for_its_number(other as nat);
}

/// Joined texts can be cut between any two of their parts, with one separator
/// there; a single part is itself, and no part is nothing.
pub proof fn law_joined_texts_can_be_cut(parts: Seq<Seq<char>>, separator: Seq<char>, at: int)
    ensures
        parts.len() == 0 ==> joined(parts, separator).len() == 0,
        parts.len() == 1 ==> joined(parts, separator) == parts[0],
        0 < at < parts.len() ==> joined(parts, separator) == joined(parts.take(at), separator)
            + separator + joined(parts.skip(at), separator),
    decreases parts.len(),
{
    if 0 < at < parts.len() {
        let all = parts.drop_last();
        if at == parts.len() - 1 {
            assert(parts.take(at) =~= all);
            assert(parts.skip(at) =~= seq![parts.last()]);
        } else {
            law_joined_texts_can_be_cut(all, separator, at);
            assert(all.take(at) =~= parts.take(at));
            assert(all.skip(at) =~= parts.skip(at).drop_last());
            assert(parts.skip(at).last() == parts.last());
            assert(joined(parts, separator) =~= joined(parts.take(at), separator) + separator
                + joined(parts.skip(at), separator));
        }
    }
}

/// The contents of a list are those of its strings, one for one.
pub proof fn law_texts_are_the_strings(parts: Seq<String>)
    ensures
        texts(parts).len() == parts.len(),
        forall|i: int| 0 <= i < parts.len() ==> (#[trigger] texts(parts)[i]) == parts[i]@,
{
}

/// Two texts, and two byte strings, are the same exactly when they are equal; and a
/// text is cut at its first equals sign, if it has one.
pub proof fn law_text_calls(
    left: &str,
    right: &str,
    same: bool,
    pair: Option<(&str, &str)>,
    one: &[u8],
    other: &[u8],
    equal: bool,
)
    requires
        call_ensures(same_text, (left, right), same),
        call_ensures(same_bytes, (one, other), equal),
        call_ensures(split_at_equals, (left,), pair),
    ensures
        same <==> left@ == right@,
        equal <==> one@ == other@,
        pair is Some <==> left@.contains('='),
        pair matches Some((before, after)) ==> left@ == before@ + seq!['='] + after@
            && !before@.contains('='),
{
    law_split_pair(left@);
}

/// Joining no texts gives none, and one text that text; each further text follows a
/// separator.
pub proof fn law_join_calls(
    parts: Vec<String>,
    separator: &str,
    text: String,
    fewer: Vec<String>,
    shorter: String,
)
    requires
        call_ensures(join, (&parts, separator), text),
        call_ensures(join, (&fewer, separator), shorter),
        parts@.len() > 0 ==> fewer@ == parts@.drop_last(),
    ensures
        parts@.len() == 0 ==> text@.len() == 0,
        parts@.len() == 1 ==> text@ == parts@[0]@,
        parts@.len() > 1 ==> text@ == shorter@ + separator@ + parts@.last()@,
{
    if parts@.len() > 0 {
        assert(texts(fewer@) =~= texts(parts@).drop_last());
    }
}

} // verus!
