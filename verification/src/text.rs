//! Text as sequences of characters: trimming, the order of strings, and sorted lists of strings.

use crate::lists::{lemma_insert_members, lemma_next_member};
use vstd::prelude::*;

verus! {

/// Whether a character is white space (the Unicode property `White_Space`).
pub uninterp spec fn is_white_space(c: char) -> bool;

/// `s` without its leading white space.
pub open spec fn trim_start(s: Seq<char>) -> Seq<char>
    decreases s.len(),
{
    if s.len() > 0 && is_white_space(s[0]) {
        trim_start(s.drop_first())
    } else {
        s
    }
}

/// `s` without its trailing white space.
pub open spec fn trim_end(s: Seq<char>) -> Seq<char>
    decreases s.len(),
{
    if s.len() > 0 && is_white_space(s.last()) {
        trim_end(s.drop_last())
    } else {
        s
    }
}

/// `s` without leading and trailing white space.
pub open spec fn trimmed(s: Seq<char>) -> Seq<char> {
    trim_end(trim_start(s))
}

/// The order of strings: character by character, by code point; a proper prefix comes first.
pub open spec fn text_lt(a: Seq<char>, b: Seq<char>) -> bool
    decreases a.len(),
{
    if b.len() == 0 {
        false
    } else if a.len() == 0 {
        true
    } else if a[0] != b[0] {
        (a[0] as int) < (b[0] as int)
    } else {
        text_lt(a.drop_first(), b.drop_first())
    }
}

/// The views of a list of strings.
pub open spec fn texts(v: Seq<String>) -> Seq<Seq<char>> {
    v.map_values(|s: String| s@)
}

/// Strictly ascending in the order of strings, so that nothing occurs twice.
pub open spec fn ascending(v: Seq<Seq<char>>) -> bool {
    forall|i: int, j: int| 0 <= i < j < v.len() ==> text_lt(#[trigger] v[i], #[trigger] v[j])
}

/// The index of the first `sep` in `s`, or the length of `s` if there is none.
pub open spec fn first_index_of(s: Seq<char>, sep: char) -> int
    decreases s.len(),
{
    if s.len() == 0 || s[0] == sep {
        0
    } else {
        1 + first_index_of(s.drop_first(), sep)
    }
}

/// The pieces of `s` between the occurrences of `sep`, in order. There is one piece more
/// than there are occurrences; a piece may be empty.
pub open spec fn split_of(s: Seq<char>, sep: char) -> Seq<Seq<char>>
    decreases s.len(),
{
    let i = first_index_of(s, sep);
    if 0 <= i < s.len() {
        seq![s.take(i)] + split_of(s.skip(i + 1), sep)
    } else {
        seq![s]
    }
}

/// Whether the character is one of the ten decimal digits.
pub open spec fn is_digit(c: char) -> bool {
    48 <= c as int <= 57
}

/// The number that a string of decimal digits denotes; 0 for the empty string.
pub open spec fn digits_value(s: Seq<char>) -> nat
    decreases s.len(),
{
    if s.len() == 0 {
        0
    } else {
        (digits_value(s.drop_last()) * 10 + (s.last() as int - 48)) as nat
    }
}

/// Whether the string holds decimal digits only.
pub open spec fn all_digits(s: Seq<char>) -> bool {
    forall|i: int| 0 <= i < s.len() ==> is_digit(#[trigger] s[i])
}

/// The number that a text denotes as an unsigned decimal numeral of at most `max`: one or
/// more decimal digits, with or without a `+` before them. Any other text denotes none.
pub open spec fn unsigned_of(s: Seq<char>, max: nat) -> Option<nat> {
    let digits = if s.len() > 0 && s[0] == '+' {
        s.drop_first()
    } else {
        s
    };
    if digits.len() > 0 && all_digits(digits) && digits_value(digits) <= max {
        Some(digits_value(digits))
    } else {
        None
    }
}

/// The character of a decimal digit.
pub open spec fn digit_char(d: nat) -> char {
    (48 + d) as char
}

/// The decimal numeral of `n`, without leading zeros.
pub open spec fn decimal_text(n: nat) -> Seq<char>
    decreases n,
{
    if n < 10 {
        seq![digit_char(n)]
    } else {
        decimal_text(n / 10).push(digit_char(n % 10))
    }
}

/// `usize::to_string`: the decimal numeral of the number.
#[verifier::external_body]
pub(crate) fn count_text(n: usize) -> (r: String)
    ensures
        r@ == decimal_text(n as nat),
{
    n.to_string()
}

/// `str::trim`: the slice left when leading and trailing white space is removed. What is
/// left, if anything, neither begins nor ends with white space (which `lemma_trimmed_is_bare`
/// shows of `trimmed` as well).
pub assume_specification[ str::trim ](s: &str) -> (r: &str)
    ensures
        r@ == trimmed(s@),
        r@.len() > 0 ==> !is_white_space(r@.first()) && !is_white_space(r@.last()),
;

/// `String::push`: appends one character.
pub assume_specification[ String::push ](s: &mut String, c: char)
    ensures
        final(s)@ == old(s)@.push(c),
;

/// `String::pop`: removes the last character and returns it, or returns `None` for an empty
/// string, which it leaves as it is.
pub assume_specification[ String::pop ](s: &mut String) -> (r: Option<char>)
    ensures
        old(s)@.len() == 0 ==> r is None && final(s)@ == old(s)@,
        old(s)@.len() > 0 ==> r == Some(old(s)@.last()) && final(s)@ == old(s)@.drop_last(),
;

/// `str::split` on a character: the pieces between its occurrences, each as a string of
/// its own.
#[verifier::external_body]
pub(crate) fn split_text(s: &str, sep: char) -> (r: Vec<String>)
    ensures
        texts(r@) == split_of(s@, sep),
{
    let mut pieces = Vec::new();
    for piece in s.split(sep) {
        pieces.push(piece.to_string());
    }
    pieces
}

/// `str::strip_prefix` with a string: what follows the prefix, if the text begins with it.
#[verifier::external_body]
pub(crate) fn strip_text_prefix<'a>(s: &'a str, prefix: &str) -> (r: Option<&'a str>)
    ensures
        r is Some <==> prefix@.is_prefix_of(s@),
        r matches Some(rest) ==> rest@ == s@.skip(prefix@.len() as int),
{
    s.strip_prefix(prefix)
}

/// `str::parse` to a `u32`: the number that the text denotes as a decimal numeral, if it
/// is one and the number fits.
#[verifier::external_body]
pub(crate) fn parse_u32(s: &str) -> (r: Option<u32>)
    ensures
        r is Some <==> unsigned_of(s@, u32::MAX as nat) is Some,
        r matches Some(n) ==> unsigned_of(s@, u32::MAX as nat) == Some(n as nat),
{
    s.parse::<u32>().ok()
}

/// `str::parse` to a `u64`: the number that the text denotes as a decimal numeral, if it
/// is one and the number fits.
#[verifier::external_body]
pub(crate) fn parse_u64(s: &str) -> (r: Option<u64>)
    ensures
        r is Some <==> unsigned_of(s@, u64::MAX as nat) is Some,
        r matches Some(n) ==> unsigned_of(s@, u64::MAX as nat) == Some(n as nat),
{
    s.parse::<u64>().ok()
}

/// `str` compared with `<`: strings are ordered by their bytes, which is the order of their
/// code points.
#[verifier::external_body]
pub(crate) fn text_less(a: &str, b: &str) -> (r: bool)
    ensures
        r == text_lt(a@, b@),
{
    a < b
}

/// `str` compared with `==`: true when both hold the same characters.
#[verifier::external_body]
pub(crate) fn text_eq(a: &str, b: &str) -> (r: bool)
    ensures
        r == (a@ == b@),
{
    a == b
}

/// What is left of a string without its leading white space is its end, and does not begin
/// with white space.
pub proof fn lemma_trim_start(s: Seq<char>)
    ensures
        exists|k: int| 0 <= k <= s.len() && trim_start(s) == #[trigger] s.skip(k),
        trim_start(s).len() > 0 ==> !is_white_space(trim_start(s).first()),
    decreases s.len(),
{
    if s.len() > 0 && is_white_space(s[0]) {
        lemma_trim_start(s.drop_first());
        let k = choose|k: int|
            0 <= k <= s.drop_first().len() && trim_start(s.drop_first()) == #[trigger] s.drop_first().skip(
                k,
            );
        assert(s.drop_first().skip(k) =~= s.skip(k + 1));
    } else {
        assert(s.skip(0) =~= s);
    }
}

/// What is left of a string without its trailing white space is its beginning, and does
/// not end with white space.
pub proof fn lemma_trim_end(s: Seq<char>)
    ensures
        exists|k: int| 0 <= k <= s.len() && trim_end(s) == #[trigger] s.take(k),
        trim_end(s).len() > 0 ==> !is_white_space(trim_end(s).last()),
    decreases s.len(),
{
    if s.len() > 0 && is_white_space(s.last()) {
        lemma_trim_end(s.drop_last());
        let k = choose|k: int|
            0 <= k <= s.drop_last().len() && trim_end(s.drop_last()) == #[trigger] s.drop_last().take(
                k,
            );
        assert(s.drop_last().take(k) =~= s.take(k));
    } else {
        assert(s.take(s.len() as int) =~= s);
    }
}

/// A trimmed string is a part of the string it was trimmed from, and neither begins nor
/// ends with white space.
pub proof fn lemma_trimmed_is_bare(s: Seq<char>)
    ensures
        trimmed(s).len() <= s.len(),
        trimmed(s).len() > 0 ==> !is_white_space(trimmed(s).first()) && !is_white_space(
            trimmed(s).last(),
        ),
{
    let t = trim_start(s);
    lemma_trim_start(s);
    lemma_trim_end(t);
    let k = choose|k: int| 0 <= k <= t.len() && trim_end(t) == #[trigger] t.take(k);
    if trimmed(s).len() > 0 {
        assert(t.take(k).first() == t.first());
    }
}

/// No string comes before itself.
pub proof fn lemma_text_lt_irreflexive(a: Seq<char>)
    ensures
        !text_lt(a, a),
    decreases a.len(),
{
    if a.len() > 0 {
        lemma_text_lt_irreflexive(a.drop_first());
    }
}

/// Of two different strings exactly one comes before the other.
pub proof fn lemma_text_lt_total(a: Seq<char>, b: Seq<char>)
    ensures
        a == b || text_lt(a, b) || text_lt(b, a),
        !(text_lt(a, b) && text_lt(b, a)),
        a == b ==> !text_lt(a, b),
    decreases a.len(),
{
    if a.len() == 0 || b.len() == 0 {
        if a.len() == 0 && b.len() == 0 {
            assert(a =~= b);
        }
    } else if a[0] != b[0] {
        assert(a[0] as int != b[0] as int);
    } else {
        lemma_text_lt_total(a.drop_first(), b.drop_first());
        if a.drop_first() == b.drop_first() {
            assert(a =~= seq![a[0]] + a.drop_first());
            assert(b =~= seq![b[0]] + b.drop_first());
        }
    }
    if a == b {
        lemma_text_lt_irreflexive(a);
    }
}

/// The order of strings is transitive.
pub proof fn lemma_text_lt_transitive(a: Seq<char>, b: Seq<char>, c: Seq<char>)
    requires
        text_lt(a, b),
        text_lt(b, c),
    ensures
        text_lt(a, c),
    decreases a.len(),
{
    if a.len() > 0 && a[0] == b[0] && b[0] == c[0] {
        lemma_text_lt_transitive(a.drop_first(), b.drop_first(), c.drop_first());
    }
}

/// Each string of an ascending list occurs in it once only.
pub proof fn lemma_ascending_distinct(v: Seq<Seq<char>>)
    requires
        ascending(v),
    ensures
        v.no_duplicates(),
{
    assert forall|i: int, j: int| 0 <= i < v.len() && 0 <= j < v.len() && i != j implies v[i]
        != v[j] by {
        lemma_text_lt_irreflexive(v[i]);
    }
}

/// Inserting a string between those that come before it and those that come after it keeps
/// the list ascending.
pub proof fn lemma_ascending_insert(v: Seq<Seq<char>>, at: int, item: Seq<char>)
    requires
        ascending(v),
        0 <= at <= v.len(),
        forall|k: int| 0 <= k < at ==> text_lt(#[trigger] v[k], item),
        forall|k: int| at <= k < v.len() ==> text_lt(item, #[trigger] v[k]),
    ensures
        ascending(v.insert(at, item)),
{
    let after = v.insert(at, item);
    assert forall|i: int, j: int| 0 <= i < j < after.len() implies text_lt(
        #[trigger] after[i],
        #[trigger] after[j],
    ) by {
        let bi = if i < at { i } else { i - 1 };
        let bj = if j < at { j } else { j - 1 };
        if i != at && j != at {
            assert(text_lt(v[bi], v[bj]));
        } else if i == at {
            assert(text_lt(item, v[bj]));
        } else {
            assert(text_lt(v[bi], item));
        }
    }
}

/// Taking a string out of an ascending list leaves it ascending.
pub proof fn lemma_ascending_remove(v: Seq<Seq<char>>, at: int)
    requires
        ascending(v),
        0 <= at < v.len(),
    ensures
        ascending(v.remove(at)),
{
    let after = v.remove(at);
    assert forall|i: int, j: int| 0 <= i < j < after.len() implies text_lt(
        #[trigger] after[i],
        #[trigger] after[j],
    ) by {
        let bi = if i < at { i } else { i + 1 };
        let bj = if j < at { j } else { j + 1 };
        assert(text_lt(v[bi], v[bj]));
    }
}

/// Two ascending lists with the same members are the same list.
pub proof fn lemma_ascending_same_members(a: Seq<Seq<char>>, b: Seq<Seq<char>>)
    requires
        ascending(a),
        ascending(b),
        forall|i: int| 0 <= i < a.len() ==> b.contains(#[trigger] a[i]),
        forall|i: int| 0 <= i < b.len() ==> a.contains(#[trigger] b[i]),
    ensures
        a == b,
    decreases a.len(),
{
    if a.len() == 0 {
        if b.len() > 0 {
            assert(a.contains(b[0]));
        }
        assert(a =~= b);
    } else if b.len() == 0 {
        assert(b.contains(a[0]));
    } else {
        // the least member of each list is its first
        let ia = choose|i: int| 0 <= i < a.len() && a[i] == b[0];
        assert(b.contains(a[0]));
        let ib = choose|i: int| 0 <= i < b.len() && b[i] == a[0];
        lemma_text_lt_total(a[0], b[0]);
        if ia > 0 {
            assert(text_lt(a[0], a[ia]));
        }
        if ib > 0 {
            assert(text_lt(b[0], b[ib]));
        }
        assert(a[0] == b[0]);
        let ta = a.drop_first();
        let tb = b.drop_first();
        assert forall|i: int, j: int| 0 <= i < j < ta.len() implies text_lt(
            #[trigger] ta[i],
            #[trigger] ta[j],
        ) by {
            assert(text_lt(a[i + 1], a[j + 1]));
        }
        assert forall|i: int, j: int| 0 <= i < j < tb.len() implies text_lt(
            #[trigger] tb[i],
            #[trigger] tb[j],
        ) by {
            assert(text_lt(b[i + 1], b[j + 1]));
        }
        assert forall|i: int| 0 <= i < ta.len() implies tb.contains(#[trigger] ta[i]) by {
            assert(b.contains(a[i + 1]));
            let k = choose|k: int| 0 <= k < b.len() && b[k] == a[i + 1];
            assert(text_lt(a[0], a[i + 1]));
            lemma_text_lt_irreflexive(a[0]);
            assert(k > 0);
            assert(tb[k - 1] == ta[i]);
        }
        assert forall|i: int| 0 <= i < tb.len() implies ta.contains(#[trigger] tb[i]) by {
            assert(a.contains(b[i + 1]));
            let k = choose|k: int| 0 <= k < a.len() && a[k] == b[i + 1];
            assert(text_lt(b[0], b[i + 1]));
            lemma_text_lt_irreflexive(b[0]);
            assert(k > 0);
            assert(ta[k - 1] == tb[i]);
        }
        lemma_ascending_same_members(ta, tb);
        assert(a =~= seq![a[0]] + ta);
        assert(b =~= seq![b[0]] + tb);
    }
}

/// A copy of a list of strings.
pub fn clone_texts(v: &Vec<String>) -> (r: Vec<String>)
    ensures
        texts(r@) == texts(v@),
{
    let mut out: Vec<String> = Vec::new();
    let mut i: usize = 0;
    while i < v.len()
        invariant
            i <= v.len(),
            out@.len() == i,
            forall|k: int| 0 <= k < i ==> (#[trigger] out@[k])@ == v@[k]@,
        decreases v.len() - i,
    {
        out.push(v[i].clone());
        i += 1;
    }
    proof {
        assert(texts(out@) =~= texts(v@));
    }
    out
}

/// The place of `key` in an ascending list: the index at which it stands, with `true`, or the
/// index at which it would have to be inserted, with `false`.
pub fn find_slot(names: &Vec<String>, key: &str) -> (r: (usize, bool))
    requires
        ascending(texts(names@)),
    ensures
        r.0 <= names.len(),
        r.1 ==> r.0 < names.len() && texts(names@)[r.0 as int] == key@,
        r.1 <==> texts(names@).contains(key@),
        forall|k: int| 0 <= k < r.0 ==> text_lt(#[trigger] texts(names@)[k], key@),
        forall|k: int|
            r.0 <= k < names.len() && !(r.1 && k == r.0) ==> text_lt(
                key@,
                #[trigger] texts(names@)[k],
            ),
{
    let ghost all = texts(names@);
    let mut i: usize = 0;
    while i < names.len()
        invariant
            i <= names.len(),
            all == texts(names@),
            ascending(all),
            forall|k: int| 0 <= k < i ==> text_lt(#[trigger] all[k], key@),
        decreases names.len() - i,
    {
        let here = names[i].as_str();
        assert(all[i as int] == here@);
        if text_eq(here, key) {
            proof {
                assert forall|k: int| i < k < names.len() implies text_lt(
                    key@,
                    #[trigger] all[k],
                ) by {
                    assert(text_lt(all[i as int], all[k]));
                }
            }
            return (i, true);
        }
        if text_less(key, here) {
            proof {
                assert forall|k: int| i <= k < names.len() implies text_lt(
                    key@,
                    #[trigger] all[k],
                ) by {
                    if i < k {
                        assert(text_lt(all[i as int], all[k]));
                        lemma_text_lt_transitive(key@, all[i as int], all[k]);
                    }
                }
                assert forall|k: int| 0 <= k < all.len() implies all[k] != key@ by {
                    lemma_text_lt_irreflexive(key@);
                }
            }
            return (i, false);
        }
        proof {
            lemma_text_lt_total(here@, key@);
        }
        i += 1;
    }
    proof {
        assert forall|k: int| 0 <= k < all.len() implies all[k] != key@ by {
            lemma_text_lt_irreflexive(key@);
        }
    }
    (i, false)
}

/// Adds `item` to an ascending list, at its place in the order, unless the list holds it
/// already.
pub fn insert_sorted(names: &mut Vec<String>, item: String)
    requires
        ascending(texts(old(names)@)),
    ensures
        ascending(texts(final(names)@)),
        texts(final(names)@).to_set() == texts(old(names)@).to_set().insert(item@),
        texts(old(names)@).contains(item@) ==> texts(final(names)@) == texts(old(names)@),
{
    let (at, found) = find_slot(names, item.as_str());
    if !found {
        let ghost before = texts(names@);
        let ghost text = item@;
        names.insert(at, item);
        proof {
            assert(texts(names@) =~= before.insert(at as int, text));
            lemma_ascending_insert(before, at as int, text);
            lemma_insert_members(before, at as int, text);
        }
    } else {
        proof {
            let before = texts(names@);
            assert(before.contains(item@));
            assert(before.to_set() =~= before.to_set().insert(item@));
        }
    }
}

/// Adds each of `items` to an ascending list, at its place in the order, unless the list
/// holds it already.
pub fn insert_all_sorted(names: &mut Vec<String>, items: &Vec<String>)
    requires
        ascending(texts(old(names)@)),
    ensures
        ascending(texts(final(names)@)),
        texts(final(names)@).to_set() == texts(old(names)@).to_set().union(texts(items@).to_set()),
{
    let ghost start = texts(names@).to_set();
    let ghost all = texts(items@);
    let mut i: usize = 0;
    proof {
        assert(all.take(0).to_set() =~= Set::<Seq<char>>::empty());
        assert(start.union(all.take(0).to_set()) =~= start);
    }
    while i < items.len()
        invariant
            i <= items.len(),
            all == texts(items@),
            ascending(texts(names@)),
            texts(names@).to_set() == start.union(all.take(i as int).to_set()),
        decreases items.len() - i,
    {
        insert_sorted(names, items[i].clone());
        proof {
            lemma_next_member(all, i as int);
            assert(texts(names@).to_set() =~= start.union(all.take(i + 1).to_set()));
        }
        i += 1;
    }
    proof {
        assert(all.take(i as int) =~= all);
    }
}

/// The text made of the three parts, one after the other.
pub fn framed(prefix: &str, middle: &str, suffix: &str) -> (r: String)
    ensures
        r@ == prefix@ + middle@ + suffix@,
{
    String::from_str(prefix).concat(middle).concat(suffix)
}

} // verus!
