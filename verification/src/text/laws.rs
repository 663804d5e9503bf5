//! What case, spaces, parts and the order of texts mean, character by
//! character.
use vstd::prelude::*;
use crate::text::{
    comes_before, decimal, holds_text, is_space, lower, lower_char, padded, trim_end, trim_start,
    trimmed,
};

verus! {

/// Whether two characters are the same, or the capital and the small form of one
/// of the letters from A to Z.
pub open spec fn same_letter(a: char, b: char) -> bool {
    ||| a == b
    ||| 'A' <= a <= 'Z' && b as int - a as int == 32
    ||| 'A' <= b <= 'Z' && a as int - b as int == 32
}

/// Whether two texts differ at most in the case of letters from A to Z.
pub open spec fn same_letters(a: Seq<char>, b: Seq<char>) -> bool {
    &&& a.len() == b.len()
    &&& forall|i: int| #![trigger a[i]] #![trigger b[i]]
        0 <= i < a.len() ==> same_letter(a[i], b[i])
}

/// Two texts have the same lower case exactly where they differ at most in the
/// case of letters; a text has no capitals in lower case and keeps its length.
pub proof fn law_lower(a: Seq<char>, b: Seq<char>)
    ensures
        (lower(a) == lower(b)) == same_letters(a, b),
        lower(a).len() == a.len(),
        same_letters(a, lower(a)),
        forall|i: int| 0 <= i < a.len() ==> !('A' <= #[trigger] lower(a)[i] <= 'Z'),
        lower(lower(a)) == lower(a),
{
    assert forall|c: char, d: char| #![trigger lower_char(c), lower_char(d)]
        (lower_char(c) == lower_char(d)) == same_letter(c, d) by {}
    if lower(a) == lower(b) {
        assert(a.len() == lower(a).len() && b.len() == lower(b).len());
        assert forall|i: int| 0 <= i < a.len() implies same_letter(a[i], b[i]) by {
            assert(lower(a)[i] == lower(b)[i]);
            assert(lower_char(a[i]) == lower_char(b[i]));
        }
    }
    if same_letters(a, b) {
        assert forall|i: int| 0 <= i < a.len() implies lower(a)[i] == lower(b)[i] by {
            assert(same_letter(a[i], b[i]));
            assert(lower_char(a[i]) == lower_char(b[i]));
        }
        assert(lower(a) =~= lower(b));
    }
    assert forall|i: int| 0 <= i < a.len() implies same_letter(a[i], lower(a)[i]) by {
        assert(lower(a)[i] == lower_char(a[i]));
    }
    assert(lower(lower(a)) =~= lower(a));
}

proof fn lemma_trim_start_at(s: Seq<char>) -> (from: int)
    ensures
        0 <= from <= s.len(),
        trim_start(s) == s.subrange(from, s.len() as int),
        forall|i: int| 0 <= i < from ==> is_space(#[trigger] s[i]),
        from < s.len() ==> !is_space(s[from]),
    decreases s.len(),
{
    if s.len() > 0 && is_space(s[0]) {
        let t = s.drop_first();
        let f = lemma_trim_start_at(t);
        assert(t.subrange(f, t.len() as int) =~= s.subrange(f + 1, s.len() as int));
        assert forall|i: int| 0 <= i < f + 1 implies is_space(#[trigger] s[i]) by {
            if i > 0 {
                assert(t[i - 1] == s[i]);
            }
        }
        f + 1
    } else {
        assert(s.subrange(0, s.len() as int) =~= s);
        0
    }
}

proof fn lemma_trim_end_at(s: Seq<char>) -> (to: int)
    ensures
        0 <= to <= s.len(),
        trim_end(s) == s.subrange(0, to),
        forall|i: int| to <= i < s.len() ==> is_space(#[trigger] s[i]),
        to > 0 ==> !is_space(s[to - 1]),
    decreases s.len(),
{
    if s.len() > 0 && is_space(s.last()) {
        let t = s.drop_last();
        let to = lemma_trim_end_at(t);
        assert(t.subrange(0, to) =~= s.subrange(0, to));
        assert forall|i: int| to <= i < s.len() implies is_space(#[trigger] s[i]) by {
            if i < t.len() {
                assert(t[i] == s[i]);
            }
        }
        to
    } else {
        assert(s.subrange(0, s.len() as int) =~= s);
        s.len() as int
    }
}

/// Where a trimmed text stands in the text that it was made of.
pub proof fn lemma_trimmed_at(s: Seq<char>) -> (r: (int, int))
    ensures
        0 <= r.0 <= r.1 <= s.len(),
        trimmed(s) == s.subrange(r.0, r.1),
        forall|i: int| 0 <= i < r.0 || r.1 <= i < s.len() ==> is_space(#[trigger] s[i]),
        r.0 < r.1 ==> !is_space(s[r.0]) && !is_space(s[r.1 - 1]),
{
    let from = lemma_trim_start_at(s);
    let t = trim_start(s);
    let to = lemma_trim_end_at(t);
    assert(t.subrange(0, to) =~= s.subrange(from, from + to));
    assert forall|i: int| 0 <= i < from || from + to <= i < s.len() implies is_space(
        #[trigger] s[i],
    ) by {
        if i >= from {
            assert(t[i - from] == s[i]);
        }
    }
    if to > 0 {
        assert(t[to - 1] == s[from + to - 1]);
    }
    (from, from + to)
}

/// Trimming takes spaces off both ends and nothing else: what is left is a part
/// of the text, only spaces stand around it, and it begins and ends with none.
pub proof fn law_trimmed(s: Seq<char>)
    ensures
        exists|from: int, to: int|
            0 <= from <= to <= s.len() && trimmed(s) == #[trigger] s.subrange(from, to) && (forall|
                i: int,
            |
                0 <= i < from || to <= i < s.len() ==> is_space(#[trigger] s[i])) && (from < to
                ==> !is_space(s[from]) && !is_space(s[to - 1])),
{
    let (from, to) = lemma_trimmed_at(s);
    assert(trimmed(s) == s.subrange(from, to));
}

/// Case and spaces do not touch each other.
pub proof fn law_trimmed_in_any_case(a: Seq<char>, b: Seq<char>)
    requires
        same_letters(a, b),
    ensures
        same_letters(trimmed(a), trimmed(b)),
        lower(trimmed(a)) == lower(trimmed(b)),
{
    let (p, q) = lemma_trimmed_at(a);
    let (r, s) = lemma_trimmed_at(b);
    assert forall|c: char, d: char| #![trigger same_letter(c, d)]
        same_letter(c, d) implies is_space(c) == is_space(d) by {}
    assert forall|i: int| #![trigger a[i]] #![trigger b[i]]
        0 <= i < a.len() implies is_space(a[i]) == is_space(b[i]) by {
        assert(same_letter(a[i], b[i]));
    }
    if p < q {
        assert(!is_space(b[p]) && !is_space(b[q - 1]));
        assert(r <= p && q <= s);
        assert(!is_space(a[r]) && !is_space(a[s - 1]));
    } else if r < s {
        assert(!is_space(a[r]));
    }
    assert forall|i: int| 0 <= i < trimmed(a).len() implies same_letter(
        trimmed(a)[i],
        trimmed(b)[i],
    ) by {
        assert(same_letter(a[p + i], b[p + i]));
    }
    law_lower(trimmed(a), trimmed(b));
}

/// A text is part of another where its characters stand in it one after the
/// other.
pub proof fn law_holds_text(hay: Seq<char>, needle: Seq<char>)
    ensures
        holds_text(hay, needle) == exists|at: int|
            0 <= at && at + needle.len() <= hay.len() && #[trigger] stands_at(hay, needle, at),
{
    if holds_text(hay, needle) {
        let at = choose|i: int|
            0 <= i && i + needle.len() <= hay.len() && #[trigger] hay.subrange(
                i,
                i + needle.len(),
            ) == needle;
        let part = hay.subrange(at, at + needle.len());
        assert forall|k: int| 0 <= k < needle.len() implies #[trigger] needle[k] == hay[at + k] by {
            assert(part[k] == hay[at + k]);
        }
        assert(stands_at(hay, needle, at));
    }
    if exists|at: int|
        0 <= at && at + needle.len() <= hay.len() && #[trigger] stands_at(hay, needle, at) {
        let at = choose|at: int|
            0 <= at && at + needle.len() <= hay.len() && #[trigger] stands_at(hay, needle, at);
        assert(hay.subrange(at, at + needle.len()) =~= needle);
    }
}

/// Whether the characters of a text stand in another from a place on.
pub open spec fn stands_at(hay: Seq<char>, needle: Seq<char>, at: int) -> bool {
    forall|k: int| 0 <= k < needle.len() ==> #[trigger] needle[k] == hay[at + k]
}

/// The order of texts goes by the first character in which they differ; where
/// one is the beginning of the other, it comes first.
pub proof fn law_comes_before(a: Seq<char>, b: Seq<char>, n: int)
    requires
        0 <= n <= a.len(),
        n <= b.len(),
        a.take(n) == b.take(n),
    ensures
        n < a.len() && n < b.len() && a[n] < b[n] ==> comes_before(a, b) && !comes_before(b, a),
        n == a.len() && n < b.len() ==> comes_before(a, b) && !comes_before(b, a),
        n == a.len() && n == b.len() ==> !comes_before(a, b),
    decreases n,
{
    if n > 0 {
        assert(a.take(n)[0] == a[0] && b.take(n)[0] == b[0]);
        let (ar, br) = (a.drop_first(), b.drop_first());
        assert(ar.take(n - 1) =~= a.take(n).drop_first());
        assert(br.take(n - 1) =~= b.take(n).drop_first());
        law_comes_before(ar, br, n - 1);
    }
}

/// What a numeral of digits says.
pub open spec fn numeral_value(s: Seq<char>) -> int
    decreases s.len(),
{
    if s.len() == 0 {
        0
    } else {
        10 * numeral_value(s.drop_last()) + (s.last() as int - '0' as int)
    }
}

/// The numeral of a number says that number, in digits only, and begins with a
/// zero for zero alone.
pub proof fn law_decimal(n: nat)
    ensures
        numeral_value(decimal(n)) == n,
        decimal(n).len() >= 1,
        forall|i: int| 0 <= i < decimal(n).len() ==> '0' <= #[trigger] decimal(n)[i] <= '9',
        n > 0 ==> decimal(n)[0] != '0',
    decreases n,
{
    reveal_with_fuel(numeral_value, 2);
    if n >= 10 {
        law_decimal(n / 10);
        let s = decimal(n / 10);
        assert(decimal(n).drop_last() =~= s);
        assert(decimal(n)[0] == s[0]);
    } else {
        assert(decimal(n).drop_last() =~= Seq::empty());
    }
}

/// A numeral of at least two digits still says its number.
pub proof fn law_padded(n: nat)
    ensures
        numeral_value(padded(n)) == n,
        padded(n).len() >= 2,
        n < 100 ==> padded(n).len() == 2,
{
    law_decimal(n);
    reveal_with_fuel(numeral_value, 3);
    reveal_with_fuel(decimal, 3);
    if n < 10 {
        assert(padded(n).drop_last() =~= seq!['0']);
        assert(padded(n).drop_last().drop_last() =~= Seq::empty());
    } else {
        law_decimal(n / 10);
    }
}

} // verus!
