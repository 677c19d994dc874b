//! Phone numbers: the canonical `+98XXXXXXXXXX` form of an Iranian mobile number.

use vstd::prelude::*;
use crate::text::{chars_of, is_digit, push_char};
use vstd::string::*;

verus! {

/// The digits of a text, in order, everything else dropped.
pub open spec fn keep_digits(s: Seq<char>) -> Seq<char>
    decreases s.len(),
{
    if s.len() == 0 {
        s
    } else if is_digit(s.last()) {
        keep_digits(s.drop_last()).push(s.last())
    } else {
        keep_digits(s.drop_last())
    }
}

/// Whether `s` begins with `p`.
pub open spec fn has_prefix(s: Seq<char>, p: Seq<char>) -> bool {
    p.len() <= s.len() && s.take(p.len() as int) == p
}

/// `s` with every leading repetition of the non-empty `p` removed.
pub open spec fn strip_repeated(s: Seq<char>, p: Seq<char>) -> Seq<char>
    decreases s.len(),
{
    if p.len() > 0 && has_prefix(s, p) {
        strip_repeated(s.skip(p.len() as int), p)
    } else {
        s
    }
}

/// The national part of a number's digits: a leading `0098`, `98` or `0`
/// prefix (the first of these that matches) is removed, with all its
/// repetitions.
pub open spec fn national_part(d: Seq<char>) -> Seq<char> {
    if has_prefix(d, "0098"@) {
        strip_repeated(d, "0098"@)
    } else if has_prefix(d, "98"@) {
        strip_repeated(d, "98"@)
    } else if has_prefix(d, "0"@) {
        strip_repeated(d, "0"@)
    } else {
        d
    }
}

/// The canonical form of a phone number: `+98` followed by exactly ten
/// national digits, or nothing when the number does not have ten.
pub open spec fn normalized_phone(raw: Seq<char>) -> Option<Seq<char>> {
    let n = national_part(keep_digits(raw));
    if n.len() == 10 {
        Some("+98"@ + n)
    } else {
        None
    }
}

/// Whether `v` holds `p` at position `start`.
fn prefix_at(v: &Vec<char>, start: usize, p: &Vec<char>) -> (r: bool)
    requires
        start <= v.len(),
    ensures
        r == has_prefix(v@.skip(start as int), p@),
{
    if p.len() > v.len() - start {
        return false;
    }
    let mut i: usize = 0;
    while i < p.len()
        invariant
            start <= v.len(),
            p.len() <= v.len() - start,
            i <= p.len(),
            forall|j: int| 0 <= j < i ==> v@[start + j] == p@[j],
        decreases p.len() - i,
    {
        if v[start + i] != p[i] {
            assert(v@.skip(start as int).take(p.len() as int)[i as int] != p@[i as int]);
            return false;
        }
        i = i + 1;
    }
    assert(v@.skip(start as int).take(p.len() as int) =~= p@);
    true
}

/// Skipping `p` while `v` holds it at the current position.
fn skip_repeated(v: &Vec<char>, p: &Vec<char>) -> (start: usize)
    requires
        p.len() > 0,
    ensures
        start <= v.len(),
        v@.skip(start as int) == strip_repeated(v@, p@),
{
    let mut start: usize = 0;
    assert(v@.skip(0) =~= v@);
    while prefix_at(v, start, p)
        invariant
            p.len() > 0,
            start <= v.len(),
            strip_repeated(v@.skip(start as int), p@) == strip_repeated(v@, p@),
        decreases v.len() - start,
    {
        assert(v@.skip(start as int).skip(p.len() as int) =~= v@.skip(start + p.len()));
        start = start + p.len();
    }
    start
}

/// Canonical form of a phone number as typed or shared: only the digits are
/// kept, a `0098`, `98` or `0` prefix is dropped, and ten digits must remain;
/// they come back as `+98` followed by those ten digits.
pub fn normalize_phone(raw: &str) -> (r: Option<String>)
    ensures
        match r {
            Some(s) => normalized_phone(raw@) == Some(s@),
            None => normalized_phone(raw@) is None,
        },
{
    let cs = chars_of(raw);
    let mut digits: Vec<char> = Vec::new();
    let mut i: usize = 0;
    while i < cs.len()
        invariant
            i <= cs.len(),
            cs@ == raw@,
            digits@ == keep_digits(cs@.take(i as int)),
        decreases cs.len() - i,
    {
        let c = cs[i];
        assert(cs@.take(i + 1).drop_last() =~= cs@.take(i as int));
        if '0' <= c && c <= '9' {
            digits.push(c);
        }
        i = i + 1;
    }
    assert(cs@.take(cs.len() as int) =~= cs@);
    let p0098 = chars_of("0098");
    let p98 = chars_of("98");
    let p0 = chars_of("0");
    proof {
        reveal_strlit("0098");
        reveal_strlit("98");
        reveal_strlit("0");
    }
    let start: usize = if prefix_at(&digits, 0, &p0098) {
        skip_repeated(&digits, &p0098)
    } else if prefix_at(&digits, 0, &p98) {
        skip_repeated(&digits, &p98)
    } else if prefix_at(&digits, 0, &p0) {
        skip_repeated(&digits, &p0)
    } else {
        0
    };
    assert(digits@.skip(0) =~= digits@);
    let ghost national = digits@.skip(start as int);
    assert(national == national_part(keep_digits(raw@)));
    if digits.len() - start != 10 {
        return None;
    }
    let mut out = String::from_str("+98");
    let mut j: usize = start;
    while j < digits.len()
        invariant
            start <= j <= digits.len(),
            out@ == "+98"@ + digits@.subrange(start as int, j as int),
        decreases digits.len() - j,
    {
        push_char(&mut out, digits[j]);
        assert(digits@.subrange(start as int, j + 1) =~= digits@.subrange(start as int, j as int).push(digits@[j as int]));
        j = j + 1;
    }
    assert(digits@.subrange(start as int, digits.len() as int) =~= national);
    Some(out)
}

/// The canonical form is `+98` and ten digits.
pub proof fn lemma_normalized_phone_shape(raw: Seq<char>)
    ensures
        normalized_phone(raw) matches Some(p) ==> {
            &&& p.len() == 13
            &&& p.take(3) == "+98"@
            &&& forall|i: int| 3 <= i < 13 ==> is_digit(#[trigger] p[i])
        },
{
    reveal_strlit("+98");
    let d = keep_digits(raw);
    lemma_keep_digits_all_digits(raw);
    lemma_national_part_all_digits(d);
    let n = national_part(d);
    if n.len() == 10 {
        let p = "+98"@ + n;
        assert(p.take(3) =~= "+98"@);
        assert forall|i: int| 3 <= i < 13 implies is_digit(#[trigger] p[i]) by {
            assert(p[i] == n[i - 3]);
        }
    }
}

/// `keep_digits` keeps only digits.
pub proof fn lemma_keep_digits_all_digits(s: Seq<char>)
    ensures
        forall|i: int| 0 <= i < keep_digits(s).len() ==> is_digit(#[trigger] keep_digits(s)[i]),
    decreases s.len(),
{
    if s.len() > 0 {
        lemma_keep_digits_all_digits(s.drop_last());
        let k = keep_digits(s);
        let p = keep_digits(s.drop_last());
        assert forall|i: int| 0 <= i < k.len() implies is_digit(#[trigger] k[i]) by {
            if i < p.len() {
                assert(k[i] == p[i]);
            }
        }
    }
}

/// Removing leading repetitions keeps a suffix.
pub proof fn lemma_strip_is_suffix(s: Seq<char>, p: Seq<char>)
    ensures
        exists|k: int| 0 <= k <= s.len() && strip_repeated(s, p) == #[trigger] s.skip(k),
    decreases s.len(),
{
    if p.len() > 0 && has_prefix(s, p) {
        lemma_strip_is_suffix(s.skip(p.len() as int), p);
        let k = choose|k: int| 0 <= k <= s.skip(p.len() as int).len()
            && strip_repeated(s.skip(p.len() as int), p) == #[trigger] s.skip(p.len() as int).skip(k);
        assert(s.skip(p.len() as int).skip(k) =~= s.skip(p.len() + k));
    } else {
        assert(s.skip(0) =~= s);
    }
}

/// The national part of all-digit text is all digits.
pub proof fn lemma_national_part_all_digits(d: Seq<char>)
    requires
        forall|i: int| 0 <= i < d.len() ==> is_digit(#[trigger] d[i]),
    ensures
        forall|i: int| 0 <= i < national_part(d).len() ==> is_digit(#[trigger] national_part(d)[i]),
{
    lemma_strip_is_suffix(d, "0098"@);
    lemma_strip_is_suffix(d, "98"@);
    lemma_strip_is_suffix(d, "0"@);
    let n = national_part(d);
    let k = choose|k: int| 0 <= k <= d.len() && n == #[trigger] d.skip(k);
    assert forall|i: int| 0 <= i < n.len() implies is_digit(#[trigger] n[i]) by {
        assert(n[i] == d[k + i]);
    }
}

/// Keeping the digits of two texts one after the other.
pub proof fn lemma_keep_digits_concat(a: Seq<char>, b: Seq<char>)
    ensures
        keep_digits(a + b) == keep_digits(a) + keep_digits(b),
    decreases b.len(),
{
    if b.len() == 0 {
        assert(a + b =~= a);
        assert(keep_digits(b) =~= Seq::<char>::empty());
        assert(keep_digits(a) + keep_digits(b) =~= keep_digits(a));
    } else {
        lemma_keep_digits_concat(a, b.drop_last());
        assert((a + b).drop_last() =~= a + b.drop_last());
        assert((a + b).last() == b.last());
        if is_digit(b.last()) {
            assert(keep_digits(a) + keep_digits(b.drop_last()).push(b.last())
                =~= (keep_digits(a) + keep_digits(b.drop_last())).push(b.last()));
        }
    }
}

/// Text made only of digits keeps all of them.
pub proof fn lemma_keep_digits_of_digits(s: Seq<char>)
    requires
        forall|i: int| 0 <= i < s.len() ==> is_digit(#[trigger] s[i]),
    ensures
        keep_digits(s) == s,
    decreases s.len(),
{
    if s.len() > 0 {
        lemma_keep_digits_of_digits(s.drop_last());
        assert(is_digit(s[s.len() - 1]));
        assert(s.drop_last().push(s.last()) =~= s);
    }
}

/// Normalizing a canonical number gives it back, unless its national part
/// itself begins with `98` (that prefix is then taken for the country code
/// and stripped again).
pub proof fn lemma_normalize_phone_idempotent(raw: Seq<char>, p: Seq<char>)
    requires
        normalized_phone(raw) == Some(p),
        !has_prefix(p.skip(3), "98"@),
    ensures
        normalized_phone(p) == Some(p),
{
    reveal_strlit("+98");
    reveal_strlit("98");
    reveal_strlit("0098");
    lemma_normalized_phone_shape(raw);
    let n = p.skip(3);
    assert(p =~= "+98"@ + n);
    assert forall|i: int| 0 <= i < n.len() implies is_digit(#[trigger] n[i]) by {
        assert(n[i] == p[i + 3]);
    }
    lemma_keep_digits_of_digits(n);
    let plus98 = "+98"@;
    let a = seq!['+'];
    let b = a.push('9');
    let c = b.push('8');
    assert(plus98 =~= c);
    assert(a.drop_last() =~= Seq::<char>::empty());
    assert(a.last() == '+');
    assert(keep_digits(Seq::<char>::empty()) =~= Seq::<char>::empty());
    assert(keep_digits(a) =~= Seq::<char>::empty());
    assert(b.drop_last() =~= a);
    assert(b.last() == '9');
    assert(keep_digits(b) =~= seq!['9']);
    assert(c.drop_last() =~= b);
    assert(c.last() == '8');
    assert(keep_digits(c) =~= seq!['9', '8']);
    lemma_keep_digits_concat(plus98, n);
    let d = keep_digits(p);
    assert(d =~= "98"@ + n);
    assert(!has_prefix(d, "0098"@)) by {
        if has_prefix(d, "0098"@) {
            assert(d.take(4)[0] == "0098"@[0]);
        }
    }
    assert(d.take(2) =~= "98"@);
    assert(has_prefix(d, "98"@));
    assert(d.skip(2) =~= n);
    assert(strip_repeated(n, "98"@) == n);
    assert(national_part(d) == n);
}

} // verus!
