//! Button data: `feature:action[:payload...]`.

use vstd::prelude::*;
use crate::text::{chars_of, string_of_chars};

verus! {

/// The parts of `s` between the `:` separators, in order (at least one part).
pub open spec fn split_colon(s: Seq<char>) -> Seq<Seq<char>>
    decreases s.len(),
{
    if s.len() == 0 {
        seq![Seq::<char>::empty()]
    } else {
        let prev = split_colon(s.drop_last());
        if s.last() == ':' {
            prev.push(Seq::<char>::empty())
        } else {
            prev.update(prev.len() - 1, prev.last().push(s.last()))
        }
    }
}

/// The parts joined with `:` between them.
pub open spec fn join_colon(parts: Seq<Seq<char>>) -> Seq<char>
    decreases parts.len(),
{
    if parts.len() <= 1 {
        if parts.len() == 1 { parts[0] } else { Seq::<char>::empty() }
    } else {
        join_colon(parts.drop_last()) + seq![':'] + parts.last()
    }
}

/// Whether a text holds no `:`.
pub open spec fn colon_free(s: Seq<char>) -> bool {
    forall|i: int| 0 <= i < s.len() ==> s[i] != ':'
}

/// The texts held by a sequence of strings.
pub open spec fn string_views(v: Seq<String>) -> Seq<Seq<char>> {
    v.map_values(|s: String| s@)
}

/// Button data read into its parts.
#[derive(Debug)]
pub struct CallbackData {
    pub feature: String,
    pub action: String,
    pub payload: Vec<String>,
}

/// The parts of a text between its `:` separators.
pub fn split_parts(data: &str) -> (parts: Vec<String>)
    ensures
        string_views(parts@) == split_colon(data@),
{
    let cs = chars_of(data);
    let mut done: Vec<String> = Vec::new();
    let mut cur: Vec<char> = Vec::new();
    let mut i: usize = 0;
    while i < cs.len()
        invariant
            i <= cs.len(),
            cs@ == data@,
            string_views(done@).push(cur@) == split_colon(cs@.take(i as int)),
        decreases cs.len() - i,
    {
        let c = cs[i];
        let ghost before = cs@.take(i as int);
        assert(cs@.take(i + 1).drop_last() =~= before);
        assert(cs@.take(i + 1).last() == c);
        proof { lemma_split_colon_nonempty(before); }
        if c == ':' {
            let part = string_of_chars(&cur);
            done.push(part);
            cur = Vec::new();
            assert(string_views(done@).push(cur@) =~= split_colon(before).push(Seq::<char>::empty()));
        } else {
            cur.push(c);
            assert(string_views(done@).push(cur@) =~= split_colon(before).update(
                split_colon(before).len() - 1, split_colon(before).last().push(c)));
        }
        i = i + 1;
    }
    assert(cs@.take(cs.len() as int) =~= cs@);
    let last = string_of_chars(&cur);
    let mut all = done;
    all.push(last);
    assert(string_views(all@) =~= split_colon(data@));
    all
}

impl CallbackData {
    /// Splits button data at `:` into the feature, the action and the rest;
    /// data without an action part is not button data.
    pub fn parse(data: &str) -> (r: Option<CallbackData>)
        ensures
            match r {
                Some(cb) => {
                    let parts = split_colon(data@);
                    &&& parts.len() >= 2
                    &&& cb.feature@ == parts[0]
                    &&& cb.action@ == parts[1]
                    &&& string_views(cb.payload@) == parts.skip(2)
                },
                None => split_colon(data@).len() < 2,
            },
    {
        let mut all = split_parts(data);
        let ghost parts = split_colon(data@);
        if all.len() < 2 {
            return None;
        }
        let payload = all.split_off(2);
        assert(string_views(payload@) =~= parts.skip(2));
        let action = all.pop().unwrap();
        let feature = all.pop().unwrap();
        proof {
            assert(feature@ == parts[0]);
            assert(action@ == parts[1]);
        }
        Some(CallbackData { feature, action, payload })
    }
}

/// Splitting always gives at least one part.
pub proof fn lemma_split_colon_nonempty(s: Seq<char>)
    ensures
        split_colon(s).len() >= 1,
    decreases s.len(),
{
    if s.len() > 0 {
        lemma_split_colon_nonempty(s.drop_last());
    }
}

/// A text without `:` is a single part.
pub proof fn lemma_split_colon_free(s: Seq<char>)
    requires
        colon_free(s),
    ensures
        split_colon(s) == seq![s],
    decreases s.len(),
{
    if s.len() > 0 {
        lemma_split_colon_free(s.drop_last());
        assert(s.drop_last().push(s.last()) =~= s);
        assert(s.last() == s[s.len() - 1]);
        assert(seq![s.drop_last()].update(0, s.drop_last().push(s.last())) =~= seq![s]);
    } else {
        assert(s =~= Seq::<char>::empty());
    }
}

/// Splitting at a `:` splits the two sides separately.
pub proof fn lemma_split_colon_concat(x: Seq<char>, y: Seq<char>)
    ensures
        split_colon(x + seq![':'] + y) == split_colon(x) + split_colon(y),
    decreases y.len(),
{
    lemma_split_colon_nonempty(x);
    if y.len() == 0 {
        assert(x + seq![':'] + y =~= x.push(':'));
        assert(x.push(':').drop_last() =~= x);
        assert(split_colon(x) + split_colon(y) =~= split_colon(x).push(Seq::<char>::empty()));
    } else {
        let y0 = y.drop_last();
        let c = y.last();
        lemma_split_colon_concat(x, y0);
        lemma_split_colon_nonempty(y0);
        let whole = x + seq![':'] + y;
        assert(whole.drop_last() =~= x + seq![':'] + y0);
        assert(whole.last() == c);
        if c == ':' {
            assert(split_colon(whole) =~= split_colon(x) + split_colon(y));
        } else {
            let sx = split_colon(x);
            let sy0 = split_colon(y0);
            assert((sx + sy0).update((sx + sy0).len() - 1, (sx + sy0).last().push(c))
                =~= sx + sy0.update(sy0.len() - 1, sy0.last().push(c)));
        }
    }
}

/// Parts without `:` joined with `:` split back into the same parts.
pub proof fn lemma_split_join_colon(parts: Seq<Seq<char>>)
    requires
        parts.len() >= 1,
        forall|i: int| 0 <= i < parts.len() ==> colon_free(#[trigger] parts[i]),
    ensures
        split_colon(join_colon(parts)) == parts,
    decreases parts.len(),
{
    if parts.len() == 1 {
        lemma_split_colon_free(parts[0]);
        assert(seq![parts[0]] =~= parts);
    } else {
        let init = parts.drop_last();
        assert forall|i: int| 0 <= i < init.len() implies colon_free(#[trigger] init[i]) by {
            assert(init[i] == parts[i]);
        }
        lemma_split_join_colon(init);
        assert(colon_free(parts[parts.len() - 1]));
        lemma_split_colon_free(parts.last());
        lemma_split_colon_concat(join_colon(init), parts.last());
        assert(init + seq![parts.last()] =~= parts);
    }
}

/// Button data written as `feature:action:payload...`, with no `:` inside
/// the parts, reads back into the same feature, action and payload.
pub proof fn lemma_callback_data_round_trip(feature: Seq<char>, action: Seq<char>, payload: Seq<Seq<char>>)
    requires
        colon_free(feature),
        colon_free(action),
        forall|i: int| 0 <= i < payload.len() ==> colon_free(#[trigger] payload[i]),
    ensures
        ({
            let parts = split_colon(join_colon(seq![feature, action] + payload));
            &&& parts.len() >= 2
            &&& parts[0] == feature
            &&& parts[1] == action
            &&& parts.skip(2) == payload
        }),
{
    let all = seq![feature, action] + payload;
    assert forall|i: int| 0 <= i < all.len() implies colon_free(#[trigger] all[i]) by {
        if i >= 2 {
            assert(all[i] == payload[i - 2]);
        }
    }
    lemma_split_join_colon(all);
    assert(all.skip(2) =~= payload);
}

} // verus!
