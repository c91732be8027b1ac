//! The rates of one table: for each currency code at most one rate.
//!
//! A rate is kept as the bit pattern of a single-precision number. The library
//! never computes with it; it stores it, finds it again and hands it out.

use crate::text::same_text;
use vstd::prelude::*;

verus! {

/// Whether some pair of `pairs` carries `code`.
pub open spec fn has_code(pairs: Seq<(Seq<char>, u32)>, code: Seq<char>) -> bool {
    exists|i: int| 0 <= i < pairs.len() && (#[trigger] pairs[i]).0 == code
}

/// A place in `pairs` at which `code` stands, if it stands anywhere.
pub open spec fn position(pairs: Seq<(Seq<char>, u32)>, code: Seq<char>) -> int {
    choose|i: int| 0 <= i < pairs.len() && (#[trigger] pairs[i]).0 == code
}

/// The rate that `pairs` gives for `code`.
pub open spec fn rate_of(pairs: Seq<(Seq<char>, u32)>, code: Seq<char>) -> Option<u32> {
    if has_code(pairs, code) {
        Some(pairs[position(pairs, code)].1)
    } else {
        None
    }
}

/// No code stands at two places of `pairs`.
pub open spec fn distinct_codes(pairs: Seq<(Seq<char>, u32)>) -> bool {
    forall|i: int, j: int|
        0 <= i < j < pairs.len() ==> (#[trigger] pairs[i]).0 != (#[trigger] pairs[j]).0
}

/// `pairs` after `code` has been given `rate`: the pair of `code` is
/// replaced where it stands, or a new pair is added at the end.
pub open spec fn with_rate(pairs: Seq<(Seq<char>, u32)>, code: Seq<char>, rate: u32) -> Seq<
    (Seq<char>, u32),
> {
    if has_code(pairs, code) {
        pairs.update(position(pairs, code), (code, rate))
    } else {
        pairs.push((code, rate))
    }
}

/// Among pairs with distinct codes, the place of a code is the only place
/// that carries it.
pub proof fn lemma_position_is_unique(pairs: Seq<(Seq<char>, u32)>, at: int)
    requires
        distinct_codes(pairs),
        0 <= at < pairs.len(),
    ensures
        has_code(pairs, pairs[at].0),
        position(pairs, pairs[at].0) == at,
        rate_of(pairs, pairs[at].0) == Some(pairs[at].1),
{
    let code = pairs[at].0;
    let found = position(pairs, code);
    assert(0 <= found < pairs.len() && pairs[found].0 == code);
    if found < at {
        assert(pairs[found].0 != pairs[at].0);
    } else if at < found {
        assert(pairs[at].0 != pairs[found].0);
    }
}

/// Giving a code a rate keeps the codes distinct.
pub proof fn lemma_with_rate_keeps_codes_distinct(
    pairs: Seq<(Seq<char>, u32)>,
    code: Seq<char>,
    rate: u32,
)
    requires
        distinct_codes(pairs),
    ensures
        distinct_codes(with_rate(pairs, code, rate)),
        rate_of(with_rate(pairs, code, rate), code) == Some(rate),
{
    let after = with_rate(pairs, code, rate);
    let at = if has_code(pairs, code) {
        position(pairs, code)
    } else {
        pairs.len() as int
    };
    assert(0 <= at < after.len() && after[at] == (code, rate));
    assert forall|i: int, j: int| 0 <= i < j < after.len() implies (#[trigger] after[i]).0 != (
    #[trigger] after[j]).0 by {
        if i < pairs.len() && j < pairs.len() {
            assert(pairs[i].0 != pairs[j].0);
        } else {
            assert(!has_code(pairs, code));
            assert(pairs[i].0 != code);
        }
    }
    lemma_position_is_unique(after, at);
}

/// The pairs of a vector as plain values.
spec fn plain(pairs: Seq<(String, u32)>) -> Seq<(Seq<char>, u32)> {
    Seq::new(pairs.len(), |i: int| (pairs[i].0@, pairs[i].1))
}

/// Rates by currency code, in the order in which the codes were first
/// inserted. No code occurs twice.
#[derive(Debug)]
pub struct Rates {
    pairs: Vec<(String, u32)>,
}

impl View for Rates {
    type V = Seq<(Seq<char>, u32)>;

    closed spec fn view(&self) -> Seq<(Seq<char>, u32)> {
        plain(self.pairs@)
    }
}

impl Rates {
    #[verifier::type_invariant]
    spec fn codes_are_distinct(&self) -> bool {
        distinct_codes(self@)
    }

    /// A collection without rates.
    pub fn new() -> (rates: Rates)
        ensures
            rates@ == Seq::<(Seq<char>, u32)>::empty(),
    {
        Rates { pairs: Vec::new() }
    }

    /// The number of codes.
    pub fn len(&self) -> (n: usize)
        ensures
            n == self@.len(),
            distinct_codes(self@),
    {
        proof {
            use_type_invariant(self);
        }
        self.pairs.len()
    }

    /// The pair at place `at`, counted from zero in the order of insertion.
    pub fn pair(&self, at: usize) -> (pair: Option<(&str, u32)>)
        ensures
            match pair {
                Some((code, rate)) => at < self@.len() && (code@, rate) == self@[at as int],
                None => at >= self@.len(),
            },
    {
        if at < self.pairs.len() {
            Some((self.pairs[at].0.as_str(), self.pairs[at].1))
        } else {
            None
        }
    }

    /// The first place at which `code` stands.
    fn find(&self, code: &str) -> (at: Option<usize>)
        ensures
            match at {
                Some(i) => i < self@.len() && self@[i as int].0 == code@,
                None => !has_code(self@, code@),
            },
    {
        let mut i: usize = 0;
        while i < self.pairs.len()
            invariant
                i <= self@.len(),
                self@.len() == self.pairs@.len(),
                forall|k: int| 0 <= k < i ==> (#[trigger] self@[k]).0 != code@,
            decreases self@.len() - i,
        {
            if same_text(self.pairs[i].0.as_str(), code) {
                return Some(i);
            }
            i += 1;
        }
        None
    }

    /// The rate of `code`, if the collection has one.
    pub fn get(&self, code: &str) -> (rate: Option<u32>)
        ensures
            rate == rate_of(self@, code@),
    {
        match self.find(code) {
            Some(i) => {
                proof {
                    use_type_invariant(self);
                    lemma_position_is_unique(self@, i as int);
                }
                Some(self.pairs[i].1)
            },
            None => None,
        }
    }

    /// Gives `code` the rate `rate`, and returns the rate that it had before.
    /// A code that is new goes to the end; one that is known keeps its place.
    pub fn insert(&mut self, code: String, rate: u32) -> (before: Option<u32>)
        ensures
            final(self)@ == with_rate(old(self)@, code@, rate),
            before == rate_of(old(self)@, code@),
    {
        proof {
            use_type_invariant(&*self);
        }
        let found = self.find(code.as_str());
        // The vector is taken out while it changes and put back when it is
        // done, so that the collection never holds a half-changed one.
        let mut pairs: Vec<(String, u32)> = Vec::new();
        core::mem::swap(&mut self.pairs, &mut pairs);
        let before = match found {
            Some(i) => {
                proof {
                    lemma_position_is_unique(old(self)@, i as int);
                }
                let before = pairs[i].1;
                pairs.set(i, (code, rate));
                Some(before)
            },
            None => {
                pairs.push((code, rate));
                None
            },
        };
        proof {
            lemma_with_rate_keeps_codes_distinct(old(self)@, code@, rate);
            assert(plain(pairs@) == with_rate(old(self)@, code@, rate));
        }
        core::mem::swap(&mut self.pairs, &mut pairs);
        before
    }
}

impl Clone for Rates {
    /// A copy with the same pairs in the same order.
    fn clone(&self) -> (copy: Rates)
        ensures
            copy@ == self@,
            distinct_codes(copy@),
    {
        proof {
            use_type_invariant(self);
        }
        let mut pairs: Vec<(String, u32)> = Vec::new();
        let mut i: usize = 0;
        while i < self.pairs.len()
            invariant
                i <= self.pairs@.len(),
                pairs@.len() == i,
                forall|k: int|
                    0 <= k < i ==> (#[trigger] pairs@[k]).0@ == self.pairs@[k].0@ && pairs@[k].1
                        == self.pairs@[k].1,
            decreases self.pairs@.len() - i,
        {
            pairs.push((self.pairs[i].0.clone(), self.pairs[i].1));
            i += 1;
        }
        assert(plain(pairs@) == self@);
        Rates { pairs }
    }
}

} // verus!
