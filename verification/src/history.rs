//! Bounded FIFO buffer of accepted prices.
//!
//! The buffer keeps at most [`crate::NUM_VEC_LEN`] prices in arrival order.
//! When it is full, the oldest entry is evicted before the newest is
//! appended, so the buffer always holds exactly the most recent prices.
//! It is mutated only by the execution path of an admitted submission;
//! the host serializes those executions.

use vstd::prelude::*;
use std::collections::VecDeque;
use crate::NUM_VEC_LEN;

verus! {

/// Ordered, bounded sequence of accepted prices.
pub struct PriceHistory {
    prices: VecDeque<u64>,
}

impl View for PriceHistory {
    type V = Seq<u64>;

    closed spec fn view(&self) -> Seq<u64> {
        self.prices@
    }
}

/// One append step of the buffer: evict the oldest entry first when the
/// buffer is full, then append the new price at the tail.
pub open spec fn spec_appended(s: Seq<u64>, price: u64) -> Seq<u64> {
    if s.len() < NUM_VEC_LEN {
        s.push(price)
    } else {
        s.subrange(1, s.len() as int).push(price)
    }
}

/// The buffer after a whole sequence of appends, oldest first.
pub open spec fn spec_appended_all(s: Seq<u64>, prices: Seq<u64>) -> Seq<u64>
    decreases prices.len(),
{
    if prices.len() == 0 {
        s
    } else {
        spec_appended_all(spec_appended(s, prices[0]), prices.subrange(1, prices.len() as int))
    }
}

impl PriceHistory {
    /// The buffer never outgrows its capacity.
    pub open spec fn well_formed(&self) -> bool {
        self@.len() <= NUM_VEC_LEN
    }

    /// The buffer starts empty at genesis.
    pub fn new() -> (h: PriceHistory)
        ensures
            h@ == Seq::<u64>::empty(),
            h.well_formed(),
    {
        PriceHistory { prices: VecDeque::new() }
    }

    pub fn len(&self) -> (n: usize)
        ensures
            n == self@.len(),
    {
        self.prices.len()
    }

    /// The only mutator of the buffer: strict FIFO append with eviction of
    /// the oldest entry once the capacity is reached.
    pub fn append_or_replace_price(&mut self, price: u64)
        requires
            old(self).well_formed(),
        ensures
            final(self)@ == spec_appended(old(self)@, price),
            final(self).well_formed(),
    {
        if self.prices.len() == NUM_VEC_LEN {
            let _ = self.prices.pop_front();
        }
        self.prices.push_back(price);
    }

    /// Read-only query surface: the current buffer contents, oldest first.
    pub fn get_price(&self) -> (v: Vec<u64>)
        ensures
            v@ == self@,
    {
        let mut v: Vec<u64> = Vec::new();
        let mut i: usize = 0;
        while i < self.prices.len()
            invariant
                0 <= i <= self@.len(),
                v@ == self@.subrange(0, i as int),
            decreases self@.len() - i,
        {
            let p: u64 = self.prices[i];
            v.push(p);
            i = i + 1;
            assert(v@ =~= self@.subrange(0, i as int));
        }
        assert(v@ =~= self@);
        v
    }
}

/// Buffer bound law: starting from any well-formed buffer contents, after any
/// sequence of appends the buffer holds at most [`NUM_VEC_LEN`] entries, and
/// those entries are exactly the most recent prices in arrival order: the
/// tail of the initial contents followed by the appended prices.
pub proof fn lemma_buffer_keeps_last(s: Seq<u64>, prices: Seq<u64>)
    requires
        s.len() <= NUM_VEC_LEN,
    ensures
        spec_appended_all(s, prices).len() <= NUM_VEC_LEN,
        spec_appended_all(s, prices) == (s + prices).subrange(
            if s.len() + prices.len() > NUM_VEC_LEN {
                s.len() + prices.len() - NUM_VEC_LEN
            } else {
                0
            },
            (s.len() + prices.len()) as int,
        ),
    decreases prices.len(),
{
    if prices.len() == 0 {
        assert(s + prices =~= s);
        assert((s + prices).subrange(0, s.len() as int) =~= s);
    } else {
        let p = prices[0];
        let rest = prices.subrange(1, prices.len() as int);
        let s1 = spec_appended(s, p);
        lemma_buffer_keeps_last(s1, rest);
        if s.len() < NUM_VEC_LEN {
            assert(s1 + rest =~= s + prices);
        } else {
            assert(s1 + rest =~= (s + prices).subrange(1, (s.len() + prices.len()) as int));
            let total = s.len() + prices.len();
            let drop = total - NUM_VEC_LEN;
            assert((s + prices).subrange(1, total as int).subrange(
                drop - 1,
                (total - 1) as int,
            ) =~= (s + prices).subrange(drop as int, total as int));
        }
    }
}

} // verus!
