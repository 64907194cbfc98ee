//! The bounded history of recently emitted tokens that the repetition
//! penalty scans.

use vstd::prelude::*;

verus! {

/// What one `record` call leaves in the history: the token is appended, and
/// if the bound is now exceeded the oldest entry is evicted.
pub open spec fn spec_record(history: Seq<i32>, token: i32, bound: nat) -> Seq<i32> {
    let pushed = history.push(token);
    if pushed.len() <= bound {
        pushed
    } else {
        pushed.skip(1)
    }
}

/// What a whole run of `record` calls leaves in the history: `tokens` folded
/// in one by one, oldest-first eviction at each step.
pub open spec fn spec_record_all(history: Seq<i32>, tokens: Seq<i32>, bound: nat) -> Seq<i32>
    decreases tokens.len(),
{
    if tokens.len() == 0 {
        history
    } else {
        spec_record_all(spec_record(history, tokens[0], bound), tokens.skip(1), bound)
    }
}

/// An ordered history of emitted token identifiers, bounded to at most
/// `bound` entries by first-in-first-out eviction.
///
/// The tracker is only the scan source of the repetition penalty; the penalty
/// itself is applied by the native filter stage.
#[derive(Clone, Debug)]
pub struct RepetitionTracker {
    entries: Vec<i32>,
}

impl View for RepetitionTracker {
    type V = Seq<i32>;

    closed spec fn view(&self) -> Seq<i32> {
        self.entries@
    }
}

impl RepetitionTracker {
    /// An empty history.
    pub fn new() -> (r: RepetitionTracker)
        ensures
            r@ == Seq::<i32>::empty(),
    {
        RepetitionTracker { entries: Vec::new() }
    }

    /// How many tokens the history holds.
    pub fn len(&self) -> (r: usize)
        ensures
            r == self@.len(),
    {
        self.entries.len()
    }

    /// Forget everything.
    pub fn clear(&mut self)
        ensures
            final(self)@ == Seq::<i32>::empty(),
    {
        self.entries.clear();
    }

    /// Read access to the raw identifiers, oldest first, for handing the
    /// scan window to the native penalty stage.
    pub fn raw_entries(&self) -> (r: &Vec<i32>)
        ensures
            r@ == self@,
    {
        &self.entries
    }

    /// Append `token`, then evict the oldest entry if the history now exceeds
    /// `bound` entries.
    pub fn record(&mut self, token: i32, bound: usize)
        ensures
            final(self)@ == spec_record(old(self)@, token, bound as nat),
    {
        self.entries.push(token);
        if self.entries.len() > bound {
            self.entries.remove(0);
        }
        proof {
            assert(self.entries@ =~= spec_record(old(self)@, token, bound as nat));
        }
    }

    /// The bound law of the history: a history within its bound stays within
    /// it across any `record` call.
    pub proof fn lemma_record_stays_bounded(history: Seq<i32>, token: i32, bound: nat)
        requires
            history.len() <= bound,
        ensures
            spec_record(history, token, bound).len() <= bound,
    {
    }

    /// The bound law over whole runs: recording any sequence of tokens, one
    /// by one, into a history within its bound leaves a history within its
    /// bound — in particular, one grown only through `record` never holds
    /// more than `bound` entries.
    pub proof fn lemma_record_all_stays_bounded(history: Seq<i32>, tokens: Seq<i32>, bound: nat)
        requires
            history.len() <= bound,
        ensures
            spec_record_all(history, tokens, bound).len() <= bound,
        decreases tokens.len(),
    {
        if tokens.len() > 0 {
            Self::lemma_record_stays_bounded(history, tokens[0], bound);
            Self::lemma_record_all_stays_bounded(
                spec_record(history, tokens[0], bound),
                tokens.skip(1),
                bound,
            );
        }
    }

    /// The eviction law: recording into a full history drops exactly the
    /// oldest entry, keeps the rest in order, and appends the new token.
    pub proof fn lemma_record_evicts_oldest(history: Seq<i32>, token: i32, bound: nat)
        requires
            history.len() == bound,
            bound >= 1,
        ensures
            spec_record(history, token, bound) == history.skip(1).push(token),
    {
        assert(spec_record(history, token, bound) =~= history.skip(1).push(token));
    }
}

} // verus!
