//! How far a batch has come.

use crate::batch::FileOperation;
use crate::text::{decimal, push_decimal};
use crate::usage::DiskUsageSnapshot;
use vstd::prelude::*;
use vstd::string::StringExecFns;

verus! {

/// Bytes and items processed, beside the totals that were measured: the plain
/// numbers of a `ProgressState`.
#[derive(Debug, Clone, Copy, PartialEq, Eq, Structural)]
pub struct ProgressCounts {
    pub processed_bytes: u64,
    pub processed_items: u64,
    pub total_bytes: u64,
    pub total_items: u64,
}

/// How far a batch has come. Neither count ever passes its total.
#[derive(Debug, Clone, Copy)]
pub struct ProgressState {
    counts: ProgressCounts,
}

/// The smaller of two numbers.
pub open spec fn least(a: int, b: int) -> int {
    if a <= b {
        a
    } else {
        b
    }
}

/// The share of `total` that `processed` is, in percent, rounded up: the least
/// `k` with `k * total >= 100 * processed`. With nothing to do all is done.
pub open spec fn percent_of(processed: nat, total: nat) -> nat {
    if total == 0 {
        100
    } else {
        ((100 * processed + total - 1) / total as int) as nat
    }
}

/// `percent_of` is the ceiling of the ratio, and at most 100 while `processed`
/// is within `total`.
pub proof fn lemma_percent_of(processed: nat, total: nat)
    requires
        total > 0,
    ensures
        percent_of(processed, total) * total >= 100 * processed,
        (percent_of(processed, total) - 1) * total < 100 * processed,
        processed <= total ==> percent_of(processed, total) <= 100,
        processed == total ==> percent_of(processed, total) == 100,
{
    let n = (100 * processed + total - 1) as int;
    let t = total as int;
    let k = n / t;
    assert(n == t * k + n % t && 0 <= n % t < t) by (nonlinear_arith)
        requires
            t > 0,
            k == n / t,
    ;
    assert(k >= 0) by (nonlinear_arith)
        requires
            n == t * k + n % t,
            0 <= n % t < t,
            n >= 0,
            t > 0,
    ;
    assert(k * t >= 100 * processed) by (nonlinear_arith)
        requires
            n == t * k + n % t,
            0 <= n % t < t,
            n == 100 * processed + t - 1,
    ;
    assert((k - 1) * t < 100 * processed) by (nonlinear_arith)
        requires
            n == t * k + n % t,
            0 <= n % t < t,
            n == 100 * processed + t - 1,
    ;
    if processed <= total {
        assert(k <= 100) by (nonlinear_arith)
            requires
                (k - 1) * t < 100 * processed,
                processed <= t,
                t > 0,
        ;
    }
    if processed == total {
        assert(k >= 100) by (nonlinear_arith)
            requires
                k * t >= 100 * t,
                t > 0,
        ;
    }
}

/// How much further `current` is than `previous`; nothing where it is not
/// further.
pub open spec fn advance_of(previous: i64, current: i64) -> nat {
    if current > previous {
        (current - previous) as nat
    } else {
        0
    }
}

/// The bytes that a progress report adds: what `current` has gained over the
/// report before it. A report that repeats or falls behind adds nothing.
pub fn positive_delta(previous: i64, current: i64) -> (delta: u64)
    ensures
        delta == advance_of(previous, current),
{
    if current > previous {
        let wide: i128 = current as i128 - previous as i128;
        wide as u64
    } else {
        0
    }
}

/// The verb that the progress message starts with.
pub open spec fn verb_of(operation: FileOperation) -> Seq<char> {
    match operation {
        FileOperation::Copy => "Copying"@,
        FileOperation::Move => "Moving"@,
        FileOperation::Delete => "Deleting"@,
        FileOperation::Trash => "Trashing"@,
    }
}

impl ProgressCounts {
    /// Neither count has passed its total.
    pub open spec fn within_totals(self) -> bool {
        &&& self.processed_bytes <= self.total_bytes
        &&& self.processed_items <= self.total_items
    }

    /// Nothing processed of what `snapshot` measured.
    pub open spec fn starting(snapshot: DiskUsageSnapshot) -> ProgressCounts {
        ProgressCounts {
            processed_bytes: 0,
            processed_items: 0,
            total_bytes: snapshot.total_bytes,
            total_items: snapshot.total_items,
        }
    }

    /// `delta` more bytes processed, stopping at the total.
    pub open spec fn plus_bytes(self, delta: nat) -> ProgressCounts {
        ProgressCounts {
            processed_bytes: least(self.processed_bytes + delta, self.total_bytes as int) as u64,
            ..self
        }
    }

    /// One more item processed, stopping at the total.
    pub open spec fn plus_item(self) -> ProgressCounts {
        ProgressCounts {
            processed_items: least(self.processed_items + 1, self.total_items as int) as u64,
            ..self
        }
    }

    /// Both counts at their totals.
    pub open spec fn completed(self) -> ProgressCounts {
        ProgressCounts {
            processed_bytes: self.total_bytes,
            processed_items: self.total_items,
            ..self
        }
    }

    /// The count that stands for progress of `operation`: bytes for copy and
    /// move, items for delete and trash.
    pub open spec fn dominant_processed(self, operation: FileOperation) -> u64 {
        if operation.counts_bytes() {
            self.processed_bytes
        } else {
            self.processed_items
        }
    }

    /// The total that belongs to `dominant_processed`.
    pub open spec fn dominant_total(self, operation: FileOperation) -> u64 {
        if operation.counts_bytes() {
            self.total_bytes
        } else {
            self.total_items
        }
    }

    /// Progress of `operation` in percent, rounded up.
    pub open spec fn percent(self, operation: FileOperation) -> nat {
        percent_of(
            self.dominant_processed(operation) as nat,
            self.dominant_total(operation) as nat,
        )
    }

    /// Whether `later` has the same totals and has not fallen behind `self`.
    pub open spec fn not_behind(self, later: ProgressCounts) -> bool {
        &&& later.total_bytes == self.total_bytes
        &&& later.total_items == self.total_items
        &&& self.processed_bytes <= later.processed_bytes
        &&& self.processed_items <= later.processed_items
    }
}

/// Counting never takes progress back and never takes it past the totals.
pub proof fn lemma_counting_is_monotonic(counts: ProgressCounts, delta: nat)
    requires
        counts.within_totals(),
    ensures
        counts.not_behind(counts.plus_bytes(delta)),
        counts.plus_bytes(delta).within_totals(),
        counts.not_behind(counts.plus_item()),
        counts.plus_item().within_totals(),
        counts.not_behind(counts.completed()),
        counts.completed().within_totals(),
{
}

impl View for ProgressState {
    type V = ProgressCounts;

    closed spec fn view(&self) -> ProgressCounts {
        self.counts
    }
}

impl ProgressState {
    #[verifier::type_invariant]
    closed spec fn holds_within_totals(&self) -> bool {
        self.counts.within_totals()
    }

    /// Progress of a batch that has processed nothing of what was measured.
    pub fn new(snapshot: DiskUsageSnapshot) -> (progress: Self)
        ensures
            progress@ == ProgressCounts::starting(snapshot),
    {
        ProgressState {
            counts: ProgressCounts {
                processed_bytes: 0,
                processed_items: 0,
                total_bytes: snapshot.total_bytes,
                total_items: snapshot.total_items,
            },
        }
    }

    /// The numbers as they stand; neither count is past its total.
    pub fn counts(&self) -> (counts: ProgressCounts)
        ensures
            counts == self@,
            counts.within_totals(),
    {
        proof {
            use_type_invariant(self);
        }
        self.counts
    }

    /// Bytes processed so far; never more than the total.
    pub fn processed_bytes(&self) -> (n: u64)
        ensures
            n == self@.processed_bytes,
            n <= self@.total_bytes,
    {
        proof {
            use_type_invariant(self);
        }
        self.counts.processed_bytes
    }

    /// Items processed so far; never more than the total.
    pub fn processed_items(&self) -> (n: u64)
        ensures
            n == self@.processed_items,
            n <= self@.total_items,
    {
        proof {
            use_type_invariant(self);
        }
        self.counts.processed_items
    }

    /// Bytes of all sources, as measured.
    pub fn total_bytes(&self) -> (n: u64)
        ensures
            n == self@.total_bytes,
    {
        self.counts.total_bytes
    }

    /// Items of all sources, as measured.
    pub fn total_items(&self) -> (n: u64)
        ensures
            n == self@.total_items,
    {
        self.counts.total_items
    }

    /// Counts `delta` more bytes as processed, stopping at the total.
    pub fn add_bytes(&mut self, delta: u64)
        ensures
            final(self)@ == old(self)@.plus_bytes(delta as nat),
            old(self)@.not_behind(final(self)@),
            final(self)@.within_totals(),
    {
        proof {
            use_type_invariant(&*self);
        }
        let room = self.counts.total_bytes - self.counts.processed_bytes;
        let step = if delta < room {
            delta
        } else {
            room
        };
        self.counts.processed_bytes = self.counts.processed_bytes + step;
    }

    /// Counts one more item as processed, stopping at the total.
    pub fn add_item(&mut self)
        ensures
            final(self)@ == old(self)@.plus_item(),
            old(self)@.not_behind(final(self)@),
            final(self)@.within_totals(),
    {
        proof {
            use_type_invariant(&*self);
        }
        if self.counts.processed_items < self.counts.total_items {
            self.counts.processed_items = self.counts.processed_items + 1;
        }
    }

    /// Sets both counts to their totals: the batch has done all there was.
    pub fn clamp_complete(&mut self)
        ensures
            final(self)@ == old(self)@.completed(),
            old(self)@.not_behind(final(self)@),
            final(self)@.within_totals(),
    {
        proof {
            use_type_invariant(&*self);
        }
        self.counts = ProgressCounts {
            processed_bytes: self.counts.total_bytes,
            processed_items: self.counts.total_items,
            total_bytes: self.counts.total_bytes,
            total_items: self.counts.total_items,
        };
    }

    /// Progress of `operation` in percent, rounded up, from 0 to 100.
    pub fn percent(&self, operation: FileOperation) -> (p: u64)
        ensures
            p == self@.percent(operation),
            p <= 100,
    {
        proof {
            use_type_invariant(self);
        }
        let (processed, total) = if operation.counts_bytes() {
            (self.counts.processed_bytes, self.counts.total_bytes)
        } else {
            (self.counts.processed_items, self.counts.total_items)
        };
        if total == 0 {
            100
        } else {
            proof {
                lemma_percent_of(processed as nat, total as nat);
            }
            let scaled: u128 = 100 * (processed as u128) + (total as u128) - 1;
            (scaled / (total as u128)) as u64
        }
    }

    /// The title of the progress display: the percentage and `% complete`.
    pub fn title(&self, operation: FileOperation) -> (text: String)
        ensures
            text@ == decimal(self@.percent(operation)) + "% complete"@,
    {
        let mut text = String::new();
        push_decimal(&mut text, self.percent(operation));
        text.append("% complete");
        assert(text@ =~= decimal(self@.percent(operation)) + "% complete"@);
        text
    }

    /// The line below the title: the verb of the operation and the items done
    /// of all items.
    pub fn message(&self, operation: FileOperation) -> (text: String)
        ensures
            text@ == verb_of(operation) + " "@ + decimal(self@.processed_items as nat) + "/"@
                + decimal(self@.total_items as nat) + " items "@,
    {
        let mut text = String::new();
        match operation {
            FileOperation::Copy => text.append("Copying"),
            FileOperation::Move => text.append("Moving"),
            FileOperation::Delete => text.append("Deleting"),
            FileOperation::Trash => text.append("Trashing"),
        }
        assert(text@ =~= verb_of(operation));
        text.append(" ");
        push_decimal(&mut text, self.counts.processed_items);
        text.append("/");
        push_decimal(&mut text, self.counts.total_items);
        text.append(" items ");
        text
    }
}

} // verus!
