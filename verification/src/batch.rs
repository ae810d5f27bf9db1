//! Per-position bookkeeping for batch runs.
//!
//! Each position of a source table is one independent unit of work; the
//! driver collects one outcome per position and reports a summary at the
//! end, so that one failing position neither aborts its siblings nor
//! vanishes silently.

use vstd::prelude::*;
use vstd::string::StringExecFns;

verus! {

/// What became of one requested position.
#[derive(Clone, Copy, PartialEq, Eq, Structural, Debug)]
pub enum PositionOutcome {
    /// The cutout was produced and written.
    Written,
    /// The rounded center lay off the image; the position was skipped
    /// without producing a file, which is not an error.
    SkippedOutside,
    /// The position failed: a malformed table row, a projection failure,
    /// or an extraction or write failure.
    Failed,
}

/// How often `o` occurs in `s`.
pub open spec fn count_of(s: Seq<PositionOutcome>, o: PositionOutcome) -> int
    decreases s.len(),
{
    if s.len() == 0 {
        0
    } else {
        count_of(s.drop_last(), o) + if s.last() == o {
            1int
        } else {
            0int
        }
    }
}

/// The tally of a finished batch.
#[derive(Clone, Copy, PartialEq, Eq, Structural, Debug)]
pub struct BatchSummary {
    pub written: usize,
    pub skipped: usize,
    pub failed: usize,
}

/// Tally the outcomes of a batch: how many positions were written, how
/// many skipped as off-image, how many failed.  Every position is counted
/// exactly once.
pub fn summarize(outcomes: &Vec<PositionOutcome>) -> (r: BatchSummary)
    ensures
        r.written == count_of(outcomes@, PositionOutcome::Written),
        r.skipped == count_of(outcomes@, PositionOutcome::SkippedOutside),
        r.failed == count_of(outcomes@, PositionOutcome::Failed),
        r.written + r.skipped + r.failed == outcomes@.len(),
{
    let mut written: usize = 0;
    let mut skipped: usize = 0;
    let mut failed: usize = 0;
    let mut i: usize = 0;
    while i < outcomes.len()
        invariant
            i <= outcomes@.len(),
            written == count_of(outcomes@.take(i as int), PositionOutcome::Written),
            skipped == count_of(outcomes@.take(i as int), PositionOutcome::SkippedOutside),
            failed == count_of(outcomes@.take(i as int), PositionOutcome::Failed),
            written + skipped + failed == i,
        decreases outcomes@.len() - i,
    {
        proof {
            assert(outcomes@.take(i + 1).drop_last() =~= outcomes@.take(i as int));
            assert(outcomes@.take(i + 1).last() == outcomes@[i as int]);
        }
        match outcomes[i] {
            PositionOutcome::Written => {
                written = written + 1;
            },
            PositionOutcome::SkippedOutside => {
                skipped = skipped + 1;
            },
            PositionOutcome::Failed => {
                failed = failed + 1;
            },
        }
        i = i + 1;
    }
    proof {
        assert(outcomes@.take(outcomes@.len() as int) =~= outcomes@);
    }
    BatchSummary { written, skipped, failed }
}

/// The console line for a position whose center lies off the image; it
/// names the skipped source.
pub fn skip_message(name: &str) -> (r: String)
    ensures
        r@ == "Source "@ + name@ + " completely outside image, skipping!"@,
{
    let mut msg: String = "Source ".to_owned();
    msg.append(name);
    msg.append(" completely outside image, skipping!");
    msg
}

/// Split one table row into its name, right ascension and declination
/// fields.  A row with fewer than three fields is malformed and yields
/// nothing; surplus fields are ignored.
pub fn row_fields(rec: &Vec<String>) -> (r: Option<(String, String, String)>)
    ensures
        r is Some <==> rec@.len() >= 3,
        r matches Some(f) ==> f.0 == rec@[0] && f.1 == rec@[1] && f.2 == rec@[2],
{
    if rec.len() >= 3 {
        Some((rec[0].clone(), rec[1].clone(), rec[2].clone()))
    } else {
        None
    }
}

} // verus!
