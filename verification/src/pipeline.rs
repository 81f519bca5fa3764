//! Shape checks for pipelined (multi-buffer) cipher operations.

use vstd::prelude::*;

verus! {

/// A cipher context initialized for a fixed number of pipes.
///
/// The context itself stays with the caller; the pipeline records the pipe
/// count every later update and final call is held to.
pub struct CipherPipeline {
    pipes: usize,
}

impl CipherPipeline {
    /// The pipe count fixed at initialization.
    pub closed spec fn spec_pipes(&self) -> usize {
        self.pipes
    }

    /// The pipe count fixed at initialization.
    pub fn pipes(&self) -> (pipes: usize)
        ensures
            pipes == self.spec_pipes(),
    {
        self.pipes
    }

    /// Whether an update may run: one output and one input per pipe.
    pub fn update_shape_ok(&self, outputs: usize, inputs: usize) -> (ok: bool)
        ensures
            ok == (outputs == self.spec_pipes() && inputs == self.spec_pipes()),
    {
        outputs == self.pipes && inputs == self.pipes
    }

    /// Whether a final call may run: one output per pipe.
    pub fn final_shape_ok(&self, outputs: usize) -> (ok: bool)
        ensures
            ok == (outputs == self.spec_pipes()),
    {
        outputs == self.pipes
    }
}

/// The IV length shared by all pipes: every IV must be as long as the first
/// (the length is 0 when there is no pipe at all).
pub open spec fn spec_pipeline_iv_length(iv_lengths: Seq<usize>) -> Result<usize, i32> {
    let first: usize = if iv_lengths.len() == 0 {
        0
    } else {
        iv_lengths[0]
    };
    if forall|i: int| 0 <= i < iv_lengths.len() ==> #[trigger] iv_lengths[i] == first {
        Ok(first)
    } else {
        Err(0)
    }
}

/// Checks that the IVs of a pipelined initialization share one length.
pub fn pipeline_iv_length(iv_lengths: &[usize]) -> (length: Result<usize, i32>)
    ensures
        length == spec_pipeline_iv_length(iv_lengths@),
{
    let n = iv_lengths.len();
    let first: usize = if n == 0 {
        0
    } else {
        iv_lengths[0]
    };
    let mut i: usize = 0;
    while i < n
        invariant
            n == iv_lengths@.len(),
            i <= n,
            first == (if n == 0 { 0 } else { iv_lengths@[0] }),
            forall|j: int| 0 <= j < i ==> #[trigger] iv_lengths@[j] == first,
        decreases n - i,
    {
        if iv_lengths[i] != first {
            assert(!(iv_lengths@[i as int] == first));
            return Err(0);
        }
        i = i + 1;
    }
    Ok(first)
}

/// The pipeline an initialization yields for the status libcrypto reported.
pub open spec fn pipeline_started(outcome: Result<CipherPipeline, i32>, status: i32, pipes: usize) -> bool {
    if status <= 0 {
        outcome == Err::<CipherPipeline, i32>(status)
    } else {
        outcome matches Ok(p) && p.spec_pipes() == pipes
    }
}

/// Interprets the status of a pipelined initialization over `pipes` pipes.
pub fn pipeline_start(status: i32, pipes: usize) -> (outcome: Result<CipherPipeline, i32>)
    ensures
        pipeline_started(outcome, status, pipes),
{
    if status <= 0 {
        Err(status)
    } else {
        Ok(CipherPipeline { pipes })
    }
}

/// Whether some pipe reported more output than its buffer holds.
pub open spec fn some_pipe_overflows(written: Seq<usize>, capacities: Seq<usize>) -> bool {
    exists|i: int| 0 <= i < written.len() && #[trigger] written[i] > capacities[i]
}

/// The result of a pipelined update or final call: the per-pipe byte counts,
/// unless the status failed (passed on) or a count exceeds its buffer (0).
pub open spec fn spec_pipeline_outcome(status: i32, written: Seq<usize>, capacities: Seq<usize>) -> Result<Seq<usize>, i32> {
    if status <= 0 {
        Err(status)
    } else if some_pipe_overflows(written, capacities) {
        Err(0)
    } else {
        Ok(written)
    }
}

/// Interprets the status and per-pipe byte counts of a pipelined call.
pub fn pipeline_outcome(status: i32, written: &[usize], capacities: &[usize]) -> (outcome: Result<Vec<usize>, i32>)
    requires
        written@.len() == capacities@.len(),
    ensures
        match spec_pipeline_outcome(status, written@, capacities@) {
            Ok(counts) => outcome matches Ok(v) && v@ == counts,
            Err(e) => outcome == Err::<Vec<usize>, i32>(e),
        },
{
    let n = written.len();
    let mut counts: Vec<usize> = Vec::new();
    let mut i: usize = 0;
    while i < n
        invariant
            n == written@.len(),
            n == capacities@.len(),
            i <= n,
            counts@ == written@.subrange(0, i as int),
            forall|j: int| 0 <= j < i ==> !(#[trigger] written@[j] > capacities@[j]),
        decreases n - i,
    {
        if written[i] > capacities[i] {
            assert(some_pipe_overflows(written@, capacities@));
            if status <= 0 {
                return Err(status);
            }
            return Err(0);
        }
        counts.push(written[i]);
        i = i + 1;
    }
    if status <= 0 {
        return Err(status);
    }
    assert(counts@ =~= written@);
    Ok(counts)
}

/// A pipelined call that reports success hands back one count per pipe, each
/// within its own output buffer.
pub proof fn law_pipeline_counts_fit(status: i32, written: Seq<usize>, capacities: Seq<usize>)
    requires
        written.len() == capacities.len(),
        spec_pipeline_outcome(status, written, capacities) is Ok,
    ensures
        ({
            let counts = spec_pipeline_outcome(status, written, capacities)->Ok_0;
            &&& counts.len() == capacities.len()
            &&& forall|i: int| 0 <= i < counts.len() ==> #[trigger] counts[i] <= capacities[i]
        }),
{
    assert forall|i: int| 0 <= i < written.len() implies #[trigger] written[i] <= capacities[i] by {
        if written[i] > capacities[i] {
            assert(some_pipe_overflows(written, capacities));
        }
    }
}

/// A pipelined report: a non-positive status is passed on; a positive one
/// yields the per-pipe counts exactly when every count lies within its
/// buffer (bounds included), and 0 otherwise.
pub proof fn law_pipeline_outcome(status: i32, written: Seq<usize>, capacities: Seq<usize>)
    requires
        written.len() == capacities.len(),
    ensures
        status <= 0 ==> spec_pipeline_outcome(status, written, capacities) == Err::<Seq<usize>, i32>(
            status,
        ),
        status > 0 && (forall|i: int| 0 <= i < written.len() ==> #[trigger] written[i] <= capacities[i])
            ==> spec_pipeline_outcome(status, written, capacities) == Ok::<Seq<usize>, i32>(written),
        status > 0 && (exists|i: int| 0 <= i < written.len() && #[trigger] written[i] > capacities[i])
            ==> spec_pipeline_outcome(status, written, capacities) == Err::<Seq<usize>, i32>(0),
{
    if status > 0 && (forall|i: int| 0 <= i < written.len() ==> #[trigger] written[i] <= capacities[i]) {
        if some_pipe_overflows(written, capacities) {
            let k = choose|k: int| 0 <= k < written.len() && #[trigger] written[k] > capacities[k];
            assert(written[k] <= capacities[k]);
        }
    }
}

/// Pipelined IVs: the shared length is the first IV's (0 for no pipe), and it
/// is accepted exactly when every IV has that length.
pub proof fn law_pipeline_iv_length(iv_lengths: Seq<usize>)
    ensures
        iv_lengths.len() == 0 ==> spec_pipeline_iv_length(iv_lengths) == Ok::<usize, i32>(0),
        iv_lengths.len() > 0 && (forall|i: int| 0 <= i < iv_lengths.len() ==> #[trigger] iv_lengths[i]
            == iv_lengths[0]) ==> spec_pipeline_iv_length(iv_lengths) == Ok::<usize, i32>(
            iv_lengths[0],
        ),
        (exists|i: int, j: int|
            0 <= i < iv_lengths.len() && 0 <= j < iv_lengths.len() && #[trigger] iv_lengths[i]
                != #[trigger] iv_lengths[j]) ==> spec_pipeline_iv_length(iv_lengths) == Err::<usize, i32>(0),
{
    if exists|i: int, j: int|
        0 <= i < iv_lengths.len() && 0 <= j < iv_lengths.len() && #[trigger] iv_lengths[i]
            != #[trigger] iv_lengths[j] {
        let (i, j) = choose|i: int, j: int|
            0 <= i < iv_lengths.len() && 0 <= j < iv_lengths.len() && #[trigger] iv_lengths[i]
                != #[trigger] iv_lengths[j];
        if iv_lengths[i] == iv_lengths[0] {
            assert(!(#[trigger] iv_lengths[j] == iv_lengths[0]));
        } else {
            assert(!(#[trigger] iv_lengths[i] == iv_lengths[0]));
        }
    }
}

} // verus!
