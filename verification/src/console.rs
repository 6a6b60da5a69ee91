use crate::error::TtyError;
use vstd::prelude::*;

verus! {

/// Terminal dimensions in character cells.
#[derive(Debug, PartialEq, Eq, Clone, Copy)]
pub struct ConsoleSize {
    pub cols: u32,
    pub rows: u32,
}

/// What the caller has to do next while looking for a console size.
#[derive(Debug, PartialEq, Eq)]
pub enum ProbeStep {
    /// Query the window size of this standard descriptor.
    Query(u32),
    /// The search is over with this result.
    Finished(Result<ConsoleSize, TtyError>),
}

/// Number of standard descriptors that are tried, in order: input, output,
/// error.
pub const CANDIDATES: u32 = 3;

/// Turns the outcome of a window-size query into a console size: a zero
/// status gives the reported columns and rows, widened; any other status
/// gives the operating system's error.
pub fn console_size_from_query(status: i32, ws_col: u16, ws_row: u16, os_error: i32) -> (r: Result<
    ConsoleSize,
    TtyError,
>)
    ensures
        status == 0 ==> r == Ok::<ConsoleSize, TtyError>(
            ConsoleSize { cols: ws_col as u32, rows: ws_row as u32 },
        ),
        status != 0 ==> r == Err::<ConsoleSize, TtyError>(TtyError::Io(os_error)),
{
    if status != 0 {
        return Err(TtyError::Io(os_error));
    }
    Ok(ConsoleSize { cols: ws_col as u32, rows: ws_row as u32 })
}

/// The step that follows the query of candidate `rid` with the given
/// outcome: a success ends the search, a failure moves on to the next
/// candidate, and the failure of the last candidate is the result.
pub open spec fn probe_after(rid: u32, outcome: Result<ConsoleSize, TtyError>) -> ProbeStep {
    if outcome is Ok || rid + 1 >= CANDIDATES {
        ProbeStep::Finished(outcome)
    } else {
        ProbeStep::Query((rid + 1) as u32)
    }
}

/// The result of following the steps from candidate `rid` on, where
/// `outcomes[i]` is what a query of candidate `i` gives.
pub open spec fn probe_from(outcomes: Seq<Result<ConsoleSize, TtyError>>, rid: u32) -> Result<
    ConsoleSize,
    TtyError,
>
    decreases CANDIDATES - rid,
{
    match probe_after(rid, outcomes[rid as int]) {
        ProbeStep::Finished(r) => r,
        ProbeStep::Query(next) => if rid < next {
            probe_from(outcomes, next)
        } else {
            outcomes[rid as int]
        },
    }
}

/// The console size over the three candidates: the first success, or the
/// last failure where none succeeds.
pub open spec fn console_size_any_of(outcomes: Seq<Result<ConsoleSize, TtyError>>) -> Result<
    ConsoleSize,
    TtyError,
> {
    if outcomes[0] is Ok {
        outcomes[0]
    } else if outcomes[1] is Ok {
        outcomes[1]
    } else {
        outcomes[2]
    }
}

/// The first step of the search: query standard input.
pub fn first_probe() -> (step: ProbeStep)
    ensures
        step == ProbeStep::Query(0),
{
    ProbeStep::Query(0)
}

/// The step that follows the query of candidate `rid`.
pub fn next_probe(rid: u32, outcome: Result<ConsoleSize, TtyError>) -> (step: ProbeStep)
    ensures
        step == probe_after(rid, outcome),
{
    if outcome.is_ok() || rid >= CANDIDATES - 1 {
        ProbeStep::Finished(outcome)
    } else {
        ProbeStep::Query(rid + 1)
    }
}

/// Writes a console size into the caller's buffer: columns first, rows
/// second, the rest untouched.
pub fn fill_console_size(result: &mut Vec<u32>, size: ConsoleSize)
    requires
        old(result).len() >= 2,
    ensures
        final(result)@ == old(result)@.update(0, size.cols).update(1, size.rows),
{
    result[0] = size.cols;
    result[1] = size.rows;
}

/// Following the steps from standard input on gives the first success among
/// the three candidates. Where exactly one candidate succeeds, the result is
/// its size; where none does, the result is the failure of the last one.
pub proof fn lemma_first_terminal_wins(outcomes: Seq<Result<ConsoleSize, TtyError>>)
    requires
        outcomes.len() == 3,
    ensures
        probe_from(outcomes, 0) == console_size_any_of(outcomes),
        forall|i: int|
            0 <= i < 3 && outcomes[i] is Ok && (forall|j: int|
                0 <= j < 3 && j != i ==> outcomes[j] is Err) ==> console_size_any_of(outcomes)
                == outcomes[i],
        (forall|j: int| 0 <= j < 3 ==> outcomes[j] is Err) ==> console_size_any_of(outcomes)
            == outcomes[2],
{
    reveal_with_fuel(probe_from, 4);
}

} // verus!
