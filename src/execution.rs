use vstd::prelude::*;

use crate::request::Request;
use crate::walk::{cleaned_cells, count_cleaned, end_position, steps_trail, trail};

verus! {

/// Why a record could not be stored.
#[derive(PartialEq, Eq, Structural, Debug, Clone, Copy)]
pub enum StorageError {
    /// The store could not be reached.
    Unreachable,
    /// The store refused the write, or its reply could not be read.
    Rejected,
    /// No connection to the store was free.
    PoolExhausted,
}

/// The outcome of one run of the robot.
///
/// `id` and `timestamp_micros` are given by the store when the record is
/// saved; before that they are `None`.
#[derive(PartialEq, Eq, Structural, Debug, Clone, Copy)]
pub struct Execution {
    pub id: Option<i32>,
    /// When the store created the record, in microseconds since the Unix
    /// epoch (UTC).
    pub timestamp_micros: Option<i64>,
    /// How many commands the walk had.
    pub commands: u64,
    /// How many distinct cells the robot cleaned.
    pub result: u64,
    /// How long the walk took, in microseconds.
    pub duration_micros: Option<i64>,
}

/// The difference `end - start`, or `None` where it does not fit in an `i64`.
pub open spec fn elapsed_spec(start: i64, end: i64) -> Option<i64> {
    if i64::MIN <= end - start <= i64::MAX {
        Some((end - start) as i64)
    } else {
        None
    }
}

/// Microseconds from `start` to `end`, or `None` where the span does not fit
/// in an `i64`.
pub fn elapsed_micros(start: i64, end: i64) -> (r: Option<i64>)
    ensures
        r == elapsed_spec(start, end),
{
    end.checked_sub(start)
}

/// The earliest instant chrono can hold (1 January of year -262143, UTC), in
/// microseconds since the Unix epoch.
pub const EARLIEST_MICROS: i64 = -8_334_601_315_200_000_000;

/// The last microsecond of the latest day chrono can hold (31 December of
/// year 262142, UTC), in microseconds since the Unix epoch.
pub const LATEST_MICROS: i64 = 8_210_266_876_799_999_999;

/// Whether `t` is a clock reading that chrono can hold.
pub open spec fn is_clock_reading(t: i64) -> bool {
    EARLIEST_MICROS <= t <= LATEST_MICROS
}

/// Relies on chrono's `From<SystemTime> for DateTime<Utc>`, which turns the
/// system clock into a date also when it reads before the Unix epoch, and on
/// `DateTime::timestamp_micros`, which gives that date as microseconds since
/// the epoch. Every `DateTime<Utc>` lies between chrono's `MIN_UTC` and
/// `MAX_UTC`, and the conversion leaves fewer than a million nanoseconds'
/// worth of microseconds in the last second, hence the range. The
/// conversion panics only on a clock more than 262,000 years from the epoch.
#[verifier::external_body]
fn now_micros() -> (r: i64)
    ensures
        is_clock_reading(r),
{
    chrono::DateTime::<chrono::Utc>::from(std::time::SystemTime::now()).timestamp_micros()
}

impl Default for Execution {
    fn default() -> (r: Execution)
        ensures
            r == (Execution {
                id: None,
                timestamp_micros: None,
                commands: 0,
                result: 0,
                duration_micros: None,
            }),
    {
        Execution { id: None, timestamp_micros: None, commands: 0, result: 0, duration_micros: None }
    }
}

impl Execution {
    /// Whether this record holds the move count and the cleaned-cell count
    /// of the walk `request`.
    pub open spec fn records_walk(self, request: Request) -> bool {
        &&& self.commands == request.commands@.len()
        &&& self.result == cleaned_cells(request.start, request.commands@).len()
    }

    /// This record as the store gives it back, with the identity and the
    /// creation time that the store assigned.
    pub open spec fn with_identity(self, id: i32, timestamp_micros: i64) -> Execution {
        Execution { id: Some(id), timestamp_micros: Some(timestamp_micros), ..self }
    }

    /// Walks the robot through `request` and records the number of commands,
    /// the number of distinct cells cleaned, and how long the walk took: the
    /// span between two clock readings taken just before and just after it.
    pub fn calculate(self, request: Request) -> (r: Execution)
        ensures
            r.records_walk(request),
            r.id == self.id,
            r.timestamp_micros == self.timestamp_micros,
            exists|t0: i64, t1: i64|
                is_clock_reading(t0) && is_clock_reading(t1) && r.duration_micros == elapsed_spec(
                    t0,
                    t1,
                ),
    {
        let mut execution = self;
        execution.commands = request.commands.len() as u64;
        let start_time = now_micros();
        let cleaned = count_cleaned(request.start, &request.commands);
        let end_time = now_micros();
        execution = execution.set_duration(start_time, end_time);
        execution.result = cleaned;
        execution
    }

    /// Records the time from `start_time` to `now` (both in microseconds
    /// since the Unix epoch) as the duration; `None` where the span does not
    /// fit in an `i64`.
    pub fn set_duration(self, start_time: i64, now: i64) -> (r: Execution)
        ensures
            r == (Execution { duration_micros: elapsed_spec(start_time, now), ..self }),
    {
        Execution { duration_micros: elapsed_micros(start_time, now), ..self }
    }

    /// The record that saving this one yields, given the store's reply: on
    /// success the identity and creation time it assigned, on failure its
    /// error, which is handed on as it is.
    pub fn stored(self, reply: Result<(i32, i64), StorageError>) -> (r: Result<
        Execution,
        StorageError,
    >)
        ensures
            match reply {
                Ok((id, ts)) => r == Ok::<Execution, StorageError>(self.with_identity(id, ts)),
                Err(e) => r == Err::<Execution, StorageError>(e),
            },
    {
        match reply {
            Ok((id, timestamp_micros)) => Ok(
                Execution { id: Some(id), timestamp_micros: Some(timestamp_micros), ..self },
            ),
            Err(e) => Err(e),
        }
    }
}

/// A walk without commands cleans nothing: its record counts no command and
/// no cell.
pub proof fn lemma_empty_walk(request: Request, e: Execution)
    requires
        request.commands@.len() == 0,
        e.records_walk(request),
    ensures
        e.commands == 0,
        e.result == 0,
{
    assert(cleaned_cells(request.start, request.commands@) =~= Set::empty());
}

/// A walk of one command with no steps cleans nothing.
pub proof fn lemma_single_idle_command(request: Request, e: Execution)
    requires
        request.commands@.len() == 1,
        request.commands@[0].steps == 0,
        e.records_walk(request),
    ensures
        e.commands == 1,
        e.result == 0,
{
    let cmds = request.commands@;
    assert(cmds.drop_last() =~= Seq::empty());
    assert(cmds.last().step_count() == 0);
    assert(trail(request.start, cmds.drop_last()) =~= Seq::empty());
    assert(steps_trail(end_position(request.start, cmds.drop_last()), cmds.last().direction, 0)
        =~= Seq::empty());
    assert(trail(request.start, cmds) =~= Seq::empty());
    assert(cleaned_cells(request.start, cmds) =~= Set::empty());
}

/// The same walk always gives the same move count and cleaned-cell count.
pub proof fn lemma_walk_deterministic(request: Request, a: Execution, b: Execution)
    requires
        a.records_walk(request),
        b.records_walk(request),
    ensures
        a.commands == b.commands,
        a.result == b.result,
{
}

/// Saving a record keeps its move count, its cleaned-cell count and its
/// duration exactly, and gives it the identity and creation time that it
/// lacked before.
pub proof fn lemma_persist_round_trip(e: Execution, id: i32, timestamp_micros: i64)
    requires
        e.id is None,
        e.timestamp_micros is None,
    ensures
        e.with_identity(id, timestamp_micros).commands == e.commands,
        e.with_identity(id, timestamp_micros).result == e.result,
        e.with_identity(id, timestamp_micros).duration_micros == e.duration_micros,
        e.with_identity(id, timestamp_micros).id == Some(id),
        e.with_identity(id, timestamp_micros).timestamp_micros == Some(timestamp_micros),
{
}

} // verus!
