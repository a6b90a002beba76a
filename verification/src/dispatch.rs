use vstd::prelude::*;

use crate::position::PositionMode;
use crate::text::dec_str;
use crate::text::usize_to_string;

verus! {

/// A zero-based monitor index is valid exactly when it is below the number
/// of attached monitors.
pub open spec fn index_in_range(index: int, count: int) -> bool {
    0 <= index < count
}

/// A requested monitor index that selects none of the attached monitors.
#[derive(Clone, Copy, Debug, PartialEq, Eq, Structural)]
pub struct MonitorRangeError {
    /// The index the user asked for.
    pub requested: usize,
    /// How many monitors were attached when the request was made.
    pub monitor_count: usize,
}

/// The report for an out-of-range index when no monitor is attached at all.
pub open spec fn no_monitors_text(requested: nat) -> Seq<char> {
    "No monitors are available but "@ + dec_str(requested) + " was given"@
}

/// The report for an out-of-range index, naming the valid range.
pub open spec fn out_of_range_text(requested: nat, count: nat) -> Seq<char>
    recommends
        count > 0,
{
    "The available monitors are from 0 - "@ + dec_str((count - 1) as nat) + " but "@
        + dec_str(requested) + " was given"@
}

/// What a range error reports: the valid range and the offending value,
/// or, with no monitors attached, that none are available.
pub open spec fn range_error_text(requested: nat, count: nat) -> Seq<char> {
    if count == 0 {
        no_monitors_text(requested)
    } else {
        out_of_range_text(requested, count)
    }
}

impl MonitorRangeError {
    /// The largest valid index at the time of the request, defined only
    /// while any monitor is attached at all.
    pub fn max_valid(&self) -> (r: usize)
        requires
            self.monitor_count > 0,
        ensures
            r == self.monitor_count - 1,
    {
        self.monitor_count - 1
    }

    /// Writes the error for the user. An empty monitor list is reported in
    /// its own words rather than through the arithmetic on `count - 1`,
    /// which would have no meaning there.
    pub fn message(&self) -> (s: String)
        ensures
            s@ == range_error_text(self.requested as nat, self.monitor_count as nat),
    {
        if self.monitor_count == 0 {
            let mut s = String::from_str("No monitors are available but ");
            let requested = usize_to_string(self.requested);
            s.append(requested.as_str());
            s.append(" was given");
            s
        } else {
            let mut s = String::from_str("The available monitors are from 0 - ");
            let max_valid = usize_to_string(self.monitor_count - 1);
            s.append(max_valid.as_str());
            s.append(" but ");
            let requested = usize_to_string(self.requested);
            s.append(requested.as_str());
            s.append(" was given");
            s
        }
    }
}

/// Picks the monitor a request names, or reports why it names none:
/// success exactly on an index below the number of attached monitors,
/// and the monitor returned is the one at that position.
pub fn resolve_monitor<M>(index: usize, monitors: &Vec<M>) -> (r: Result<&M, MonitorRangeError>)
    ensures
        r is Ok <==> index_in_range(index as int, monitors@.len() as int),
        r is Ok ==> *r->Ok_0 == monitors@[index as int],
        r is Err ==> r->Err_0 == (MonitorRangeError {
            requested: index,
            monitor_count: monitors.len(),
        }),
{
    if index < monitors.len() {
        Ok(&monitors[index])
    } else {
        Err(MonitorRangeError { requested: index, monitor_count: monitors.len() })
    }
}

/// Runs the given operation on the chosen monitor when the choice is in
/// range; otherwise reports the valid range and the offending choice
/// without running the operation.
pub fn if_chosen_monitor_within_range<M, F: FnOnce(&M) -> Result<(), String>>(
    choice: usize,
    monitors: &Vec<M>,
    func: F,
) -> (r: Result<(), String>)
    requires
        index_in_range(choice as int, monitors@.len() as int) ==> call_requires(
            func,
            (&monitors@[choice as int],),
        ),
    ensures
        index_in_range(choice as int, monitors@.len() as int) ==> call_ensures(
            func,
            (&monitors@[choice as int],),
            r,
        ),
        !index_in_range(choice as int, monitors@.len() as int) ==> r is Err && r->Err_0@
            == range_error_text(choice as nat, monitors@.len()),
{
    match resolve_monitor(choice, monitors) {
        Ok(monitor) => func(monitor),
        Err(e) => Err(e.message()),
    }
}

/// What a failed wallpaper read reports.
pub open spec fn get_failure_text(e: Seq<char>) -> Seq<char> {
    "Failed to get the desktop wallpaper: "@ + e
}

/// What a failed wallpaper write reports.
pub open spec fn set_failure_text(e: Seq<char>) -> Seq<char> {
    "Failed to set the desktop wallpaper: "@ + e
}

/// What a failed monitor enumeration reports.
pub open spec fn monitors_failure_text(e: Seq<char>) -> Seq<char> {
    "Failed to retrieve available monitors: "@ + e
}

/// Completes a `get` from the service's outcome: the path read passes
/// through untouched and becomes the invocation's sole output; a failure is
/// wrapped with the fixed prefix naming the failed operation.
pub fn finish_get(outcome: Result<String, String>) -> (r: Result<String, String>)
    ensures
        outcome is Ok ==> r == outcome,
        outcome is Err ==> r is Err && r->Err_0@ == get_failure_text(outcome->Err_0@),
{
    match outcome {
        Ok(path) => Ok(path),
        Err(e) => Err(
            String::from_str("Failed to get the desktop wallpaper: ").concat(e.as_str()),
        ),
    }
}

/// Completes a `set` from the service's outcome: success stays silent; a
/// failure is wrapped with the fixed prefix naming the failed operation.
pub fn finish_set(outcome: Result<(), String>) -> (r: Result<(), String>)
    ensures
        outcome is Ok ==> r is Ok,
        outcome is Err ==> r is Err && r->Err_0@ == set_failure_text(outcome->Err_0@),
{
    match outcome {
        Ok(()) => Ok(()),
        Err(e) => Err(
            String::from_str("Failed to set the desktop wallpaper: ").concat(e.as_str()),
        ),
    }
}

/// Describes a failure to enumerate the attached monitors, which ends the
/// invocation before any command is considered.
pub fn describe_monitors_failure(e: &str) -> (r: String)
    ensures
        r@ == monitors_failure_text(e@),
{
    String::from_str("Failed to retrieve available monitors: ").concat(e)
}

} // verus!
