use vstd::prelude::*;

use crate::dispatch::index_in_range;
use crate::dispatch::MonitorRangeError;
use crate::position::PositionMode;

verus! {

/// What one invocation asks for: read the current wallpaper of a monitor,
/// or set a new wallpaper with a position mode on a monitor.
#[derive(Clone, Debug, PartialEq, Eq)]
pub enum Command {
    GetWallpaper { monitor: usize },
    SetWallpaper { monitor: usize, path: String, scale: PositionMode },
}

/// What a validated request tells the wallpaper service to do.
#[derive(Clone, Debug, PartialEq, Eq)]
pub enum Action {
    PrintWallpaper { monitor: usize },
    ApplyWallpaper { monitor: usize, path: String, scale: PositionMode },
}

/// The monitor index a command asks for.
pub open spec fn requested_monitor(cmd: Command) -> usize {
    match cmd {
        Command::GetWallpaper { monitor } => monitor,
        Command::SetWallpaper { monitor, path, scale } => monitor,
    }
}

/// The service action a command stands for, once its monitor is validated.
pub open spec fn action_of(cmd: Command) -> Action {
    match cmd {
        Command::GetWallpaper { monitor } => Action::PrintWallpaper { monitor },
        Command::SetWallpaper { monitor, path, scale } => Action::ApplyWallpaper { monitor, path, scale },
    }
}

/// What dispatching decides: the command's action when its monitor index is
/// in range, the range error otherwise.
pub open spec fn dispatch_spec(cmd: Command, monitor_count: usize) -> Result<
    Action,
    MonitorRangeError,
> {
    if index_in_range(requested_monitor(cmd) as int, monitor_count as int) {
        Ok(action_of(cmd))
    } else {
        Err(MonitorRangeError { requested: requested_monitor(cmd), monitor_count })
    }
}

/// Validates the command's monitor index against the number of attached
/// monitors and hands back the action to run, or the range error. No
/// service work happens here.
pub fn dispatch(cmd: Command, monitor_count: usize) -> (r: Result<Action, MonitorRangeError>)
    ensures
        r == dispatch_spec(cmd, monitor_count),
{
    match cmd {
        Command::GetWallpaper { monitor } => {
            if monitor < monitor_count {
                Ok(Action::PrintWallpaper { monitor })
            } else {
                Err(MonitorRangeError { requested: monitor, monitor_count })
            }
        },
        Command::SetWallpaper { monitor, path, scale } => {
            if monitor < monitor_count {
                Ok(Action::ApplyWallpaper { monitor, path, scale })
            } else {
                Err(MonitorRangeError { requested: monitor, monitor_count })
            }
        },
    }
}

/// Dispatching holds no state of its own: the identical command against the
/// identical monitor count always decides the identical result, so repeating
/// a successful `set` with the same arguments hands the service the very
/// same action again.
pub proof fn lemma_repeat_dispatch(
    cmd: Command,
    monitor_count: usize,
    r1: Result<Action, MonitorRangeError>,
    r2: Result<Action, MonitorRangeError>,
)
    requires
        r1 == dispatch_spec(cmd, monitor_count),
        r2 == dispatch_spec(cmd, monitor_count),
    ensures
        r1 == r2,
{
}

} // verus!
