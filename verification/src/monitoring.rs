//! Monitoring output decisions and the names of the robot, safety and runtime modes
//! that the robot reports over RTDE.

use vstd::prelude::*;
use crate::decimal::{int_decimal, append_i32_decimal};

verus! {

/// The name of a known robot mode.
pub open spec fn robot_mode_label(mode: int) -> Option<Seq<char>> {
    if mode == -1 { Some("NO_CONTROLLER"@) }
    else if mode == 0 { Some("DISCONNECTED"@) }
    else if mode == 1 { Some("CONFIRM_SAFETY"@) }
    else if mode == 2 { Some("BOOTING"@) }
    else if mode == 3 { Some("POWER_OFF"@) }
    else if mode == 4 { Some("POWER_ON"@) }
    else if mode == 5 { Some("IDLE"@) }
    else if mode == 6 { Some("BACKDRIVE"@) }
    else if mode == 7 { Some("RUNNING"@) }
    else if mode == 8 { Some("UPDATING_FIRMWARE"@) }
    else { None }
}

/// The name of a known safety mode.
pub open spec fn safety_mode_label(mode: int) -> Option<Seq<char>> {
    if mode == 1 { Some("NORMAL"@) }
    else if mode == 2 { Some("REDUCED"@) }
    else if mode == 3 { Some("PROTECTIVE_STOP"@) }
    else if mode == 4 { Some("RECOVERY"@) }
    else if mode == 5 { Some("SAFEGUARD_STOP"@) }
    else if mode == 6 { Some("SYSTEM_EMERGENCY_STOP"@) }
    else if mode == 7 { Some("ROBOT_EMERGENCY_STOP"@) }
    else if mode == 8 { Some("EMERGENCY_STOP"@) }
    else if mode == 9 { Some("VIOLATION"@) }
    else if mode == 10 { Some("FAULT"@) }
    else if mode == 11 { Some("STOPPED_DUE_TO_SAFETY"@) }
    else { None }
}

/// The name of a known program runtime state.
pub open spec fn runtime_state_label(state: int) -> Option<Seq<char>> {
    if state == 0 { Some("STOPPING"@) }
    else if state == 1 { Some("STOPPED"@) }
    else if state == 2 { Some("PLAYING"@) }
    else if state == 3 { Some("PAUSING"@) }
    else if state == 4 { Some("PAUSED"@) }
    else if state == 5 { Some("RESUMING"@) }
    else { None }
}

/// The text for a value that no table names: `UNKNOWN(<value>)`.
pub open spec fn unknown_name(value: int) -> Seq<char> {
    "UNKNOWN("@ + int_decimal(value) + ")"@
}

/// A known name, or the `UNKNOWN(..)` text for the value.
pub open spec fn name_or_unknown(label: Option<Seq<char>>, value: int) -> Seq<char> {
    match label {
        Some(name) => name,
        None => unknown_name(value),
    }
}

fn unknown_name_string(value: i32) -> (s: String)
    ensures
        s@ == unknown_name(value as int),
{
    let mut s = String::from_str("UNKNOWN(");
    append_i32_decimal(&mut s, value);
    s.append(")");
    s
}

/// Get robot mode name from numeric value
pub fn get_robot_mode_name(mode: i32) -> (name: String)
    ensures
        name@ == name_or_unknown(robot_mode_label(mode as int), mode as int),
{
    let known: Option<&str> = if mode == -1 { Some("NO_CONTROLLER") }
        else if mode == 0 { Some("DISCONNECTED") }
        else if mode == 1 { Some("CONFIRM_SAFETY") }
        else if mode == 2 { Some("BOOTING") }
        else if mode == 3 { Some("POWER_OFF") }
        else if mode == 4 { Some("POWER_ON") }
        else if mode == 5 { Some("IDLE") }
        else if mode == 6 { Some("BACKDRIVE") }
        else if mode == 7 { Some("RUNNING") }
        else if mode == 8 { Some("UPDATING_FIRMWARE") }
        else { None };
    match known {
        Some(n) => String::from_str(n),
        None => unknown_name_string(mode),
    }
}

/// Get safety mode name from numeric value
pub fn get_safety_mode_name(mode: i32) -> (name: String)
    ensures
        name@ == name_or_unknown(safety_mode_label(mode as int), mode as int),
{
    let known: Option<&str> = if mode == 1 { Some("NORMAL") }
        else if mode == 2 { Some("REDUCED") }
        else if mode == 3 { Some("PROTECTIVE_STOP") }
        else if mode == 4 { Some("RECOVERY") }
        else if mode == 5 { Some("SAFEGUARD_STOP") }
        else if mode == 6 { Some("SYSTEM_EMERGENCY_STOP") }
        else if mode == 7 { Some("ROBOT_EMERGENCY_STOP") }
        else if mode == 8 { Some("EMERGENCY_STOP") }
        else if mode == 9 { Some("VIOLATION") }
        else if mode == 10 { Some("FAULT") }
        else if mode == 11 { Some("STOPPED_DUE_TO_SAFETY") }
        else { None };
    match known {
        Some(n) => String::from_str(n),
        None => unknown_name_string(mode),
    }
}

/// Get runtime state name from numeric value
pub fn get_runtime_state_name(state: i32) -> (name: String)
    ensures
        name@ == name_or_unknown(runtime_state_label(state as int), state as int),
{
    let known: Option<&str> = if state == 0 { Some("STOPPING") }
        else if state == 1 { Some("STOPPED") }
        else if state == 2 { Some("PLAYING") }
        else if state == 3 { Some("PAUSING") }
        else if state == 4 { Some("PAUSED") }
        else if state == 5 { Some("RESUMING") }
        else { None };
    match known {
        Some(n) => String::from_str(n),
        None => unknown_name_string(state),
    }
}

/// The numeric modes of a robot state report with their names.
#[derive(Debug, Clone, PartialEq)]
pub struct RobotStateReport {
    /// Event type for JSON output: `robot_state`
    pub event_type: String,
    pub robot_mode: i32,
    pub robot_mode_name: String,
    pub safety_mode: i32,
    pub safety_mode_name: String,
    pub runtime_state: i32,
    pub runtime_state_name: String,
}

/// The robot state report for the given modes, each with its name.
pub fn robot_state_report(robot_mode: i32, safety_mode: i32, runtime_state: i32) -> (r: RobotStateReport)
    ensures
        r.event_type@ == "robot_state"@,
        r.robot_mode == robot_mode,
        r.robot_mode_name@ == name_or_unknown(robot_mode_label(robot_mode as int), robot_mode as int),
        r.safety_mode == safety_mode,
        r.safety_mode_name@ == name_or_unknown(safety_mode_label(safety_mode as int), safety_mode as int),
        r.runtime_state == runtime_state,
        r.runtime_state_name@ == name_or_unknown(runtime_state_label(runtime_state as int), runtime_state as int),
{
    RobotStateReport {
        event_type: String::from_str("robot_state"),
        robot_mode,
        robot_mode_name: get_robot_mode_name(robot_mode),
        safety_mode,
        safety_mode_name: get_safety_mode_name(safety_mode),
        runtime_state,
        runtime_state_name: get_runtime_state_name(runtime_state),
    }
}

/// The shortest time, in nanoseconds, between two position outputs at the given
/// publication rate: `1000 / pub_rate_hz` whole milliseconds.
pub open spec fn min_position_interval_ns(pub_rate_hz: u32) -> int {
    (1000int / (pub_rate_hz as int)) * 1_000_000int
}

/// The time from `earlier` to `now`, or zero when `now` is not later.
pub open spec fn elapsed_ns(earlier: u64, now: u64) -> int {
    if now >= earlier { now - earlier } else { 0 }
}

/// Whether a position sample taken at `now` is output.
///
/// * `last_output`: when a position was last output, if ever;
/// * `position_changed`: whether the TCP pose or the joint positions moved by more than
///   the change threshold since the position that was last output.
pub open spec fn position_due(
    last_output: Option<u64>,
    pub_rate_hz: u32,
    dynamic_mode: bool,
    now: u64,
    position_changed: bool,
) -> bool {
    match last_output {
        None => true,
        Some(last) => {
            &&& elapsed_ns(last, now) >= min_position_interval_ns(pub_rate_hz)
            &&& (dynamic_mode ==> position_changed)
        },
    }
}

/// Whether a robot state report is output: in dynamic mode only when it differs
/// from the state reported last.
pub open spec fn robot_state_due(
    last_state: Option<(i32, i32, i32)>,
    dynamic_mode: bool,
    current: (i32, i32, i32),
) -> bool {
    !(dynamic_mode && last_state == Some(current))
}

/// Monitor output manager that handles dynamic output and rate limiting
pub struct MonitorOutput {
    /// Last robot state for change detection (robot_mode, safety_mode, runtime_state)
    last_robot_state: Option<(i32, i32, i32)>,
    /// Monotonic time, in nanoseconds, at which a position was last output
    last_position_output: Option<u64>,
    /// Publication rate for position data
    pub_rate_hz: u32,
    /// Dynamic output enabled
    dynamic_mode: bool,
    /// Number of decimal places for rounding
    pub decimal_places: u32,
}

impl MonitorOutput {
    /// The robot state that was checked last.
    pub closed spec fn last_state(&self) -> Option<(i32, i32, i32)> {
        self.last_robot_state
    }

    /// When a position was last output.
    pub closed spec fn last_output(&self) -> Option<u64> {
        self.last_position_output
    }

    /// The publication rate for position data.
    pub closed spec fn rate(&self) -> u32 {
        self.pub_rate_hz
    }

    /// The number of decimal places for rounding.
    pub closed spec fn places(&self) -> u32 {
        self.decimal_places
    }

    /// Whether output happens only on change.
    pub closed spec fn is_dynamic(&self) -> bool {
        self.dynamic_mode
    }

    /// Create a new monitor output manager
    pub fn new(pub_rate_hz: u32, dynamic_mode: bool, decimal_places: u32) -> (m: Self)
        ensures
            m.last_state() == None::<(i32, i32, i32)>,
            m.last_output() == None::<u64>,
            m.rate() == pub_rate_hz,
            m.is_dynamic() == dynamic_mode,
            m.places() == decimal_places,
    {
        MonitorOutput {
            last_robot_state: None,
            last_position_output: None,
            pub_rate_hz,
            dynamic_mode,
            decimal_places,
        }
    }

    /// The publication rate for position data.
    pub fn pub_rate_hz(&self) -> (r: u32)
        ensures
            r == self.rate(),
    {
        self.pub_rate_hz
    }

    /// Check if combined position (TCP + joints) should be output. `now` is a
    /// monotonic clock reading in nanoseconds; `position_changed` says whether the TCP
    /// pose or the joint positions moved by more than the change threshold since the
    /// position that was last output.
    pub fn should_output_position(&mut self, now: u64, position_changed: bool) -> (due: bool)
        requires
            old(self).last_output() is Some ==> old(self).rate() > 0,
        ensures
            due == position_due(
                old(self).last_output(),
                old(self).rate(),
                old(self).is_dynamic(),
                now,
                position_changed,
            ),
            final(self).last_output() == (if due { Some(now) } else { old(self).last_output() }),
            final(self).last_state() == old(self).last_state(),
            final(self).rate() == old(self).rate(),
            final(self).is_dynamic() == old(self).is_dynamic(),
            final(self).places() == old(self).places(),
    {
        if let Some(last_output) = self.last_position_output {
            let min_interval: u64 = (1000 / self.pub_rate_hz as u64) * 1_000_000;
            let elapsed: u64 = if now >= last_output { now - last_output } else { 0 };
            if elapsed < min_interval {
                return false;
            }
            if self.dynamic_mode && !position_changed {
                return false;
            }
        }
        self.last_position_output = Some(now);
        true
    }

    /// Check if robot state should be output (never rate limited, only change detection)
    pub fn should_output_robot_state(&mut self, robot_mode: i32, safety_mode: i32, runtime_state: i32) -> (due: bool)
        ensures
            due == robot_state_due(
                old(self).last_state(),
                old(self).is_dynamic(),
                (robot_mode, safety_mode, runtime_state),
            ),
            final(self).last_state() == Some((robot_mode, safety_mode, runtime_state)),
            final(self).last_output() == old(self).last_output(),
            final(self).rate() == old(self).rate(),
            final(self).is_dynamic() == old(self).is_dynamic(),
            final(self).places() == old(self).places(),
    {
        if self.dynamic_mode {
            if let Some(last_state) = self.last_robot_state {
                if last_state.0 == robot_mode && last_state.1 == safety_mode && last_state.2 == runtime_state {
                    return false;
                }
            }
        }
        self.last_robot_state = Some((robot_mode, safety_mode, runtime_state));
        true
    }
}

/// In dynamic mode a robot state is reported whenever it differs from the state checked
/// last in any of its three components (robot mode, safety mode or runtime state), and
/// the first state is always reported.
pub proof fn lemma_changed_robot_state_reported(
    last: (i32, i32, i32),
    current: (i32, i32, i32),
    dynamic_mode: bool,
)
    ensures
        (last.0 != current.0 || last.1 != current.1 || last.2 != current.2) ==> robot_state_due(
            Some(last),
            dynamic_mode,
            current,
        ),
        robot_state_due(None, dynamic_mode, current),
        (dynamic_mode && last.0 == current.0 && last.1 == current.1 && last.2 == current.2) ==> !robot_state_due(
            Some(last),
            dynamic_mode,
            current,
        ),
{
}

/// In dynamic mode, once a position was output, an unchanged position is never output
/// again, however much time passes.
pub proof fn lemma_unchanged_position_never_repeated(last: u64, pub_rate_hz: u32, now: u64)
    ensures
        !position_due(Some(last), pub_rate_hz, true, now, false),
{
}

/// In dynamic mode a robot state is reported once: after any check of a state, a
/// check of the same state again is not output.
pub proof fn lemma_repeated_robot_state_suppressed(current: (i32, i32, i32))
    ensures
        !robot_state_due(Some(current), true, current),
{
}

/// Without dynamic mode every robot state check is output.
pub proof fn lemma_static_mode_reports_every_state(
    last_state: Option<(i32, i32, i32)>,
    current: (i32, i32, i32),
)
    ensures
        robot_state_due(last_state, false, current),
{
}

/// Positions are rate limited: once a position was output at `last`, none is output
/// before `1000 / pub_rate_hz` milliseconds have passed, whatever moved.
pub proof fn lemma_position_rate_limited(
    last: u64,
    pub_rate_hz: u32,
    dynamic_mode: bool,
    now: u64,
    position_changed: bool,
)
    requires
        pub_rate_hz > 0,
        elapsed_ns(last, now) < min_position_interval_ns(pub_rate_hz),
    ensures
        !position_due(Some(last), pub_rate_hz, dynamic_mode, now, position_changed),
{
}

/// The first position is always output, and without dynamic mode every position
/// that respects the rate limit is output.
pub proof fn lemma_position_output_when_allowed(
    last: Option<u64>,
    pub_rate_hz: u32,
    now: u64,
    position_changed: bool,
)
    requires
        last matches Some(t) ==> elapsed_ns(t, now) >= min_position_interval_ns(pub_rate_hz),
    ensures
        position_due(last, pub_rate_hz, false, now, position_changed),
        position_due(last, pub_rate_hz, true, now, true),
        last is None ==> position_due(last, pub_rate_hz, true, now, false),
{
}

} // verus!
