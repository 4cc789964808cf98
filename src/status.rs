use vstd::prelude::*;
use crate::types::RobotStatus;

verus! {

/// Length of the status cycle, in ticks.
pub const CYCLE_TICKS: u64 = 100;

/// Ticks of the cycle spent moving (the cycle starts there).
pub const MOVING_TICKS: u64 = 60;

/// Cycle position at which charging starts; idle lies between.
pub const CHARGING_START: u64 = 80;

/// Length of the charging ramp, in ticks.
pub const CHARGING_TICKS: u64 = 20;

/// Label of the task carried while moving.
pub open spec fn moving_task() -> Seq<char> {
    "transport_item_A45"@
}

/// The three states of the robot.
pub enum Phase {
    Moving,
    Idle,
    Charging,
}

/// The state that the cycle assigns to a sequence number.
pub open spec fn phase_of(sequence: nat) -> Phase {
    let c = sequence % (CYCLE_TICKS as nat);
    if c < MOVING_TICKS {
        Phase::Moving
    } else if c < CHARGING_START {
        Phase::Idle
    } else {
        Phase::Charging
    }
}

/// The name of a state on the wire.
pub open spec fn phase_name(p: Phase) -> Seq<char> {
    match p {
        Phase::Moving => "moving"@,
        Phase::Idle => "idle"@,
        Phase::Charging => "charging"@,
    }
}

/// Task progress, truncated toward zero: a ramp over the moving window, zero
/// while idle, five points per tick while charging.
pub open spec fn progress_of(sequence: nat) -> nat {
    match phase_of(sequence) {
        Phase::Moving => (sequence % (MOVING_TICKS as nat)) * 100 / (MOVING_TICKS as nat),
        Phase::Idle => 0,
        Phase::Charging => (sequence % (CHARGING_TICKS as nat)) * 5,
    }
}

/// `s` is the status that the cycle assigns to `sequence`.
pub open spec fn status_matches(s: RobotStatus, sequence: nat) -> bool {
    &&& s.state@ == phase_name(phase_of(sequence))
    &&& s.task_progress as nat == progress_of(sequence)
    &&& match phase_of(sequence) {
        Phase::Moving => s.current_task.is_some() && s.current_task.unwrap()@ == moving_task(),
        _ => s.current_task.is_none(),
    }
}

/// Derives the robot status from the sequence number alone.
pub fn robot_status(sequence: u64) -> (s: RobotStatus)
    ensures
        status_matches(s, sequence as nat),
{
    let c: u64 = sequence % CYCLE_TICKS;
    if c < MOVING_TICKS {
        let k: u64 = sequence % MOVING_TICKS;
        let progress: u64 = k * 100 / MOVING_TICKS;
        assert(progress <= 100) by (nonlinear_arith)
            requires
                k < 60,
                progress == k * 100 / 60,
        ;
        RobotStatus {
            state: "moving".to_string(),
            current_task: Some("transport_item_A45".to_string()),
            task_progress: progress as u8,
        }
    } else if c < CHARGING_START {
        RobotStatus { state: "idle".to_string(), current_task: None, task_progress: 0 }
    } else {
        let k: u64 = sequence % CHARGING_TICKS;
        RobotStatus {
            state: "charging".to_string(),
            current_task: None,
            task_progress: (k * 5) as u8,
        }
    }
}

/// The state is one of "moving", "idle" and "charging", and those three
/// names are distinct, so each sequence number has exactly one of them.
pub proof fn lemma_state_vocabulary(sequence: nat)
    ensures
        phase_name(phase_of(sequence)) == "moving"@ || phase_name(phase_of(sequence)) == "idle"@
            || phase_name(phase_of(sequence)) == "charging"@,
        "moving"@ != "idle"@,
        "moving"@ != "charging"@,
        "idle"@ != "charging"@,
{
    reveal_strlit("moving");
    reveal_strlit("idle");
    reveal_strlit("charging");
    assert("moving"@.len() != "idle"@.len());
    assert("moving"@.len() != "charging"@.len());
    assert("idle"@.len() != "charging"@.len());
}

/// The state depends on the sequence number only through its position in
/// the cycle: two numbers with the same remainder by the cycle length are in
/// the same state.
pub proof fn lemma_state_follows_cycle(a: nat, b: nat)
    requires
        a % (CYCLE_TICKS as nat) == b % (CYCLE_TICKS as nat),
    ensures
        phase_of(a) == phase_of(b),
        phase_name(phase_of(a)) == phase_name(phase_of(b)),
{
}

/// The status is reproducible: any two statuses derived for the same
/// sequence number carry the same state, task and progress.
pub proof fn lemma_status_reproducible(a: RobotStatus, b: RobotStatus, sequence: nat)
    requires
        status_matches(a, sequence),
        status_matches(b, sequence),
    ensures
        a.state@ == b.state@,
        a.task_progress == b.task_progress,
        a.current_task.is_some() == b.current_task.is_some(),
        a.current_task.is_some() ==> a.current_task.unwrap()@ == b.current_task.unwrap()@,
{
}

/// Task progress never exceeds 100, whatever the state.
pub proof fn lemma_progress_bounded(sequence: nat)
    ensures
        progress_of(sequence) <= 100,
{
    let k = sequence % (MOVING_TICKS as nat);
    assert(k * 100 / 60 <= 100) by (nonlinear_arith)
        requires
            k < 60,
    ;
}

/// Over the first moving window the progress starts at exactly zero and
/// never decreases.
pub proof fn lemma_moving_ramp(a: nat, b: nat)
    requires
        a <= b < MOVING_TICKS,
    ensures
        phase_of(a) == Phase::Moving,
        phase_of(b) == Phase::Moving,
        progress_of(0) == 0,
        progress_of(a) <= progress_of(b),
{
    assert(a % 60 == a && b % 60 == b);
    assert(a * 100 / 60 <= b * 100 / 60) by (nonlinear_arith)
        requires
            a <= b,
    ;
}

} // verus!
