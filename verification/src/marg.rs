use vstd::prelude::*;

verus! {

/// Which filter a sensor task runs: accelerometer and gyroscope only, or those
/// two with the magnetometer.
#[derive(Clone, Copy, Debug, PartialEq, Eq, Structural)]
pub enum MargMode {
    SixDof,
    NineDof,
}

/// Where a sensor task stands within one tick of its ticker.
#[derive(Clone, Copy, Debug, PartialEq, Eq, Structural)]
pub enum MargPhase {
    /// Waiting for the accelerometer and gyroscope reads.
    AwaitImu,
    /// Waiting for the magnetometer's status read.
    AwaitMagStatus,
    /// Waiting for the magnetic field read.
    AwaitMagField,
    /// Waiting for the orientation to be handed to the serial task.
    AwaitPublished,
    /// Waiting for the next tick.
    AwaitTick,
}

/// What the firmware reports back after performing an action.
#[derive(Clone, Copy, Debug, PartialEq, Eq, Structural)]
pub enum MargEvent {
    /// Both inertial reads were made; whether each succeeded.
    Imu { acc_ok: bool, gyro_ok: bool },
    /// The magnetometer's status read, and whether it succeeded.
    MagStatus { ok: bool },
    /// The magnetic field read, and whether it succeeded.
    MagField { ok: bool },
    /// The current orientation was sent on the channel.
    Published,
    /// The ticker fired.
    Ticked,
}

/// What the firmware is to do next.
#[derive(Clone, Copy, Debug, PartialEq, Eq, Structural)]
pub enum MargAction {
    /// Read the accelerometer and then the gyroscope.
    ReadImu,
    /// Read the magnetometer's status.
    ReadMagStatus,
    /// Read the magnetic field.
    ReadMagField,
    /// Run one filter step on this tick's readings, then send the orientation.
    FilterThenPublish,
    /// Send the orientation without a filter step.
    Publish,
    /// Wait for the next tick.
    WaitTick,
}

/// The decisions of a sensor task, one transition per reported event: after
/// both inertial reads succeed, the six-axis task filters and publishes, while
/// the nine-axis task reads the magnetometer's status and, if that succeeds,
/// the field, filtering only when the field is in; either way it publishes.
/// A failed inertial read skips the rest of the tick. An event that does not
/// answer the pending action abandons the tick.
pub open spec fn marg_next(mode: MargMode, phase: MargPhase, event: MargEvent) -> (
    MargPhase,
    MargAction,
) {
    match (phase, event) {
        (MargPhase::AwaitImu, MargEvent::Imu { acc_ok, gyro_ok }) => if acc_ok && gyro_ok {
            match mode {
                MargMode::SixDof => (MargPhase::AwaitPublished, MargAction::FilterThenPublish),
                MargMode::NineDof => (MargPhase::AwaitMagStatus, MargAction::ReadMagStatus),
            }
        } else {
            (MargPhase::AwaitTick, MargAction::WaitTick)
        },
        (MargPhase::AwaitMagStatus, MargEvent::MagStatus { ok }) => if ok {
            (MargPhase::AwaitMagField, MargAction::ReadMagField)
        } else {
            (MargPhase::AwaitPublished, MargAction::Publish)
        },
        (MargPhase::AwaitMagField, MargEvent::MagField { ok }) => (
            MargPhase::AwaitPublished,
            if ok {
                MargAction::FilterThenPublish
            } else {
                MargAction::Publish
            },
        ),
        (MargPhase::AwaitPublished, MargEvent::Published) => (
            MargPhase::AwaitTick,
            MargAction::WaitTick,
        ),
        (MargPhase::AwaitTick, MargEvent::Ticked) => (MargPhase::AwaitImu, MargAction::ReadImu),
        _ => (MargPhase::AwaitTick, MargAction::WaitTick),
    }
}

/// The decision state of a sensor task.
pub struct MargTask {
    pub mode: MargMode,
    pub phase: MargPhase,
}

impl MargTask {
    /// A task of the given kind at the start of a tick; its first action is to
    /// read the accelerometer and gyroscope.
    pub fn new(mode: MargMode) -> (task: MargTask)
        ensures
            task.mode == mode,
            task.phase == MargPhase::AwaitImu,
    {
        MargTask { mode, phase: MargPhase::AwaitImu }
    }

    /// Takes the outcome of the last action and returns the next action.
    pub fn step(&mut self, event: MargEvent) -> (action: MargAction)
        ensures
            final(self).mode == old(self).mode,
            (final(self).phase, action) == marg_next(old(self).mode, old(self).phase, event),
    {
        let (phase, action) = match (self.phase, event) {
            (MargPhase::AwaitImu, MargEvent::Imu { acc_ok, gyro_ok }) => {
                if acc_ok && gyro_ok {
                    match self.mode {
                        MargMode::SixDof => (
                            MargPhase::AwaitPublished,
                            MargAction::FilterThenPublish,
                        ),
                        MargMode::NineDof => (MargPhase::AwaitMagStatus, MargAction::ReadMagStatus),
                    }
                } else {
                    (MargPhase::AwaitTick, MargAction::WaitTick)
                }
            },
            (MargPhase::AwaitMagStatus, MargEvent::MagStatus { ok }) => {
                if ok {
                    (MargPhase::AwaitMagField, MargAction::ReadMagField)
                } else {
                    (MargPhase::AwaitPublished, MargAction::Publish)
                }
            },
            (MargPhase::AwaitMagField, MargEvent::MagField { ok }) => {
                if ok {
                    (MargPhase::AwaitPublished, MargAction::FilterThenPublish)
                } else {
                    (MargPhase::AwaitPublished, MargAction::Publish)
                }
            },
            (MargPhase::AwaitPublished, MargEvent::Published) => (
                MargPhase::AwaitTick,
                MargAction::WaitTick,
            ),
            (MargPhase::AwaitTick, MargEvent::Ticked) => (MargPhase::AwaitImu, MargAction::ReadImu),
            _ => (MargPhase::AwaitTick, MargAction::WaitTick),
        };
        self.phase = phase;
        action
    }
}

/// The event the firmware reports for an action on a tick whose reads turn out
/// as given.
pub open spec fn marg_answer(
    action: MargAction,
    acc_ok: bool,
    gyro_ok: bool,
    status_ok: bool,
    field_ok: bool,
) -> MargEvent {
    match action {
        MargAction::ReadImu => MargEvent::Imu { acc_ok, gyro_ok },
        MargAction::ReadMagStatus => MargEvent::MagStatus { ok: status_ok },
        MargAction::ReadMagField => MargEvent::MagField { ok: field_ok },
        MargAction::FilterThenPublish => MargEvent::Published,
        MargAction::Publish => MargEvent::Published,
        MargAction::WaitTick => MargEvent::Ticked,
    }
}

/// The actions a task issues when fed `event` in `phase` and then the answers
/// to its own actions, up to and including the next `ReadImu` (at most `fuel`
/// actions).
pub open spec fn marg_run(
    mode: MargMode,
    phase: MargPhase,
    event: MargEvent,
    acc_ok: bool,
    gyro_ok: bool,
    status_ok: bool,
    field_ok: bool,
    fuel: nat,
) -> Seq<MargAction>
    decreases fuel,
{
    if fuel == 0 {
        Seq::empty()
    } else {
        let (next_phase, action) = marg_next(mode, phase, event);
        if action == MargAction::ReadImu {
            seq![action]
        } else {
            seq![action] + marg_run(
                mode,
                next_phase,
                marg_answer(action, acc_ok, gyro_ok, status_ok, field_ok),
                acc_ok,
                gyro_ok,
                status_ok,
                field_ok,
                (fuel - 1) as nat,
            )
        }
    }
}

/// The actions of one tick: from the inertial reads' outcome to the start of
/// the next tick's reads.
pub open spec fn marg_tick(
    mode: MargMode,
    acc_ok: bool,
    gyro_ok: bool,
    status_ok: bool,
    field_ok: bool,
) -> Seq<MargAction> {
    marg_run(
        mode,
        MargPhase::AwaitImu,
        MargEvent::Imu { acc_ok, gyro_ok },
        acc_ok,
        gyro_ok,
        status_ok,
        field_ok,
        6,
    )
}

/// The phase a task is left in after the actions that `marg_run` lists.
pub open spec fn marg_run_phase(
    mode: MargMode,
    phase: MargPhase,
    event: MargEvent,
    acc_ok: bool,
    gyro_ok: bool,
    status_ok: bool,
    field_ok: bool,
    fuel: nat,
) -> MargPhase
    decreases fuel,
{
    if fuel == 0 {
        phase
    } else {
        let (next_phase, action) = marg_next(mode, phase, event);
        if action == MargAction::ReadImu {
            next_phase
        } else {
            marg_run_phase(
                mode,
                next_phase,
                marg_answer(action, acc_ok, gyro_ok, status_ok, field_ok),
                acc_ok,
                gyro_ok,
                status_ok,
                field_ok,
                (fuel - 1) as nat,
            )
        }
    }
}

/// What the sensor task does on a tick whose reads turn out as given, read off
/// its chain of checks: nothing but the wait if an inertial read fails;
/// otherwise the six-axis task filters and publishes, and the nine-axis task
/// reads the magnetometer's status, then (if the status is good) the field,
/// filters only if the field is in, and publishes in every case; then it waits
/// for the ticker and reads the inertial sensors again.
pub open spec fn sensor_tick(
    mode: MargMode,
    acc_ok: bool,
    gyro_ok: bool,
    status_ok: bool,
    field_ok: bool,
) -> Seq<MargAction> {
    if !(acc_ok && gyro_ok) {
        seq![MargAction::WaitTick, MargAction::ReadImu]
    } else if mode == MargMode::SixDof {
        seq![MargAction::FilterThenPublish, MargAction::WaitTick, MargAction::ReadImu]
    } else if !status_ok {
        seq![MargAction::ReadMagStatus, MargAction::Publish, MargAction::WaitTick, MargAction::ReadImu]
    } else {
        seq![
            MargAction::ReadMagStatus,
            MargAction::ReadMagField,
            if field_ok {
                MargAction::FilterThenPublish
            } else {
                MargAction::Publish
            },
            MargAction::WaitTick,
            MargAction::ReadImu,
        ]
    }
}

/// The properties a tick's actions must have, given its reads: it ends by
/// waiting for the ticker and then reading the inertial sensors again; it
/// publishes exactly once if both inertial reads succeed and not at all
/// otherwise; it runs the filter exactly when every read it needs succeeded;
/// it reads the magnetometer's status only in the nine-axis task after good
/// inertial reads, and the field only after a good status as well.
pub open spec fn tick_is_sound(
    mode: MargMode,
    acc_ok: bool,
    gyro_ok: bool,
    status_ok: bool,
    field_ok: bool,
    t: Seq<MargAction>,
) -> bool {
    let imu_ok = acc_ok && gyro_ok;
    let nine = mode == MargMode::NineDof;
    &&& t.len() >= 2
    &&& t.last() == MargAction::ReadImu
    &&& t[t.len() - 2] == MargAction::WaitTick
    &&& t.contains(MargAction::FilterThenPublish) <==> imu_ok && (!nine || (status_ok && field_ok))
    &&& t.contains(MargAction::Publish) <==> imu_ok && nine && !(status_ok && field_ok)
    &&& t.contains(MargAction::ReadMagStatus) <==> imu_ok && nine
    &&& t.contains(MargAction::ReadMagField) <==> imu_ok && nine && status_ok
    &&& t.filter(|a: MargAction| a == MargAction::FilterThenPublish || a == MargAction::Publish).len()
        == (if imu_ok {
        1nat
    } else {
        0nat
    })
}

/// The actions of a run of consecutive ticks, the task starting in `phase`:
/// each tick begins with the inertial reads' outcome, answers its own actions
/// with that tick's reads, and hands its final phase on to the next tick.
/// Each element of `reads` is (accelerometer, gyroscope, status, field).
pub open spec fn marg_ticks(
    mode: MargMode,
    phase: MargPhase,
    reads: Seq<(bool, bool, bool, bool)>,
) -> Seq<Seq<MargAction>>
    decreases reads.len(),
{
    if reads.len() == 0 {
        Seq::empty()
    } else {
        let r = reads[0];
        let event = MargEvent::Imu { acc_ok: r.0, gyro_ok: r.1 };
        let t = marg_run(mode, phase, event, r.0, r.1, r.2, r.3, 6);
        let next = marg_run_phase(mode, phase, event, r.0, r.1, r.2, r.3, 6);
        seq![t] + marg_ticks(mode, next, reads.drop_first())
    }
}

/// What one tick does, whatever its reads return: the actions listed in
/// `sensor_tick`, which have the properties of `tick_is_sound`, and the task
/// ends the tick back where it started, waiting for the inertial reads, so the
/// next tick starts afresh.
pub proof fn lemma_marg_tick(
    mode: MargMode,
    acc_ok: bool,
    gyro_ok: bool,
    status_ok: bool,
    field_ok: bool,
)
    ensures
        marg_tick(mode, acc_ok, gyro_ok, status_ok, field_ok) == sensor_tick(
            mode,
            acc_ok,
            gyro_ok,
            status_ok,
            field_ok,
        ),
        tick_is_sound(
            mode,
            acc_ok,
            gyro_ok,
            status_ok,
            field_ok,
            marg_tick(mode, acc_ok, gyro_ok, status_ok, field_ok),
        ),
        marg_run_phase(
            mode,
            MargPhase::AwaitImu,
            MargEvent::Imu { acc_ok, gyro_ok },
            acc_ok,
            gyro_ok,
            status_ok,
            field_ok,
            6,
        ) == MargPhase::AwaitImu,
{
    reveal_with_fuel(marg_run, 7);
    reveal_with_fuel(marg_run_phase, 7);
    reveal_with_fuel(Seq::filter, 7);
    let t = marg_tick(mode, acc_ok, gyro_ok, status_ok, field_ok);
    let imu_ok = acc_ok && gyro_ok;
    if !imu_ok {
        assert(t =~= seq![MargAction::WaitTick, MargAction::ReadImu]);
    } else if mode == MargMode::SixDof {
        assert(t =~= seq![MargAction::FilterThenPublish, MargAction::WaitTick, MargAction::ReadImu]);
    } else if !status_ok {
        assert(t =~= seq![
            MargAction::ReadMagStatus,
            MargAction::Publish,
            MargAction::WaitTick,
            MargAction::ReadImu,
        ]);
    } else if !field_ok {
        assert(t =~= seq![
            MargAction::ReadMagStatus,
            MargAction::ReadMagField,
            MargAction::Publish,
            MargAction::WaitTick,
            MargAction::ReadImu,
        ]);
    } else {
        assert(t =~= seq![
            MargAction::ReadMagStatus,
            MargAction::ReadMagField,
            MargAction::FilterThenPublish,
            MargAction::WaitTick,
            MargAction::ReadImu,
        ]);
    }
}

/// Over any run of consecutive ticks of a fresh task, whatever each tick's
/// reads return, every tick does what `sensor_tick` lists for its own reads
/// and has the properties of `tick_is_sound`: nothing carries over from one
/// tick to the next, so every good tick filters and publishes as the first
/// one does.
pub proof fn lemma_marg_ticks(mode: MargMode, reads: Seq<(bool, bool, bool, bool)>)
    ensures
        marg_ticks(mode, MargPhase::AwaitImu, reads).len() == reads.len(),
        forall|k: int|
            0 <= k < reads.len() ==> {
                let r = #[trigger] reads[k];
                let t = marg_ticks(mode, MargPhase::AwaitImu, reads)[k];
                &&& t == sensor_tick(mode, r.0, r.1, r.2, r.3)
                &&& tick_is_sound(mode, r.0, r.1, r.2, r.3, t)
            },
    decreases reads.len(),
{
    if reads.len() > 0 {
        let r = reads[0];
        lemma_marg_tick(mode, r.0, r.1, r.2, r.3);
        let rest = reads.drop_first();
        lemma_marg_ticks(mode, rest);
        let all = marg_ticks(mode, MargPhase::AwaitImu, reads);
        assert(all == seq![marg_tick(mode, r.0, r.1, r.2, r.3)] + marg_ticks(
            mode,
            MargPhase::AwaitImu,
            rest,
        ));
        assert forall|k: int| 0 <= k < reads.len() implies {
            let r = #[trigger] reads[k];
            let t = marg_ticks(mode, MargPhase::AwaitImu, reads)[k];
            &&& t == sensor_tick(mode, r.0, r.1, r.2, r.3)
            &&& tick_is_sound(mode, r.0, r.1, r.2, r.3, t)
        } by {
            if k > 0 {
                assert(reads[k] == rest[k - 1]);
                assert(all[k] == marg_ticks(mode, MargPhase::AwaitImu, rest)[k - 1]);
            }
        }
    }
}

} // verus!
