use madquatter::{MargAction, MargEvent, MargMode, MargPhase, MargTask};

/// Drives one tick: reads as given, each action answered as the firmware does.
fn run_tick(task: &mut MargTask, acc_ok: bool, gyro_ok: bool, status_ok: bool, field_ok: bool) -> Vec<MargAction> {
    let mut actions = Vec::new();
    let mut event = MargEvent::Imu { acc_ok, gyro_ok };
    loop {
        let action = task.step(event);
        actions.push(action);
        event = match action {
            MargAction::ReadImu => break,
            MargAction::ReadMagStatus => MargEvent::MagStatus { ok: status_ok },
            MargAction::ReadMagField => MargEvent::MagField { ok: field_ok },
            MargAction::FilterThenPublish | MargAction::Publish => MargEvent::Published,
            MargAction::WaitTick => MargEvent::Ticked,
        };
        assert!(actions.len() < 10);
    }
    actions
}

use madquatter::MargAction::{FilterThenPublish, Publish, ReadImu, ReadMagField, ReadMagStatus, WaitTick};

#[test]
fn new_task_waits_for_inertial_reads() {
    let t = MargTask::new(MargMode::NineDof);
    assert_eq!(t.phase, MargPhase::AwaitImu);
    assert_eq!(t.mode, MargMode::NineDof);
}

#[test]
fn nine_dof_all_reads_good_filters_and_publishes() {
    let mut t = MargTask::new(MargMode::NineDof);
    assert_eq!(run_tick(&mut t, true, true, true, true), vec![ReadMagStatus, ReadMagField, FilterThenPublish, WaitTick, ReadImu]);
    assert_eq!(t.phase, MargPhase::AwaitImu);
}

#[test]
fn nine_dof_bad_field_publishes_without_filter() {
    let mut t = MargTask::new(MargMode::NineDof);
    assert_eq!(run_tick(&mut t, true, true, true, false), vec![ReadMagStatus, ReadMagField, Publish, WaitTick, ReadImu]);
}

#[test]
fn nine_dof_bad_status_skips_field_read() {
    let mut t = MargTask::new(MargMode::NineDof);
    assert_eq!(run_tick(&mut t, true, true, false, true), vec![ReadMagStatus, Publish, WaitTick, ReadImu]);
}

#[test]
fn failed_inertial_read_skips_the_tick() {
    for mode in [MargMode::SixDof, MargMode::NineDof] {
        for (acc, gyro) in [(false, true), (true, false), (false, false)] {
            let mut t = MargTask::new(mode);
            assert_eq!(run_tick(&mut t, acc, gyro, true, true), vec![WaitTick, ReadImu]);
        }
    }
}

#[test]
fn six_dof_good_reads_filter_and_publish() {
    let mut t = MargTask::new(MargMode::SixDof);
    assert_eq!(run_tick(&mut t, true, true, false, false), vec![FilterThenPublish, WaitTick, ReadImu]);
}

#[test]
fn publishes_once_per_good_tick_over_many_ticks() {
    let mut t = MargTask::new(MargMode::NineDof);
    let mut published = 0;
    for k in 0..20u32 {
        let imu_ok = k % 3 != 0;
        let actions = run_tick(&mut t, imu_ok, true, k % 2 == 0, k % 5 != 0);
        published += actions.iter().filter(|a| matches!(a, FilterThenPublish | Publish)).count();
    }
    assert_eq!(published, (0..20u32).filter(|k| k % 3 != 0).count());
}

#[test]
fn stray_event_abandons_the_tick() {
    let mut t = MargTask::new(MargMode::NineDof);
    assert_eq!(t.step(MargEvent::Published), WaitTick);
    assert_eq!(t.phase, MargPhase::AwaitTick);
    assert_eq!(t.step(MargEvent::Ticked), ReadImu);
    assert_eq!(t.phase, MargPhase::AwaitImu);
}
