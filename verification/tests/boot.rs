//! How the CPUs start together.

use rvm::boot::{
    entry, has_err, primary_init_early, primary_init_late, wait_for, wait_for_counter,
    BootCounters, BootCpu, BootPhase, EarlyStep,
};
use rvm::error::{HvError, HvErrorNum, HvResult};

const NOTHING: BootCounters =
    BootCounters { entered_cpus: 0, inited_cpus: 0, init_early_ok: 0, init_late_ok: 0 };

fn other_failed() -> HvError {
    HvError::new(HvErrorNum::EBUSY, "Other cpu init failed!")
}

#[test]
fn any_error_number_counts() {
    assert!(!has_err(0));
    assert!(has_err(-16));
    assert!(has_err(1));
}

#[test]
fn waiting_ends_with_the_condition() {
    assert_eq!(wait_for(0, true, 0), None);
    assert_eq!(wait_for(0, false, 0), Some(Ok(())));
}

#[test]
fn waiting_ends_with_a_failure_elsewhere() {
    assert_eq!(wait_for(-5, true, -5), Some(Err(other_failed())));
    assert_eq!(wait_for(-5, false, -5), Some(Err(other_failed())));
    assert_eq!(wait_for(0, false, -5), Some(Err(other_failed())));
    assert_eq!(wait_for(0, true, -5), None);
}

#[test]
fn counters_are_waited_for() {
    assert_eq!(wait_for_counter(3, 4, 0, 0), None);
    assert_eq!(wait_for_counter(4, 4, 0, 0), Some(Ok(())));
    assert_eq!(wait_for_counter(5, 4, 0, 0), Some(Ok(())));
    assert_eq!(wait_for_counter(3, 4, -22, -22), Some(Err(other_failed())));
}

#[test]
fn early_steps_come_in_order() {
    let mut taken = Vec::new();
    let mut next = primary_init_early(None).unwrap();
    while let Some(step) = next {
        taken.push(step);
        next = primary_init_early(Some((step, Ok(())))).unwrap();
    }
    assert_eq!(
        taken,
        vec![
            EarlyStep::InitLogging,
            EarlyStep::PrintConfig,
            EarlyStep::InitHeap,
            EarlyStep::CheckConfig,
            EarlyStep::InitFrameAllocator,
            EarlyStep::InitHvPageTable,
            EarlyStep::InitCells,
            EarlyStep::Announce,
        ]
    );
}

#[test]
fn a_failed_early_step_ends_it() {
    let bad = HvError::new(HvErrorNum::EINVAL, "bad signature");
    assert_eq!(primary_init_early(Some((EarlyStep::CheckConfig, Err(bad)))), Err(bad));
}

#[test]
fn late_step_lets_the_others_go() {
    assert_eq!(primary_init_late(), 1);
    let mut cpu = BootCpu::new(1, 2);
    cpu.phase = BootPhase::WaitLate;
    let done = BootCounters { init_late_ok: primary_init_late(), ..NOTHING };
    assert_eq!(cpu.wait(&NOTHING, 0, 0), None);
    assert_eq!(cpu.wait(&done, 0, 0), Some(Ok(())));
}

#[test]
fn the_first_cpu_is_primary() {
    assert!(BootCpu::new(0, 4).is_primary());
    assert!(!BootCpu::new(1, 4).is_primary());
}

/// Lets every CPU go as far as it can, in turns, until none moves any more.
fn run(online: u32, fails: fn(u32, BootPhase) -> bool) -> (Vec<BootCpu>, BootCounters, i32) {
    let mut counters = NOTHING;
    let mut error_num: i32 = 0;
    let mut cpus: Vec<BootCpu> = (0..online).map(|id| BootCpu::new(id, online)).collect();
    let mut ended: Vec<bool> = vec![false; online as usize];
    counters.entered_cpus = online;
    loop {
        let mut moved = false;
        for i in (0..cpus.len()).rev() {
            let cpu = &mut cpus[i];
            if ended[i] || (cpu.phase == BootPhase::Activate && !fails(cpu.id, cpu.phase)) {
                continue;
            }
            let outcome: HvResult<()> = match cpu.phase {
                BootPhase::WaitEntered
                | BootPhase::WaitEarly
                | BootPhase::WaitInited
                | BootPhase::WaitLate => match cpu.wait(&counters, error_num, error_num) {
                    None => continue,
                    Some(outcome) => outcome,
                },
                phase if fails(cpu.id, phase) => Err(HvError::new(HvErrorNum::ENODEV, "")),
                BootPhase::InitEarly => {
                    counters.init_early_ok = 1;
                    Ok(())
                }
                BootPhase::CountInited => {
                    counters.inited_cpus += 1;
                    Ok(())
                }
                BootPhase::InitLate => {
                    counters.init_late_ok = primary_init_late();
                    Ok(())
                }
                _ => Ok(()),
            };
            moved = true;
            let result = cpu.advance(outcome);
            assert_eq!(result, outcome);
            if result.is_err() {
                error_num = entry(result, error_num);
                ended[i] = true;
            }
            // Whoever is at its guest sees all CPUs set up.
            if cpu.phase == BootPhase::Activate {
                assert_eq!(counters.inited_cpus, online);
                assert_eq!(counters.init_early_ok, 1);
                assert_eq!(counters.init_late_ok, 1);
            }
        }
        if !moved {
            return (cpus, counters, error_num);
        }
    }
}

#[test]
fn all_cpus_reach_their_guests() {
    let (cpus, counters, error_num) = run(4, |_, _| false);
    for cpu in cpus {
        assert_eq!(cpu.phase, BootPhase::Activate);
    }
    assert_eq!(
        counters,
        BootCounters { entered_cpus: 4, inited_cpus: 4, init_early_ok: 1, init_late_ok: 1 }
    );
    assert_eq!(error_num, 0);
}

#[test]
fn one_failure_stops_all() {
    let (cpus, counters, error_num) = run(3, |id, phase| id == 2 && phase == BootPhase::InitCpu);
    for cpu in cpus {
        assert_ne!(cpu.phase, BootPhase::Activate);
    }
    assert!(counters.inited_cpus < 3);
    assert_eq!(error_num, -16);
}

#[test]
fn failed_shared_setup_keeps_everyone_out() {
    let (cpus, counters, error_num) = run(2, |_, phase| phase == BootPhase::InitEarly);
    assert_eq!(cpus[0].phase, BootPhase::InitEarly);
    assert_eq!(cpus[1].phase, BootPhase::WaitEarly);
    assert_eq!(counters.inited_cpus, 0);
    assert_ne!(error_num, 0);
}

#[test]
fn the_driver_gets_the_error() {
    assert_eq!(entry(Ok(()), 0), 0);
    assert_eq!(entry(Ok(()), -5), -5);
    assert_eq!(entry(Err(HvError::new(HvErrorNum::EINVAL, "")), 0), -22);
    assert_eq!(entry(Err(other_failed()), -22), -16);
}
