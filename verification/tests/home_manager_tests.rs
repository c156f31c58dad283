use home_assist::calendar::ClockTime;
use home_assist::hass::EvStatus;
use home_assist::home_manager::{
    charger_should_run, forecast_total, min_soc_target, time_state_at, Cycle, CycleStep, State,
    StepReply, TariffTask, TimeState, BASELINE_MIN_SOC, BASE_HOUSE_USAGE_WH, HOME_SOC_MAX, HOME_SOC_MIN,
};

fn clock(hour: u8, minute: u8, second: u8, nanosecond: u32) -> ClockTime {
    ClockTime { hour, minute, second, nanosecond }
}

#[test]
fn tariff_window_boundaries() {
    assert_eq!(time_state_at(&clock(5, 30, 0, 0)), TimeState::Tariff);
    assert_eq!(time_state_at(&clock(5, 30, 0, 1)), TimeState::Standard);
    assert_eq!(time_state_at(&clock(5, 29, 59, 999_999_999)), TimeState::Tariff);
    assert_eq!(time_state_at(&clock(12, 0, 0, 0)), TimeState::Standard);
    assert_eq!(time_state_at(&clock(23, 29, 59, 999_999_999)), TimeState::Standard);
    assert_eq!(time_state_at(&clock(23, 30, 0, 0)), TimeState::Tariff);
    assert_eq!(time_state_at(&clock(0, 0, 0, 0)), TimeState::Tariff);
    assert_eq!(time_state_at(&clock(3, 15, 0, 0)), TimeState::Tariff);
}

/// Runs a cycle with the given replies; gives the end state and whether the
/// charger was set.
fn run(from: State, to: TimeState, reachable: bool, task_ok: bool) -> (State, bool, Vec<CycleStep>) {
    let cycle = Cycle { from, to };
    let mut step = cycle.first_step();
    let mut charged = false;
    let mut steps = vec![step];
    loop {
        let reply = match step {
            CycleStep::ProbeEndpoints => StepReply::EndpointsChecked(reachable),
            CycleStep::RunTask(_) => StepReply::TaskFinished(task_ok),
            CycleStep::UpdateEvCharger => {
                charged = true;
                StepReply::ChargerUpdated
            }
            CycleStep::Done(state) => return (state, charged, steps),
        };
        step = cycle.next_step(step, reply);
        steps.push(step);
    }
}

#[test]
fn offline_cycles() {
    let tariff = State::Online(TimeState::Tariff);
    assert_eq!(run(State::Offline, TimeState::Tariff, true, true).0, tariff);
    assert!(run(State::Offline, TimeState::Tariff, true, true).1);
    assert_eq!(
        run(State::Offline, TimeState::Tariff, true, true).2,
        vec![
            CycleStep::ProbeEndpoints,
            CycleStep::RunTask(TariffTask::Start),
            CycleStep::UpdateEvCharger,
            CycleStep::Done(tariff)
        ]
    );
    assert_eq!(run(State::Offline, TimeState::Tariff, true, false), (State::Offline, false, vec![
        CycleStep::ProbeEndpoints,
        CycleStep::RunTask(TariffTask::Start),
        CycleStep::Done(State::Offline)
    ]));
    assert_eq!(run(State::Offline, TimeState::Tariff, false, true).0, State::Offline);
    // Reachable in the standard part of the day: the manager stays offline.
    assert_eq!(run(State::Offline, TimeState::Standard, true, true), (State::Offline, false, vec![
        CycleStep::ProbeEndpoints,
        CycleStep::Done(State::Offline)
    ]));
    assert_eq!(run(State::Offline, TimeState::Standard, false, true).1, false);
}

#[test]
fn online_cycles() {
    let standard = State::Online(TimeState::Standard);
    let tariff = State::Online(TimeState::Tariff);
    assert_eq!(
        Cycle { from: standard, to: TimeState::Tariff }.first_step(),
        CycleStep::RunTask(TariffTask::Start)
    );
    assert_eq!(
        Cycle { from: tariff, to: TimeState::Standard }.first_step(),
        CycleStep::RunTask(TariffTask::End)
    );
    assert_eq!(
        Cycle { from: tariff, to: TimeState::Tariff }.first_step(),
        CycleStep::RunTask(TariffTask::Update)
    );
    assert_eq!(
        Cycle { from: standard, to: TimeState::Standard }.first_step(),
        CycleStep::UpdateEvCharger
    );
    assert_eq!(run(standard, TimeState::Tariff, false, true).0, tariff);
    assert_eq!(run(standard, TimeState::Tariff, true, false), (State::Offline, false, vec![
        CycleStep::RunTask(TariffTask::Start),
        CycleStep::Done(State::Offline)
    ]));
    assert_eq!(run(tariff, TimeState::Standard, true, true), (standard, true, vec![
        CycleStep::RunTask(TariffTask::End),
        CycleStep::UpdateEvCharger,
        CycleStep::Done(standard)
    ]));
    assert_eq!(run(tariff, TimeState::Standard, true, false).0, State::Offline);
    assert_eq!(run(tariff, TimeState::Tariff, true, false).0, State::Offline);
    assert_eq!(run(tariff, TimeState::Tariff, true, true).0, tariff);
    // Nothing but the charger in the standard part of the day, and it cannot fail.
    assert_eq!(run(standard, TimeState::Standard, false, false), (standard, true, vec![
        CycleStep::UpdateEvCharger,
        CycleStep::Done(standard)
    ]));
}

#[test]
fn panel_status_flags() {
    assert!(State::Online(TimeState::Tariff).shows_tariff());
    assert!(!State::Online(TimeState::Standard).shows_tariff());
    assert!(!State::Offline.shows_tariff());
    assert!(State::Online(TimeState::Standard).is_online());
    assert!(!State::Offline.is_online());
}

#[test]
fn min_soc_targets() {
    let none = [0i64; 24];
    // Solar covers use: the floor.
    let mut sunny = [0i64; 24];
    sunny[12] = 7000;
    assert_eq!(min_soc_target(6000, &sunny, 23, 95), 23);
    assert_eq!(min_soc_target(7000, &sunny, 23, 95), 23);
    // 960 Wh short: 50 percent.
    assert_eq!(min_soc_target(960, &none, 23, 95), 73);
    // 1000 Wh short: 52.08 percent, 52.
    assert_eq!(min_soc_target(1000, &none, 23, 95), 75);
    // 48 Wh short: 2.5 percent rounds up to 3.
    assert_eq!(min_soc_target(48, &none, 23, 95), 26);
    // 47 Wh short: 2.45 percent rounds down to 2.
    assert_eq!(min_soc_target(47, &none, 23, 95), 25);
    // 1 Wh short: 0.05 percent, 0.
    assert_eq!(min_soc_target(1, &none, 23, 95), 23);
    // A large shortfall is capped at the ceiling.
    assert_eq!(min_soc_target(6000, &none, 23, 95), 95);
    assert_eq!(min_soc_target(i64::MAX, &[i64::MIN; 24], 23, 95), 95);
    assert_eq!(min_soc_target(i64::MIN, &[i64::MAX; 24], 23, 95), 23);
    // Negative forecasts add to the shortfall.
    let mut negative = [0i64; 24];
    negative[3] = -960;
    assert_eq!(min_soc_target(0, &negative, 23, 95), 73);
    // A ceiling below the floor leaves the floor.
    assert_eq!(min_soc_target(6000, &none, 60, 40), 60);
    assert_eq!(min_soc_target(6000, &none, 40, 40), 40);
    assert_eq!(BASELINE_MIN_SOC, 23);
    assert_eq!((HOME_SOC_MIN, HOME_SOC_MAX, BASE_HOUSE_USAGE_WH), (23, 95, 3600));
}

#[test]
fn min_soc_never_falls_as_shortfall_grows() {
    let none = [0i64; 24];
    let mut last = 0u8;
    for usage in -100i64..2000 {
        let t = min_soc_target(usage, &none, 23, 95);
        assert!(t >= last);
        assert!((23..=95).contains(&t));
        last = t;
    }
}

#[test]
fn forecast_sums_hours() {
    let mut hours = [0i64; 24];
    for (i, h) in hours.iter_mut().enumerate() {
        *h = i as i64 * 10;
    }
    assert_eq!(forecast_total(&hours), 2760);
    assert_eq!(forecast_total(&[i64::MAX; 24]), i64::MAX as i128 * 24);
}

#[test]
fn charger_decision() {
    let ev = |battery_percent, at_home, plugged_in| EvStatus { battery_percent, at_home, plugged_in };
    assert!(!charger_should_run(&ev(95, true, true), 95));
    assert!(!charger_should_run(&ev(100, true, true), 95));
    assert!(charger_should_run(&ev(94, true, true), 95));
    assert!(charger_should_run(&ev(99, false, true), 95));
    assert!(charger_should_run(&ev(99, true, false), 95));
    assert!(charger_should_run(&ev(30, true, true), 25) == false);
}
