//! The manager's decisions: which part of the day the tariff is in, what each
//! control cycle does next, the battery's minimum charge for the night and
//! whether the car charger should run.
use vstd::prelude::*;

use crate::calendar::ClockTime;
use crate::hass::EvStatus;

verus! {

/// Part of the day with respect to the cheap tariff.
#[derive(Debug, Clone, Copy, PartialEq, Eq, Structural)]
pub enum TimeState {
    Standard,
    Tariff,
}

/// Whether the manager reaches Home Assistant, and in which part of the day it
/// last acted.
#[derive(Debug, Clone, Copy, PartialEq, Eq, Structural)]
pub enum State {
    Offline,
    Online(TimeState),
}

/// Start of the cheap tariff window, 23:30.
pub open spec fn tariff_start() -> ClockTime {
    ClockTime { hour: 23, minute: 30, second: 0, nanosecond: 0 }
}

/// End of the cheap tariff window, 05:30.
pub open spec fn tariff_end() -> ClockTime {
    ClockTime { hour: 5, minute: 30, second: 0, nanosecond: 0 }
}

/// The part of the day at time `t`: standard strictly between the end of the
/// tariff (05:30) and its start (23:30), tariff otherwise (both ends included).
pub fn time_state_at(t: &ClockTime) -> (r: TimeState)
    requires
        t.is_valid(),
    ensures
        r == TimeState::Standard <==> (tariff_end().since_midnight() < t.since_midnight()
            < tariff_start().since_midnight()),
{
    let after_end = t.hour > 5 || (t.hour == 5 && (t.minute > 30 || (t.minute == 30 && (
    t.second > 0 || t.nanosecond > 0))));
    let before_start = t.hour < 23 || (t.hour == 23 && t.minute < 30);
    proof {
        let h = t.hour as int;
        let m = t.minute as int;
        let s = t.second as int;
        let n = t.nanosecond as int;
        assert(t.since_midnight() == h * 3_600_000_000_000 + m * 60_000_000_000 + s
            * 1_000_000_000 + n) by (nonlinear_arith)
            requires
                t.since_midnight() == ((h * 60 + m) * 60 + s) * 1_000_000_000 + n,
        ;
    }
    if after_end && before_start {
        TimeState::Standard
    } else {
        TimeState::Tariff
    }
}

impl State {
    /// Whether the manager is online, as the panel shows it.
    pub fn is_online(&self) -> (r: bool)
        ensures
            r == (*self is Online),
    {
        match self {
            State::Online(_) => true,
            State::Offline => false,
        }
    }

    /// Whether the panel shows the tariff as running: online, in the tariff window.
    pub fn shows_tariff(&self) -> (r: bool)
        ensures
            r == (*self == State::Online(TimeState::Tariff)),
    {
        match self {
            State::Online(TimeState::Tariff) => true,
            _ => false,
        }
    }
}

/// Work done when the tariff window opens, closes, or while it lasts.
#[derive(Debug, Clone, Copy, PartialEq, Eq, Structural)]
pub enum TariffTask {
    /// Train on yesterday's solar output, forecast the next day, set the battery.
    Start,
    /// Reset the battery's minimum charge.
    End,
    /// Refresh the forecast and the battery's minimum charge.
    Update,
}

/// What a control cycle does next.
#[derive(Debug, Clone, Copy, PartialEq, Eq, Structural)]
pub enum CycleStep {
    /// Check that Home Assistant and the weather service answer.
    ProbeEndpoints,
    /// Carry out a tariff task.
    RunTask(TariffTask),
    /// Switch the car charger on or off.
    UpdateEvCharger,
    /// The cycle is over; the manager's state becomes this one.
    Done(State),
}

/// What came of a step.
#[derive(Debug, Clone, Copy, PartialEq, Eq, Structural)]
pub enum StepReply {
    /// The endpoints answered (`true`) or did not.
    EndpointsChecked(bool),
    /// The task completed (`true`) or met an endpoint that did not answer.
    TaskFinished(bool),
    /// The charger was set.
    ChargerUpdated,
}

/// One control cycle: from the manager's state towards the part of the day
/// that the clock shows.
#[derive(Debug, Clone, Copy, PartialEq, Eq, Structural)]
pub struct Cycle {
    pub from: State,
    pub to: TimeState,
}

/// The tariff task that a move between parts of the day asks for, if any.
pub open spec fn task_for(from: TimeState, to: TimeState) -> Option<TariffTask> {
    match (from, to) {
        (TimeState::Standard, TimeState::Tariff) => Some(TariffTask::Start),
        (TimeState::Tariff, TimeState::Standard) => Some(TariffTask::End),
        (TimeState::Tariff, TimeState::Tariff) => Some(TariffTask::Update),
        (TimeState::Standard, TimeState::Standard) => None,
    }
}

/// The first step of a cycle.
pub open spec fn opening_step(c: Cycle) -> CycleStep {
    match c.from {
        State::Offline => CycleStep::ProbeEndpoints,
        State::Online(ts) => match task_for(ts, c.to) {
            Some(task) => CycleStep::RunTask(task),
            None => CycleStep::UpdateEvCharger,
        },
    }
}

/// Whether `reply` answers `step`.
pub open spec fn answers(step: CycleStep, reply: StepReply) -> bool {
    match step {
        CycleStep::ProbeEndpoints => reply is EndpointsChecked,
        CycleStep::RunTask(_) => reply is TaskFinished,
        CycleStep::UpdateEvCharger => reply is ChargerUpdated,
        CycleStep::Done(_) => false,
    }
}

/// The step after `step`, given its reply. Reaching the endpoints again from
/// offline only leads on in the tariff window, by starting it; a task that
/// meets an unreachable endpoint ends the cycle offline; a cycle ends online,
/// in the part of the day it moved to, only after the charger was set.
pub open spec fn following_step(c: Cycle, step: CycleStep, reply: StepReply) -> CycleStep {
    match (step, reply) {
        (CycleStep::ProbeEndpoints, StepReply::EndpointsChecked(true)) => match c.to {
            TimeState::Tariff => CycleStep::RunTask(TariffTask::Start),
            TimeState::Standard => CycleStep::Done(c.from),
        },
        (CycleStep::ProbeEndpoints, _) => CycleStep::Done(c.from),
        (CycleStep::RunTask(_), StepReply::TaskFinished(true)) => CycleStep::UpdateEvCharger,
        (CycleStep::RunTask(_), _) => CycleStep::Done(State::Offline),
        (_, _) => CycleStep::Done(State::Online(c.to)),
    }
}

impl Cycle {
    /// The first step of the cycle.
    pub fn first_step(&self) -> (r: CycleStep)
        ensures
            r == opening_step(*self),
    {
        match self.from {
            State::Offline => CycleStep::ProbeEndpoints,
            State::Online(TimeState::Standard) => match self.to {
                TimeState::Tariff => CycleStep::RunTask(TariffTask::Start),
                TimeState::Standard => CycleStep::UpdateEvCharger,
            },
            State::Online(TimeState::Tariff) => match self.to {
                TimeState::Tariff => CycleStep::RunTask(TariffTask::Update),
                TimeState::Standard => CycleStep::RunTask(TariffTask::End),
            },
        }
    }

    /// The step after `step`, whose reply is `reply`.
    pub fn next_step(&self, step: CycleStep, reply: StepReply) -> (r: CycleStep)
        requires
            answers(step, reply),
        ensures
            r == following_step(*self, step, reply),
    {
        match (step, reply) {
            (CycleStep::ProbeEndpoints, StepReply::EndpointsChecked(true)) => match self.to {
                TimeState::Tariff => CycleStep::RunTask(TariffTask::Start),
                TimeState::Standard => CycleStep::Done(self.from),
            },
            (CycleStep::ProbeEndpoints, _) => CycleStep::Done(self.from),
            (CycleStep::RunTask(_), StepReply::TaskFinished(true)) => CycleStep::UpdateEvCharger,
            (CycleStep::RunTask(_), _) => CycleStep::Done(State::Offline),
            (_, _) => CycleStep::Done(State::Online(self.to)),
        }
    }
}

/// Minimum charge the battery is reset to when the tariff window closes.
pub const BASELINE_MIN_SOC: u8 = 23;

/// Floor and ceiling of the battery's minimum charge for the night, in percent.
pub const HOME_SOC_MIN: u8 = 23;

pub const HOME_SOC_MAX: u8 = 95;

/// The house's expected use over a day before the appliances, in Wh.
pub const BASE_HOUSE_USAGE_WH: i64 = 3600;

/// Energy that one percent of the battery holds, in Wh per 100 percent.
pub const BATTERY_CAPACITY_WH: i64 = 1920;

pub open spec fn total(s: Seq<i64>) -> int
    decreases s.len(),
{
    if s.len() == 0 {
        0
    } else {
        total(s.drop_last()) + s.last()
    }
}

/// The battery's minimum charge for the night: the floor when the expected
/// solar output covers the expected use; otherwise the floor plus the shortfall
/// as a percentage of the battery (rounded half up), at most up to the
/// ceiling. A ceiling below the floor leaves the floor.
pub open spec fn min_soc_for(usage_wh: int, solar_wh: int, soc_min: int, soc_max: int) -> int {
    let need = usage_wh - solar_wh;
    let room = soc_max - soc_min;
    if need <= 0 || room <= 0 {
        soc_min
    } else {
        let percent = (need * 200 + BATTERY_CAPACITY_WH) / (2 * BATTERY_CAPACITY_WH);
        soc_min + if percent < room {
            percent
        } else {
            room
        }
    }
}

/// Sums the hourly solar forecast.
pub fn forecast_total(hourly_wh: &[i64; 24]) -> (r: i128)
    ensures
        r == total(hourly_wh@),
        -0x8000_0000_0000_0000 * 24 <= r <= 0x7fff_ffff_ffff_ffff * 24,
{
    let mut sum: i128 = 0;
    let mut i: usize = 0;
    while i < 24
        invariant
            i <= 24,
            sum == total(hourly_wh@.take(i as int)),
            -0x8000_0000_0000_0000 * i <= sum <= 0x7fff_ffff_ffff_ffff * i,
        decreases 24 - i,
    {
        assert(hourly_wh@.take(i + 1).drop_last() =~= hourly_wh@.take(i as int));
        sum = sum + hourly_wh[i] as i128;
        i = i + 1;
    }
    assert(hourly_wh@.take(24) =~= hourly_wh@);
    sum
}

/// The minimum charge to give the battery for the night, from the expected use
/// of the house and the hourly solar forecast, both in Wh.
pub fn min_soc_target(usage_wh: i64, hourly_solar_wh: &[i64; 24], soc_min: u8, soc_max: u8) -> (r: u8)
    ensures
        r == min_soc_for(usage_wh as int, total(hourly_solar_wh@), soc_min as int, soc_max as int),
        soc_min <= soc_max ==> soc_min <= r <= soc_max,
        soc_min > soc_max ==> r == soc_min,
{
    let solar = forecast_total(hourly_solar_wh);
    let need: i128 = usage_wh as i128 - solar;
    if need <= 0 || soc_max <= soc_min {
        soc_min
    } else {
        let percent: i128 = (need * 200 + 1920) / 3840;
        let span: u8 = soc_max - soc_min;
        if percent < span as i128 {
            soc_min + percent as u8
        } else {
            soc_min + span
        }
    }
}

/// Whether the car charger should be on: off only once the car is at home,
/// plugged in and charged to the target.
pub fn charger_should_run(ev: &EvStatus, target_percent: u8) -> (r: bool)
    ensures
        r == !(ev.at_home && ev.plugged_in && ev.battery_percent >= target_percent),
{
    !(ev.at_home && ev.plugged_in && ev.battery_percent >= target_percent)
}

/// The reply that a step receives when the endpoints answer (`reachable`)
/// and the tariff task completes (`task_ok`).
pub open spec fn reply_to(step: CycleStep, reachable: bool, task_ok: bool) -> StepReply {
    match step {
        CycleStep::ProbeEndpoints => StepReply::EndpointsChecked(reachable),
        CycleStep::RunTask(_) => StepReply::TaskFinished(task_ok),
        _ => StepReply::ChargerUpdated,
    }
}

/// Runs a cycle from `step` for at most `fuel` steps: the step it stops at,
/// and whether the charger was set on the way.
pub open spec fn run_steps(c: Cycle, step: CycleStep, reachable: bool, task_ok: bool, fuel: nat) -> (
    CycleStep,
    bool,
)
    decreases fuel,
{
    if fuel == 0 || step is Done {
        (step, false)
    } else {
        let rest = run_steps(
            c,
            following_step(c, step, reply_to(step, reachable, task_ok)),
            reachable,
            task_ok,
            (fuel - 1) as nat,
        );
        (rest.0, rest.1 || step is UpdateEvCharger)
    }
}

/// Where a cycle leaves the manager. Offline, it comes online only when the
/// endpoints answer in the tariff window and starting the tariff completes.
/// Online, it moves to the part of the day that the clock shows, unless the
/// tariff task that the move asks for meets an unreachable endpoint.
pub open spec fn cycle_outcome(c: Cycle, reachable: bool, task_ok: bool) -> State {
    match c.from {
        State::Offline => if reachable && c.to == TimeState::Tariff && task_ok {
            State::Online(TimeState::Tariff)
        } else {
            State::Offline
        },
        State::Online(ts) => if task_for(ts, c.to) is None || task_ok {
            State::Online(c.to)
        } else {
            State::Offline
        },
    }
}

/// Every cycle ends within four steps, in the state that `cycle_outcome`
/// gives, and sets the car charger exactly when it ends online.
pub proof fn lemma_cycle_outcome(c: Cycle, reachable: bool, task_ok: bool)
    ensures
        run_steps(c, opening_step(c), reachable, task_ok, 4) == (
            CycleStep::Done(cycle_outcome(c, reachable, task_ok)),
            cycle_outcome(c, reachable, task_ok) is Online,
        ),
{
    reveal_with_fuel(run_steps, 5);
}

/// A cycle ends either online in the part of the day it moved to, or offline;
/// it never leaves the manager online in another part of the day.
pub proof fn lemma_cycle_lands_on_target_or_offline(c: Cycle, reachable: bool, task_ok: bool)
    ensures
        cycle_outcome(c, reachable, task_ok) == State::Online(c.to) || cycle_outcome(
            c,
            reachable,
            task_ok,
        ) == State::Offline,
{
}

/// From offline, the first thing a cycle does is check the endpoints, and an
/// unanswered check ends it offline with nothing else done.
pub proof fn lemma_offline_probes_first(c: Cycle, task_ok: bool)
    requires
        c.from == State::Offline,
    ensures
        opening_step(c) == CycleStep::ProbeEndpoints,
        run_steps(c, opening_step(c), false, task_ok, 4) == (CycleStep::Done(State::Offline), false),
{
    reveal_with_fuel(run_steps, 5);
}

/// Online, the task a cycle runs matches the move: the tariff starts when the
/// window opens, ends when it closes, is refreshed while it lasts, and
/// nothing but the charger is touched outside it.
pub proof fn lemma_online_task_matches_move(ts: TimeState, to: TimeState)
    ensures
        opening_step(Cycle { from: State::Online(ts), to }) == (match task_for(ts, to) {
            Some(task) => CycleStep::RunTask(task),
            None => CycleStep::UpdateEvCharger,
        }),
        task_for(ts, to) == Some(TariffTask::Start) <==> (ts == TimeState::Standard && to
            == TimeState::Tariff),
        task_for(ts, to) == Some(TariffTask::End) <==> (ts == TimeState::Tariff && to
            == TimeState::Standard),
        task_for(ts, to) == Some(TariffTask::Update) <==> (ts == TimeState::Tariff && to
            == TimeState::Tariff),
{
}

/// When the expected solar output covers the expected use, the battery keeps
/// its floor.
pub proof fn lemma_min_soc_when_solar_covers(usage_wh: int, solar_wh: int, soc_min: int, soc_max: int)
    requires
        usage_wh <= solar_wh,
    ensures
        min_soc_for(usage_wh, solar_wh, soc_min, soc_max) == soc_min,
{
}

/// The battery's minimum charge never falls as the shortfall grows.
pub proof fn lemma_min_soc_monotone(
    usage1: int,
    solar1: int,
    usage2: int,
    solar2: int,
    soc_min: int,
    soc_max: int,
)
    requires
        usage1 - solar1 <= usage2 - solar2,
    ensures
        min_soc_for(usage1, solar1, soc_min, soc_max) <= min_soc_for(usage2, solar2, soc_min, soc_max),
        soc_min <= soc_max ==> soc_min <= min_soc_for(usage1, solar1, soc_min, soc_max) <= soc_max,
{
    let n1 = usage1 - solar1;
    let n2 = usage2 - solar2;
    if n1 > 0 {
        assert((n1 * 200 + 1920) / 3840 <= (n2 * 200 + 1920) / 3840) by (nonlinear_arith)
            requires
                0 < n1 <= n2,
        ;
    }
    if n2 > 0 {
        assert((n2 * 200 + 1920) / 3840 >= 0) by (nonlinear_arith)
            requires
                0 < n2,
        ;
    }
}

/// The charge added for the night matches the shortfall to within half a
/// percent of the battery; where the ceiling stops it, the shortfall needs at
/// least the whole span up to the ceiling.
pub proof fn lemma_min_soc_covers_shortfall(usage_wh: int, solar_wh: int, soc_min: int, soc_max: int)
    requires
        usage_wh - solar_wh > 0,
    ensures
        ({
            let added = min_soc_for(usage_wh, solar_wh, soc_min, soc_max) - soc_min;
            let need = usage_wh - solar_wh;
            &&& added < soc_max - soc_min ==> -960 <= added * 1920 - need * 100 <= 960
            &&& added == soc_max - soc_min ==> (soc_max - soc_min) * 1920 <= need * 100 + 960
        }),
{
    let need = usage_wh - solar_wh;
    let p = (need * 200 + 1920) / 3840;
    assert(p * 3840 <= need * 200 + 1920 < p * 3840 + 3840) by (nonlinear_arith)
        requires
            p == (need * 200 + 1920) / 3840,
            need > 0,
    ;
}

/// The forecast total is the plain sum of the hours: nothing for no hours,
/// and one more hour adds exactly its value.
pub proof fn lemma_total_adds_each_hour_once(s: Seq<i64>, x: i64)
    ensures
        total(Seq::<i64>::empty()) == 0,
        total(s.push(x)) == total(s) + x,
{
    assert(s.push(x).drop_last() =~= s);
}

/// Changing one hour of the forecast changes the total by exactly the change
/// of that hour, wherever the hour lies.
pub proof fn lemma_total_update_one_hour(s: Seq<i64>, i: int, v: i64)
    requires
        0 <= i < s.len(),
    ensures
        total(s.update(i, v)) == total(s) - s[i] + v,
    decreases s.len(),
{
    let t = s.update(i, v);
    if i == s.len() - 1 {
        assert(t.drop_last() =~= s.drop_last());
    } else {
        lemma_total_update_one_hour(s.drop_last(), i, v);
        assert(t.drop_last() =~= s.drop_last().update(i, v));
    }
}

/// The tariff window runs from 23:30 to 05:30: its start is 23.5 hours and
/// its end 5.5 hours after midnight, so the standard part of the day lasts 18
/// hours.
pub proof fn lemma_tariff_window_times()
    ensures
        tariff_start().since_midnight() == 47 * 1_800_000_000_000,
        tariff_end().since_midnight() == 11 * 1_800_000_000_000,
        tariff_start().since_midnight() - tariff_end().since_midnight() == 18 * 3_600_000_000_000,
        tariff_start().is_valid() && tariff_end().is_valid(),
{
}

} // verus!
