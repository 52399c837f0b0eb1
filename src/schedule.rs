use vstd::prelude::*;

use vstd::arithmetic::div_mod::lemma_fundamental_div_mod_converse_div;

use crate::ui::ButtonType;

verus! {

/// Delay between two simulation ticks, in milliseconds.
pub const TICK_INTERVAL_MS: u32 = 1000;

/// A host scheduling call that can be refused.
#[derive(Clone, Copy, Debug, PartialEq, Eq, Structural)]
pub enum Slot {
    /// The one-shot delayed callback of the tick loop.
    Timeout,
    /// The per-repaint callback of the redraw loop.
    AnimationFrame,
}

/// What happened on the host side.
#[derive(Clone, Copy, Debug, PartialEq, Eq, Structural)]
pub enum LoopEvent {
    /// The page asked the system to start.
    Start,
    /// Every start-up action was carried out.
    Ready,
    /// The tick loop's delayed callback ran.
    Tick,
    /// The redraw loop's repaint callback ran.
    Frame,
    /// The panel reported the action of a click.
    Click(ButtonType),
    /// The host refused a scheduling call.
    ScheduleFailed(Slot),
}

/// What the host is to do, in order.
#[derive(Clone, Copy, Debug, PartialEq, Eq, Structural)]
pub enum LoopAction {
    UpdateWorld,
    RenderWorld,
    RenderPanel,
    ToggleWorld,
    RandomizeWorld,
    /// Run the tick callback once after this many milliseconds.
    ScheduleTick(u32),
    /// Run the redraw callback before the next repaint.
    RequestFrame,
    /// Stop start-up and report the refused call to the page's caller.
    FailStartup(Slot),
    /// Log the refused call as an error and halt the loop.
    Abort(Slot),
}

/// Whether start-up is still under way.
#[derive(Clone, Copy, Debug, PartialEq, Eq, Structural)]
pub enum Phase {
    Starting,
    Running,
}

/// The decisions of the start-up sequence, the tick loop and the redraw
/// loop, apart from the host calls that carry them out.
#[derive(Clone, Copy, Debug, PartialEq, Eq, Structural)]
pub struct Scheduler {
    pub phase: Phase,
}

/// What the host does on `event` in phase `phase`.
pub open spec fn actions_for(phase: Phase, event: LoopEvent) -> Seq<LoopAction> {
    match event {
        LoopEvent::Start => seq![
            LoopAction::ScheduleTick(TICK_INTERVAL_MS),
            LoopAction::RequestFrame,
        ],
        LoopEvent::Ready => seq![],
        LoopEvent::Tick => seq![
            LoopAction::UpdateWorld,
            LoopAction::ScheduleTick(TICK_INTERVAL_MS),
        ],
        LoopEvent::Frame => seq![
            LoopAction::RenderWorld,
            LoopAction::RenderPanel,
            LoopAction::RequestFrame,
        ],
        LoopEvent::Click(b) => match b {
            ButtonType::ToggleState => seq![LoopAction::ToggleWorld],
            ButtonType::RandomizeState => seq![LoopAction::RandomizeWorld],
            ButtonType::NoAction => seq![],
        },
        LoopEvent::ScheduleFailed(slot) => match phase {
            Phase::Starting => seq![LoopAction::FailStartup(slot)],
            Phase::Running => seq![LoopAction::Abort(slot)],
        },
    }
}

/// The phase after `event`: start-up ends once every start-up action was
/// carried out.
pub open spec fn phase_after(phase: Phase, event: LoopEvent) -> Phase {
    match event {
        LoopEvent::Start => Phase::Starting,
        LoopEvent::Ready => Phase::Running,
        _ => phase,
    }
}

impl Scheduler {
    pub fn new() -> (r: Scheduler)
        ensures
            r.phase == Phase::Starting,
    {
        Scheduler { phase: Phase::Starting }
    }

    /// Takes one event and returns what the host is to do about it.
    pub fn step(&mut self, event: LoopEvent) -> (r: Vec<LoopAction>)
        ensures
            r@ == actions_for(old(self).phase, event),
            final(self).phase == phase_after(old(self).phase, event),
    {
        let mut r: Vec<LoopAction> = Vec::new();
        match event {
            LoopEvent::Start => {
                r.push(LoopAction::ScheduleTick(TICK_INTERVAL_MS));
                r.push(LoopAction::RequestFrame);
                self.phase = Phase::Starting;
            },
            LoopEvent::Ready => {
                self.phase = Phase::Running;
            },
            LoopEvent::Tick => {
                r.push(LoopAction::UpdateWorld);
                r.push(LoopAction::ScheduleTick(TICK_INTERVAL_MS));
            },
            LoopEvent::Frame => {
                r.push(LoopAction::RenderWorld);
                r.push(LoopAction::RenderPanel);
                r.push(LoopAction::RequestFrame);
            },
            LoopEvent::Click(b) => match b {
                ButtonType::ToggleState => r.push(LoopAction::ToggleWorld),
                ButtonType::RandomizeState => r.push(LoopAction::RandomizeWorld),
                ButtonType::NoAction => {},
            },
            LoopEvent::ScheduleFailed(slot) => match self.phase {
                Phase::Starting => r.push(LoopAction::FailStartup(slot)),
                Phase::Running => r.push(LoopAction::Abort(slot)),
            },
        }
        assert(r@ =~= actions_for(old(self).phase, event));
        r
    }
}

/// Runs the system against a simulated clock from its start until
/// `elapsed_ms` milliseconds have passed, every scheduling call succeeding,
/// and counts the world updates and the tick reschedules that the tick loop
/// made. One of each happens every full tick interval.
pub fn simulate_ticks(elapsed_ms: u64) -> (r: (u64, u64))
    ensures
        r.0 == elapsed_ms / (TICK_INTERVAL_MS as u64),
        r.1 == elapsed_ms / (TICK_INTERVAL_MS as u64),
{
    let mut scheduler = Scheduler::new();
    let start = scheduler.step(LoopEvent::Start);
    let _ = scheduler.step(LoopEvent::Ready);
    // The time at which the pending tick callback runs.
    let mut deadline: u128 = match scheduled_delay(&start, 0) {
        Some(delay) => delay as u128,
        None => 0,
    };
    let mut updates: u64 = 0;
    let mut reschedules: u64 = 0;
    while deadline <= elapsed_ms as u128
        invariant
            scheduler.phase == Phase::Running,
            deadline == (updates + 1) * 1000,
            reschedules == updates,
            updates * 1000 <= elapsed_ms,
        decreases elapsed_ms - updates * 1000,
    {
        let actions = scheduler.step(LoopEvent::Tick);
        if actions[0] == LoopAction::UpdateWorld {
            updates = updates + 1;
        }
        if let Some(delay) = scheduled_delay(&actions, 1) {
            reschedules = reschedules + 1;
            deadline = deadline + delay as u128;
        }
    }
    proof {
        lemma_fundamental_div_mod_converse_div(
            elapsed_ms as int,
            1000,
            updates as int,
            elapsed_ms - updates * 1000,
        );
    }
    (updates, reschedules)
}

/// The delay of the tick that `actions[at]` schedules, if it schedules one.
fn scheduled_delay(actions: &Vec<LoopAction>, at: usize) -> (r: Option<u32>)
    requires
        at < actions@.len(),
    ensures
        actions@[at as int] is ScheduleTick ==> r == Some(actions@[at as int]->ScheduleTick_0),
        !(actions@[at as int] is ScheduleTick) ==> r is None,
{
    match actions[at] {
        LoopAction::ScheduleTick(delay) => Some(delay),
        _ => None,
    }
}

} // verus!
