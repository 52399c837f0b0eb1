use rusty_wassembly_game::schedule::{simulate_ticks, LoopAction, LoopEvent, Phase, Scheduler, Slot};
use rusty_wassembly_game::ui::ButtonType;

#[test]
fn one_tick_per_second() {
    assert_eq!(simulate_ticks(0), (0, 0));
    assert_eq!(simulate_ticks(999), (0, 0));
    assert_eq!(simulate_ticks(1000), (1, 1));
    assert_eq!(simulate_ticks(2999), (2, 2));
    assert_eq!(simulate_ticks(3000), (3, 3));
}

#[test]
fn start_schedules_both_loops() {
    let mut s = Scheduler::new();
    assert_eq!(s.step(LoopEvent::Start), vec![LoopAction::ScheduleTick(1000), LoopAction::RequestFrame]);
    assert_eq!(s.phase, Phase::Starting);
    assert!(s.step(LoopEvent::Ready).is_empty());
    assert_eq!(s.phase, Phase::Running);
}

#[test]
fn tick_updates_then_reschedules() {
    let mut s = Scheduler::new();
    assert_eq!(s.step(LoopEvent::Tick), vec![LoopAction::UpdateWorld, LoopAction::ScheduleTick(1000)]);
}

#[test]
fn frame_renders_world_then_panel() {
    let mut s = Scheduler::new();
    assert_eq!(
        s.step(LoopEvent::Frame),
        vec![LoopAction::RenderWorld, LoopAction::RenderPanel, LoopAction::RequestFrame]
    );
}

#[test]
fn clicks_map_to_world_actions() {
    let mut s = Scheduler::new();
    assert_eq!(s.step(LoopEvent::Click(ButtonType::ToggleState)), vec![LoopAction::ToggleWorld]);
    assert_eq!(s.step(LoopEvent::Click(ButtonType::RandomizeState)), vec![LoopAction::RandomizeWorld]);
    assert!(s.step(LoopEvent::Click(ButtonType::NoAction)).is_empty());
}

#[test]
fn refused_schedule_fails_startup_then_aborts() {
    let mut s = Scheduler::new();
    s.step(LoopEvent::Start);
    assert_eq!(s.step(LoopEvent::ScheduleFailed(Slot::Timeout)), vec![LoopAction::FailStartup(Slot::Timeout)]);
    s.step(LoopEvent::Ready);
    assert_eq!(
        s.step(LoopEvent::ScheduleFailed(Slot::AnimationFrame)),
        vec![LoopAction::Abort(Slot::AnimationFrame)]
    );
}
