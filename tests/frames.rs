use lifecycle::map::Tile;
use lifecycle::scheduler::{DrainStep, Scheduler, PLANNED_FRAME_NANOS, SECONDARY_BUDGET_NANOS};

#[test]
fn scheduler_new_sets_interval_and_budgets() {
    let s = Scheduler::new(60, 7);
    assert_eq!(s.normal_fi, 16_666_666);
    assert_eq!(s.normal_fps, 60);
    assert_eq!(s.frame_begin, 7);
    assert_eq!(s.frame_end, 7);
    assert_eq!(s.rendering_end, 7);
    assert_eq!(s.plan_storage_commands_handling_i, 10_000_000);
    assert_eq!(s.plan_fi, 20_000_000);
    assert_eq!(Scheduler::new(1, 0).normal_fi, 1_000_000_000);
}

#[test]
fn make_plan_sleeps_the_remainder() {
    let mut s = Scheduler::new(50, 0);
    s.frame_begin = 1_000;
    s.frame_end = 5_001_000;
    s.plan_storage_commands_handling_i = 3;
    assert_eq!(s.make_plan(), Some(15_000_000));
    assert_eq!(s.plan_storage_commands_handling_i, SECONDARY_BUDGET_NANOS);
    assert_eq!(s.plan_fi, PLANNED_FRAME_NANOS);
}

#[test]
fn make_plan_exact_interval_and_overrun() {
    let mut s = Scheduler::new(50, 0);
    s.frame_end = 20_000_000;
    assert_eq!(s.make_plan(), Some(0));
    s.frame_end = 20_000_001;
    assert_eq!(s.make_plan(), None);
}

#[test]
fn drain_decisions() {
    let s = Scheduler::new(60, 0);
    assert_eq!(s.drain_step(100, 100, true, false), DrainStep::Consume);
    assert_eq!(s.drain_step(100, 100, false, true), DrainStep::Pause);
    assert_eq!(s.drain_step(100, 100, false, false), DrainStep::Stop);
    assert_eq!(s.drain_step(100, 10_000_099, true, true), DrainStep::Consume);
    assert_eq!(s.drain_step(100, 10_000_100, true, true), DrainStep::Stop);
    // A clock that went back counts as no time spent.
    assert_eq!(s.drain_step(100, 50, true, true), DrainStep::Consume);
}

#[test]
fn unbounded_queue_drain_stays_within_budget() {
    let s = Scheduler::new(60, 0);
    let start: u64 = 1_000_000;
    let item_cost: u64 = 300_000;
    let mut now = start;
    let mut consumed: u64 = 0;
    // The queue never runs dry.
    loop {
        match s.drain_step(start, now, true, true) {
            DrainStep::Consume => {
                consumed += 1;
                now += item_cost;
            },
            DrainStep::Pause => now += 1_000_000,
            DrainStep::Stop => break,
        }
    }
    assert_eq!(consumed, 34);
    assert!(now - start <= SECONDARY_BUDGET_NANOS + item_cost);
}

#[test]
fn drain_pauses_while_loads_are_pending() {
    let s = Scheduler::new(60, 0);
    let start: u64 = 0;
    let mut now = start;
    let mut pauses = 0;
    loop {
        match s.drain_step(start, now, false, true) {
            DrainStep::Pause => {
                pauses += 1;
                now += 1_000_000;
            },
            DrainStep::Consume => panic!("nothing was ready"),
            DrainStep::Stop => break,
        }
    }
    assert_eq!(pauses, 10);
    assert_eq!(now, 10_000_000);
}

#[test]
fn tile_kinds() {
    assert!(Tile::Wall(3).is_wall());
    assert!(!Tile::Wall(3).is_floor());
    assert!(Tile::Hole(0).is_hole());
    assert!(!Tile::Hole(0).is_wall());
    assert!(Tile::Floor(1).is_floor());
    assert!(!Tile::Air.is_floor());
    assert!(!Tile::Air.is_wall());
    assert!(!Tile::Air.is_hole());
}
