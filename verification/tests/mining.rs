use miner::mining::MiningSystem;
use miner::player::{starting_inventory, Inventory, MineProgress, NANOS_PER_SECOND, PROGRESS_FULL};

const HALF_SECOND: u64 = NANOS_PER_SECOND / 2;

fn idle() -> MineProgress {
    MineProgress { block: None, start: 0, progress: 0 }
}

fn inventory_with_load(carrying: i32) -> Inventory {
    let mut inv = starting_inventory();
    inv.carrying = carrying;
    inv
}

#[test]
fn new_system_has_seen_no_button() {
    assert!(!MiningSystem::new().was_down);
}

#[test]
fn first_aim_starts_progress_at_zero() {
    let mut sys = MiningSystem::new();
    let mut inv = starting_inventory();
    let mut p = MineProgress::new();
    let mined = sys.run(true, &vec![Some(7)], 100, &mut inv, &mut p);
    assert!(mined.is_empty());
    assert_eq!(p, MineProgress { block: Some(7), start: 100, progress: 0 });
    assert_eq!(inv.carrying, 0);
    assert!(sys.was_down);
}

#[test]
fn progress_is_elapsed_share_of_use_time() {
    let mut sys = MiningSystem::new();
    let mut inv = starting_inventory();
    let mut p = MineProgress::new();
    sys.run(true, &vec![Some(7)], 0, &mut inv, &mut p);
    let mined = sys.run(true, &vec![Some(7)], HALF_SECOND, &mut inv, &mut p);
    assert!(mined.is_empty());
    assert_eq!(p, MineProgress { block: Some(7), start: 0, progress: PROGRESS_FULL / 2 });
    sys.run(true, &vec![Some(7)], 250_000_000, &mut inv, &mut p);
    assert_eq!(p.progress, 250_000);
    sys.run(true, &vec![Some(7)], 1, &mut inv, &mut p);
    assert_eq!(p.progress, 0);
    sys.run(true, &vec![Some(7)], 999_999_999, &mut inv, &mut p);
    assert_eq!(p.progress, 999_999);
}

#[test]
fn holding_for_use_time_mines_the_block() {
    let mut sys = MiningSystem::new();
    let mut inv = starting_inventory();
    let mut p = MineProgress::new();
    sys.run(true, &vec![Some(7)], 0, &mut inv, &mut p);
    let mined = sys.run(true, &vec![Some(7)], NANOS_PER_SECOND, &mut inv, &mut p);
    assert_eq!(mined, vec![7]);
    assert_eq!(inv.carrying, 1);
    assert_eq!(p, idle());
}

#[test]
fn holding_longer_than_use_time_mines_once() {
    let mut sys = MiningSystem::new();
    let mut inv = starting_inventory();
    let mut p = MineProgress::new();
    sys.run(true, &vec![Some(3)], 5, &mut inv, &mut p);
    let mined = sys.run(true, &vec![Some(3)], 5 + 3 * NANOS_PER_SECOND, &mut inv, &mut p);
    assert_eq!(mined, vec![3]);
    // the block is gone from progress: aiming at it again starts anew
    let mined = sys.run(true, &vec![Some(3)], 6 + 3 * NANOS_PER_SECOND, &mut inv, &mut p);
    assert!(mined.is_empty());
    assert_eq!(p, MineProgress { block: Some(3), start: 6 + 3 * NANOS_PER_SECOND, progress: 0 });
    assert_eq!(inv.carrying, 1);
}

#[test]
fn full_backpack_stays_full() {
    let mut sys = MiningSystem::new();
    let mut inv = inventory_with_load(5);
    let mut p = MineProgress { block: Some(9), start: 0, progress: 0 };
    let mined = sys.run(true, &vec![Some(9)], NANOS_PER_SECOND, &mut inv, &mut p);
    assert_eq!(mined, vec![9]);
    assert_eq!(inv.carrying, 5);
}

#[test]
fn overfull_backpack_is_brought_down_to_capacity() {
    let mut sys = MiningSystem::new();
    let mut inv = inventory_with_load(8);
    let mut p = MineProgress { block: Some(9), start: 0, progress: 0 };
    sys.run(true, &vec![Some(9)], NANOS_PER_SECOND, &mut inv, &mut p);
    assert_eq!(inv.carrying, 5);
}

#[test]
fn largest_load_does_not_overflow() {
    let mut sys = MiningSystem::new();
    let mut inv = inventory_with_load(i32::MAX);
    inv.backpack.capacity = i32::MAX;
    let mut p = MineProgress { block: Some(9), start: 0, progress: 0 };
    sys.run(true, &vec![Some(9)], NANOS_PER_SECOND, &mut inv, &mut p);
    assert_eq!(inv.carrying, i32::MAX);
}

#[test]
fn switching_block_restarts_progress() {
    let mut sys = MiningSystem::new();
    let mut inv = starting_inventory();
    let mut p = MineProgress { block: Some(1), start: 0, progress: 900_000 };
    let mined = sys.run(true, &vec![Some(2)], 2 * NANOS_PER_SECOND, &mut inv, &mut p);
    assert!(mined.is_empty());
    assert_eq!(p, MineProgress { block: Some(2), start: 2 * NANOS_PER_SECOND, progress: 0 });
}

#[test]
fn aiming_at_nothing_forgets_progress() {
    let mut sys = MiningSystem::new();
    let mut inv = starting_inventory();
    let mut p = MineProgress { block: Some(1), start: 10, progress: 500 };
    let mined = sys.run(true, &vec![None], 20, &mut inv, &mut p);
    assert!(mined.is_empty());
    assert_eq!(p, idle());
}

#[test]
fn releasing_button_forgets_progress() {
    let mut sys = MiningSystem::new();
    let mut inv = starting_inventory();
    let mut p = MineProgress::new();
    sys.run(true, &vec![Some(4)], 0, &mut inv, &mut p);
    sys.run(true, &vec![Some(4)], HALF_SECOND, &mut inv, &mut p);
    let mined = sys.run(false, &vec![Some(4)], NANOS_PER_SECOND, &mut inv, &mut p);
    assert!(mined.is_empty());
    assert_eq!(p, idle());
    assert!(!sys.was_down);
}

#[test]
fn button_staying_up_changes_nothing() {
    let mut sys = MiningSystem::new();
    let mut inv = starting_inventory();
    let mut p = MineProgress { block: Some(1), start: 10, progress: 500 };
    let mined = sys.run(false, &vec![Some(1)], 2 * NANOS_PER_SECOND, &mut inv, &mut p);
    assert!(mined.is_empty());
    assert_eq!(p, MineProgress { block: Some(1), start: 10, progress: 500 });
    assert_eq!(inv.carrying, 0);
}

#[test]
fn no_camera_keeps_progress() {
    let mut sys = MiningSystem::new();
    let mut inv = starting_inventory();
    let mut p = MineProgress { block: Some(1), start: 10, progress: 500 };
    let mined = sys.run(true, &vec![], 2 * NANOS_PER_SECOND, &mut inv, &mut p);
    assert!(mined.is_empty());
    assert_eq!(p, MineProgress { block: Some(1), start: 10, progress: 500 });
}

#[test]
fn each_camera_aims_in_turn() {
    let mut sys = MiningSystem::new();
    let mut inv = starting_inventory();
    let mut p = MineProgress { block: Some(1), start: 0, progress: 0 };
    // the first camera finishes block 1, the second starts on block 2
    let mined = sys.run(true, &vec![Some(1), Some(2)], NANOS_PER_SECOND, &mut inv, &mut p);
    assert_eq!(mined, vec![1]);
    assert_eq!(inv.carrying, 1);
    assert_eq!(p, MineProgress { block: Some(2), start: NANOS_PER_SECOND, progress: 0 });
}

#[test]
fn clock_before_start_counts_as_no_time() {
    let mut sys = MiningSystem::new();
    let mut inv = starting_inventory();
    let mut p = MineProgress { block: Some(1), start: 1000, progress: 0 };
    sys.run(true, &vec![Some(1)], 10, &mut inv, &mut p);
    assert_eq!(p, MineProgress { block: Some(1), start: 1000, progress: 0 });
}

#[test]
fn instant_tool_mines_once_time_has_passed() {
    let mut sys = MiningSystem::new();
    let mut inv = starting_inventory();
    inv.tool.use_time = 0;
    let mut p = MineProgress::new();
    let mined = sys.run(true, &vec![Some(5)], 50, &mut inv, &mut p);
    assert!(mined.is_empty());
    assert_eq!(p, MineProgress { block: Some(5), start: 50, progress: 0 });
    let mined = sys.run(true, &vec![Some(5)], 51, &mut inv, &mut p);
    assert_eq!(mined, vec![5]);
}

#[test]
fn long_game_times_do_not_overflow() {
    let mut sys = MiningSystem::new();
    let mut inv = starting_inventory();
    inv.tool.use_time = u64::MAX;
    let mut p = MineProgress { block: Some(1), start: 0, progress: 0 };
    sys.run(true, &vec![Some(1)], u64::MAX / 2, &mut inv, &mut p);
    assert_eq!(p.progress, 499_999);
    let mined = sys.run(true, &vec![Some(1)], u64::MAX, &mut inv, &mut p);
    assert_eq!(mined, vec![1]);
}

#[test]
fn reset_forgets_everything() {
    let mut p = MineProgress { block: Some(3), start: 77, progress: 12 };
    p.reset();
    assert_eq!(p, idle());
    assert_eq!(MineProgress::new(), idle());
}
