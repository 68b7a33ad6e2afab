//! Tests for move requests: board clamping, tile blocking rules, locks and
//! keys, traps, and input buffering.

use bobby_carrot::actor::{Bobby, State};

fn cell(x: usize, y: usize) -> usize {
    x + y * 16
}

fn floor_grid() -> Vec<u8> {
    vec![18u8; 256]
}

fn standing(x: u32, y: u32) -> Bobby {
    let mut b = Bobby::new(0, 0, (x, y));
    b.state = State::Down;
    b
}

#[test]
fn request_clamps_at_every_board_edge() {
    let g = floor_grid();
    for (x, y, d) in [
        (0u32, 5u32, State::Left),
        (15, 5, State::Right),
        (5, 0, State::Up),
        (5, 15, State::Down),
    ] {
        let mut b = standing(x, y);
        b.request_direction(d, 0, 0, &g);
        assert_eq!(b.state, d);
        assert_eq!(b.coord_dest, (x, y));
        assert_eq!(b.coord_src, (x, y));
        assert!(b.coord_dest.0 < 16 && b.coord_dest.1 < 16);
    }
}

#[test]
fn request_moves_onto_open_floor() {
    let g = floor_grid();
    let mut b = standing(2, 2);
    b.request_direction(State::Right, 0, 10, &g);
    assert_eq!(b.state, State::Right);
    assert_eq!(b.coord_src, (2, 2));
    assert_eq!(b.coord_dest, (3, 2));
    assert_eq!(b.last_action_time, 10);
}

#[test]
fn solid_art_blocks_the_move() {
    let mut g = floor_grid();
    g[cell(3, 2)] = 0;
    let mut b = standing(2, 2);
    b.request_direction(State::Right, 0, 0, &g);
    assert_eq!(b.state, State::Right);
    assert_eq!(b.coord_dest, (2, 2));
    g[cell(3, 2)] = 17;
    b.request_direction(State::Right, 2, 2, &g);
    assert_eq!(b.coord_dest, (2, 2));
}

#[test]
fn lock_without_key_rejects_and_keeps_inventory() {
    for (lock, setter) in [
        (33u8, 0usize),
        (35, 1),
        (37, 2),
    ] {
        let mut g = floor_grid();
        g[cell(3, 2)] = lock;
        let mut b = standing(2, 2);
        // a key of a different colour must not open it
        match setter {
            0 => b.key_yellow = 1,
            1 => b.key_red = 1,
            _ => b.key_gray = 1,
        }
        let before = (b.key_gray, b.key_yellow, b.key_red, b.carrot_count, b.egg_count);
        b.request_direction(State::Right, 0, 0, &g);
        assert_eq!(b.coord_dest, b.coord_src);
        let after = (b.key_gray, b.key_yellow, b.key_red, b.carrot_count, b.egg_count);
        assert_eq!(before, after);
        assert_eq!(g[cell(3, 2)], lock);
    }
}

#[test]
fn lock_with_matching_key_accepts_the_move() {
    let mut g = floor_grid();
    g[cell(3, 2)] = 33;
    let mut b = standing(2, 2);
    b.key_gray = 1;
    b.request_direction(State::Right, 0, 0, &g);
    assert_eq!(b.coord_dest, (3, 2));
    // the key is only consumed on arrival, not when the move is accepted
    assert_eq!(b.key_gray, 1);
}

#[test]
fn rotator_blocks_its_two_entry_directions() {
    // 24 blocks entry while moving Right or Down
    let mut g = floor_grid();
    g[cell(3, 2)] = 24;
    let mut b = standing(2, 2);
    b.request_direction(State::Right, 0, 0, &g);
    assert_eq!(b.coord_dest, (2, 2));
    let mut b2 = standing(3, 1);
    b2.request_direction(State::Down, 0, 0, &g);
    assert_eq!(b2.coord_dest, (3, 1));
    // but entry moving Left is allowed
    let mut b3 = standing(4, 2);
    b3.request_direction(State::Left, 0, 0, &g);
    assert_eq!(b3.coord_dest, (3, 2));
}

#[test]
fn rotator_blocks_its_two_exit_directions() {
    // standing on 24, leaving Left or Up is refused
    let mut g = floor_grid();
    g[cell(2, 2)] = 24;
    let mut b = standing(2, 2);
    b.request_direction(State::Left, 0, 0, &g);
    assert_eq!(b.coord_dest, (2, 2));
    b.request_direction(State::Up, 2, 2, &g);
    assert_eq!(b.coord_dest, (2, 2));
    b.request_direction(State::Right, 4, 4, &g);
    assert_eq!(b.coord_dest, (3, 2));
}

#[test]
fn barrier_blocks_by_orientation() {
    // 28 blocks vertical movement on entry and exit, 29 horizontal
    let mut g = floor_grid();
    g[cell(3, 2)] = 28;
    let mut b = standing(3, 1);
    b.request_direction(State::Down, 0, 0, &g);
    assert_eq!(b.coord_dest, (3, 1));
    let mut b2 = standing(2, 2);
    b2.request_direction(State::Right, 0, 0, &g);
    assert_eq!(b2.coord_dest, (3, 2));
    g[cell(3, 2)] = 29;
    let mut b3 = standing(2, 2);
    b3.request_direction(State::Right, 0, 0, &g);
    assert_eq!(b3.coord_dest, (2, 2));
}

#[test]
fn conveyor_blocks_entry_against_and_across_its_flow() {
    let mut g = floor_grid();
    g[cell(3, 2)] = 40;  // flows left
    // entering while moving Right (against the flow) is refused
    let mut b = standing(2, 2);
    b.request_direction(State::Right, 0, 0, &g);
    assert_eq!(b.coord_dest, (2, 2));
    // entering from above (across the flow) is refused
    let mut b2 = standing(3, 1);
    b2.request_direction(State::Down, 0, 0, &g);
    assert_eq!(b2.coord_dest, (3, 1));
    // entering with the flow is allowed
    let mut b3 = standing(4, 2);
    b3.request_direction(State::Left, 0, 0, &g);
    assert_eq!(b3.coord_dest, (3, 2));
}

#[test]
fn egg_husk_blocks_reentry() {
    let mut g = floor_grid();
    g[cell(3, 2)] = 46;
    let mut b = standing(2, 2);
    b.request_direction(State::Right, 0, 0, &g);
    assert_eq!(b.coord_dest, (2, 2));
    // an uncollected egg is walkable
    g[cell(3, 2)] = 45;
    b.request_direction(State::Right, 2, 2, &g);
    assert_eq!(b.coord_dest, (3, 2));
}

#[test]
fn armed_trap_accepts_the_move_but_schedules_death() {
    let mut g = floor_grid();
    g[cell(3, 2)] = 31;
    let mut b = standing(2, 2);
    b.request_direction(State::Right, 0, 0, &g);
    assert_eq!(b.coord_dest, (3, 2));
    assert_eq!(b.next_state, Some(State::Death));
}

#[test]
fn buffering_needs_more_than_three_steps() {
    let g = floor_grid();
    let mut b = standing(2, 2);
    b.request_direction(State::Right, 0, 0, &g);
    assert_eq!(b.coord_dest, (3, 2));
    // 3 elapsed steps: too early, the buffer stays empty
    b.request_direction(State::Up, 6, 6, &g);
    assert_eq!(b.next_state, None);
    // more than 3 elapsed steps: buffered
    b.request_direction(State::Up, 8, 8, &g);
    assert_eq!(b.next_state, Some(State::Up));
    // a later direction overwrites a buffered direction
    b.request_direction(State::Down, 10, 10, &g);
    assert_eq!(b.next_state, Some(State::Down));
}

#[test]
fn buffering_never_overwrites_a_scheduled_death() {
    let mut g = floor_grid();
    g[cell(3, 2)] = 31;
    let mut b = standing(2, 2);
    b.request_direction(State::Right, 0, 0, &g);
    assert_eq!(b.next_state, Some(State::Death));
    b.request_direction(State::Up, 10, 10, &g);
    assert_eq!(b.next_state, Some(State::Death));
}

#[test]
fn special_states_ignore_direction_input_when_standing() {
    let g = floor_grid();
    for s in [State::Death, State::FadeIn, State::FadeOut] {
        let mut b = Bobby::new(0, 0, (2, 2));
        b.state = s;
        b.request_direction(State::Right, 10, 10, &g);
        assert_eq!(b.state, s);
        assert_eq!(b.coord_dest, (2, 2));
        assert_eq!(b.last_action_time, 10);
    }
}
