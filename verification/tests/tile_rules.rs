//! Tests for the tile rule table: departure effects, switch toggles and
//! their cycle lengths, and tile counting.

use bobby_carrot::tile::{apply_global_toggle, count_tiles, depart_code, flip_code, SwitchKind};

fn toggle_board() -> Vec<u8> {
    let mut g = vec![18u8; 256];
    g[0] = 22;
    g[1] = 23;
    g[2] = 24;
    g[3] = 25;
    g[4] = 26;
    g[5] = 27;
    g[6] = 28;
    g[7] = 29;
    g[8] = 38;
    g[9] = 39;
    g[10] = 40;
    g[11] = 41;
    g[12] = 42;
    g[13] = 43;
    g[14] = 19;
    g[15] = 45;
    g
}

#[test]
fn departure_cycles_rotators_and_barriers() {
    assert_eq!(depart_code(24), 25);
    assert_eq!(depart_code(25), 26);
    assert_eq!(depart_code(26), 27);
    assert_eq!(depart_code(27), 24);
    assert_eq!(depart_code(28), 29);
    assert_eq!(depart_code(29), 28);
}

#[test]
fn departure_arms_traps_and_spends_eggs() {
    assert_eq!(depart_code(30), 31);
    assert_eq!(depart_code(45), 46);
    assert_eq!(depart_code(18), 18);
    assert_eq!(depart_code(31), 31);
    assert_eq!(depart_code(46), 46);
}

#[test]
fn red_flip_touches_only_its_group() {
    assert_eq!(flip_code(22, SwitchKind::Red), 23);
    assert_eq!(flip_code(23, SwitchKind::Red), 22);
    assert_eq!(flip_code(24, SwitchKind::Red), 25);
    assert_eq!(flip_code(27, SwitchKind::Red), 24);
    assert_eq!(flip_code(28, SwitchKind::Red), 29);
    assert_eq!(flip_code(38, SwitchKind::Red), 38);
    assert_eq!(flip_code(40, SwitchKind::Red), 40);
    assert_eq!(flip_code(18, SwitchKind::Red), 18);
}

#[test]
fn yellow_flip_touches_only_its_group() {
    assert_eq!(flip_code(38, SwitchKind::Yellow), 39);
    assert_eq!(flip_code(39, SwitchKind::Yellow), 38);
    assert_eq!(flip_code(40, SwitchKind::Yellow), 41);
    assert_eq!(flip_code(41, SwitchKind::Yellow), 40);
    assert_eq!(flip_code(42, SwitchKind::Yellow), 43);
    assert_eq!(flip_code(43, SwitchKind::Yellow), 42);
    assert_eq!(flip_code(22, SwitchKind::Yellow), 22);
    assert_eq!(flip_code(24, SwitchKind::Yellow), 24);
}

#[test]
fn red_toggle_flips_every_matching_cell() {
    let mut g = toggle_board();
    apply_global_toggle(&mut g, SwitchKind::Red);
    assert_eq!(g[0], 23);
    assert_eq!(g[1], 22);
    assert_eq!(g[2], 25);
    assert_eq!(g[3], 26);
    assert_eq!(g[4], 27);
    assert_eq!(g[5], 24);
    assert_eq!(g[6], 29);
    assert_eq!(g[7], 28);
    // the yellow group, collectibles and floor are untouched
    assert_eq!(g[8], 38);
    assert_eq!(g[10], 40);
    assert_eq!(g[14], 19);
    assert_eq!(g[15], 45);
    assert_eq!(g[16], 18);
}

#[test]
fn red_toggle_twice_restores_all_but_rotators() {
    let orig = toggle_board();
    let mut g = orig.clone();
    apply_global_toggle(&mut g, SwitchKind::Red);
    apply_global_toggle(&mut g, SwitchKind::Red);
    for i in 0..256 {
        if (24..=27).contains(&orig[i]) {
            assert_ne!(g[i], orig[i]);
        } else {
            assert_eq!(g[i], orig[i]);
        }
    }
    // rotators advanced twice
    assert_eq!(g[2], 26);
    assert_eq!(g[3], 27);
    assert_eq!(g[4], 24);
    assert_eq!(g[5], 25);
}

#[test]
fn red_toggle_four_times_restores_the_grid() {
    let orig = toggle_board();
    let mut g = orig.clone();
    for _ in 0..4 {
        apply_global_toggle(&mut g, SwitchKind::Red);
    }
    assert_eq!(g, orig);
}

#[test]
fn yellow_toggle_twice_restores_the_grid() {
    let orig = toggle_board();
    let mut g = orig.clone();
    apply_global_toggle(&mut g, SwitchKind::Yellow);
    assert_eq!(g[8], 39);
    assert_eq!(g[9], 38);
    assert_eq!(g[10], 41);
    assert_eq!(g[11], 40);
    assert_eq!(g[12], 43);
    assert_eq!(g[13], 42);
    assert_eq!(g[0], 22);
    apply_global_toggle(&mut g, SwitchKind::Yellow);
    assert_eq!(g, orig);
}

#[test]
fn count_tiles_counts_exactly() {
    let g = toggle_board();
    assert_eq!(count_tiles(&g, 18), 240);
    assert_eq!(count_tiles(&g, 22), 1);
    assert_eq!(count_tiles(&g, 19), 1);
    assert_eq!(count_tiles(&g, 44), 0);
}
