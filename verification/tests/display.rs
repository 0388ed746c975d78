use chip8::Video;
use chip8::in_bounds;
use chip8::map_idx;

#[test]
fn map_idx_is_row_major() {
    assert_eq!(map_idx(0, 0), 0);
    assert_eq!(map_idx(63, 0), 63);
    assert_eq!(map_idx(0, 1), 64);
    assert_eq!(map_idx(63, 31), 2047);
}

#[test]
fn in_bounds_matches_the_display_rectangle() {
    assert!(in_bounds(0, 0));
    assert!(in_bounds(63, 31));
    assert!(!in_bounds(64, 0));
    assert!(!in_bounds(0, 32));
    assert!(!in_bounds(-1, 0));
    assert!(!in_bounds(0, -1));
}

#[test]
fn new_display_is_all_off() {
    let v = Video::new();
    assert_eq!(v.ram.len(), 2048);
    assert!(v.ram.iter().all(|&c| c == 0));
}

#[test]
fn draw_sets_bits_and_reports_no_collision_on_clear_grid() {
    let mut v = Video::new();
    let hit = v.draw(&[0b1010_0001], 0, 0);
    assert_eq!(hit, 0);
    assert_eq!(v.ram[0], 1);
    assert_eq!(v.ram[1], 0);
    assert_eq!(v.ram[2], 1);
    assert_eq!(v.ram[7], 1);
    assert_eq!(v.ram[8], 0);
}

#[test]
fn draw_twice_restores_and_reports_collision() {
    let mut v = Video::new();
    let first = v.draw(&[0xF0, 0x90], 10, 3);
    assert_eq!(first, 0);
    let lit: Vec<usize> = (0..2048).filter(|&i| v.ram[i] != 0).collect();
    assert!(!lit.is_empty());
    let second = v.draw(&[0xF0, 0x90], 10, 3);
    assert_eq!(second, 1);
    assert!(v.ram.iter().all(|&c| c == 0));
}

#[test]
fn draw_clips_at_the_bottom_right_corner() {
    let mut v = Video::new();
    let hit = v.draw(&[0xFF, 0xFF, 0xFF, 0xFF, 0xFF], 60, 30);
    assert_eq!(hit, 0);
    let mut on: Vec<(usize, usize)> = Vec::new();
    for y in 0..32 {
        for x in 0..64 {
            if v.ram[y * 64 + x] != 0 {
                on.push((x, y));
            }
        }
    }
    assert_eq!(on.len(), 8);
    for (x, y) in on {
        assert!((60..64).contains(&x));
        assert!((30..32).contains(&y));
    }
}

#[test]
fn clear_turns_everything_off_and_is_idempotent() {
    let mut v = Video::new();
    v.draw(&[0xFF], 0, 0);
    v.clear();
    assert!(v.ram.iter().all(|&c| c == 0));
    v.clear();
    assert!(v.ram.iter().all(|&c| c == 0));
}

#[test]
fn render_maps_cells_to_glyphs() {
    let mut v = Video::new();
    let frame = v.render();
    assert_eq!(frame.len(), 2048);
    assert!(frame.iter().all(|&g| g == '.'));
    v.draw(&[0b1000_0000], 0, 0);
    let frame = v.render();
    assert_eq!(frame[0], '#');
    assert!(frame[1..].iter().all(|&g| g == '.'));
}

#[test]
fn collision_only_where_a_lit_pixel_receives_a_bit() {
    let mut v = Video::new();
    v.draw(&[0b1000_0000], 0, 0);
    let hit = v.draw(&[0b0100_0000], 0, 0);
    assert_eq!(hit, 0);
    let hit = v.draw(&[0b1000_0000], 0, 0);
    assert_eq!(hit, 1);
}
