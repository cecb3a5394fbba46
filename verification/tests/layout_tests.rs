use mochiwm::bounds::{
    grid_fits_check, horizontal_fits_check, master_stack_fits_check, vertical_fits_check,
};
use mochiwm::layout::{
    compute_grid, compute_horizontal, compute_master_stack, compute_vertical, monitor_rect,
    Layout, Rect,
};

fn screen() -> Rect {
    Rect { x: 0, y: 0, w: 1920, h: 1080 }
}

fn r(x: i32, y: i32, w: i32, h: i32) -> Rect {
    Rect { x, y, w, h }
}

fn disjoint(a: &Rect, b: &Rect) -> bool {
    a.x + a.w <= b.x || b.x + b.w <= a.x || a.y + a.h <= b.y || b.y + b.h <= a.y
}

fn pairwise_disjoint(rects: &[Rect]) -> bool {
    for i in 0..rects.len() {
        for j in 0..rects.len() {
            if i != j && !disjoint(&rects[i], &rects[j]) {
                return false;
            }
        }
    }
    true
}

#[test]
fn layout_default_is_master_stack() {
    assert_eq!(Layout::default(), Layout::MasterStack);
}

#[test]
fn every_layout_is_empty_for_no_windows() {
    let none: [u8; 0] = [];
    assert!(compute_master_stack(&none, &screen(), 10, 8, 1056).is_empty());
    assert!(compute_grid(&none, &screen(), 10, 8, 0, 0).is_empty());
    assert!(compute_horizontal(&none, &screen(), 10, 8).is_empty());
    assert!(compute_vertical(&none, &screen(), 10, 8).is_empty());
}

#[test]
fn master_stack_single_window_fills_the_monitor() {
    let rects = compute_master_stack(&[1u8], &screen(), 10, 8, 1056);
    assert_eq!(rects, vec![r(10, 10, 1900, 1060)]);
}

#[test]
fn master_stack_three_windows() {
    let rects = compute_master_stack(&[1u8, 2, 3], &screen(), 10, 8, 1056);
    assert_eq!(
        rects,
        vec![r(10, 10, 1042, 1060), r(1060, 10, 842, 522), r(1060, 544, 842, 522)]
    );
    assert!(pairwise_disjoint(&rects));
}

#[test]
fn master_stack_on_an_offset_monitor() {
    let m = Rect { x: 1920, y: -200, w: 1000, h: 800 };
    let rects = compute_master_stack(&[0u8; 2], &m, 0, 0, 550);
    assert_eq!(rects, vec![r(1920, -200, 550, 800), r(2470, -200, 450, 800)]);
}

#[test]
fn master_stack_raises_sizes_to_one() {
    let tiny = Rect { x: 0, y: 0, w: 10, h: 10 };
    let rects = compute_master_stack(&[0u8; 3], &tiny, 20, 8, 5);
    for rect in &rects {
        assert!(rect.w >= 1 && rect.h >= 1);
    }
    // (10 - 40) / 2 rounds toward zero: the stack height is -15.
    assert_eq!(rects[1], r(9, 20, 1, 1));
    assert_eq!(rects[2], r(9, 9, 1, 1));
}

#[test]
fn master_stack_negative_inner_gap_rounds_toward_zero() {
    let rects = compute_master_stack(&[0u8; 2], &screen(), 0, -3, 1000);
    // -3 / 2 is -1 on i32.
    assert_eq!(rects[0], r(0, 0, 1001, 1080));
    assert_eq!(rects[1], r(999, 0, 924, 1083));
}

#[test]
fn grid_four_windows() {
    let rects = compute_grid(&[0u8; 4], &screen(), 10, 8, 2, 2);
    assert_eq!(
        rects,
        vec![r(10, 10, 946, 526), r(964, 10, 946, 526), r(10, 544, 946, 526), r(964, 544, 946, 526)]
    );
    assert!(pairwise_disjoint(&rects));
}

#[test]
fn grid_fills_row_by_row() {
    let rects = compute_grid(&[0u8; 5], &screen(), 0, 0, 3, 2);
    assert_eq!(rects.len(), 5);
    assert_eq!(rects[3], r(0, 540, 640, 540));
    assert_eq!(rects[4], r(640, 540, 640, 540));
    assert!(pairwise_disjoint(&rects));
}

#[test]
fn horizontal_two_windows() {
    let rects = compute_horizontal(&[0u8; 2], &screen(), 10, 8);
    assert_eq!(rects, vec![r(10, 10, 1900, 526), r(10, 544, 1900, 526)]);
    assert!(pairwise_disjoint(&rects));
}

#[test]
fn vertical_three_windows() {
    let rects = compute_vertical(&[0u8; 3], &screen(), 10, 8);
    assert_eq!(
        rects,
        vec![r(10, 10, 628, 1060), r(646, 10, 628, 1060), r(1282, 10, 628, 1060)]
    );
    assert!(pairwise_disjoint(&rects));
}

#[test]
fn strips_never_overlap_even_when_squeezed() {
    let tiny = Rect { x: 0, y: 0, w: 5, h: 5 };
    let rects = compute_horizontal(&[0u8; 10], &tiny, 0, 0);
    assert!(rects.iter().all(|x| x.h == 1));
    assert!(pairwise_disjoint(&rects));
    let cols = compute_vertical(&[0u8; 10], &tiny, 0, 2);
    assert!(pairwise_disjoint(&cols));
}

#[test]
fn fit_checks_accept_ordinary_monitors() {
    let m = screen();
    assert!(master_stack_fits_check(3, &m, 10, 8, 1056));
    assert!(grid_fits_check(4, &m, 10, 8, 2, 2));
    assert!(horizontal_fits_check(2, &m, 10, 8));
    assert!(vertical_fits_check(3, &m, 10, 8));
    assert!(master_stack_fits_check(0, &m, i32::MAX, i32::MAX, 0));
}

#[test]
fn fit_checks_refuse_overflowing_gaps() {
    let m = screen();
    assert!(!master_stack_fits_check(1, &m, i32::MAX / 2 + 1, 8, 0));
    assert!(!master_stack_fits_check(3, &m, 10, 8, i32::MIN));
    assert!(!grid_fits_check(4, &m, 10, i32::MAX, 2, 2));
    assert!(!grid_fits_check(4, &m, 10, 8, 0, 2));
    assert!(!horizontal_fits_check(2, &m, i32::MIN, 8));
    assert!(!vertical_fits_check(3, &Rect { x: i32::MAX - 5, y: 0, w: 1920, h: 1080 }, 10, 8));
}

#[test]
fn fit_check_finds_a_late_row_overflow() {
    // The stack rows run past i32::MAX only for the last windows.
    let m = Rect { x: 0, y: i32::MAX - 3000, w: 1000, h: 2000 };
    assert!(master_stack_fits_check(2, &m, 0, 0, 500));
    assert!(!master_stack_fits_check(4, &Rect { x: 0, y: i32::MAX - 1000, w: 1000, h: 3000 }, 0, 0, 500));
}

#[test]
fn monitor_rect_from_edges() {
    assert_eq!(monitor_rect(-1920, 0, 0, 1080), r(-1920, 0, 1920, 1080));
}
