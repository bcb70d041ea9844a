use mnml_virt_docker::blit::{
    color_to_rgba, compute_runs, modifier_to_bits, Cell, Color, Rgba, ATTR_BOLD, ATTR_DIM,
    ATTR_REVERSED, MODIFIER_BOLD, MODIFIER_REVERSED,
};

#[test]
fn modifier_to_bits_packs_known_flags() {
    let m = MODIFIER_BOLD | MODIFIER_REVERSED;
    let bits = modifier_to_bits(m);
    assert_eq!(bits & ATTR_BOLD, ATTR_BOLD);
    assert_eq!(bits & ATTR_REVERSED, ATTR_REVERSED);
    assert_eq!(bits & ATTR_DIM, 0);
}

#[test]
fn color_passthrough_rgb() {
    assert_eq!(
        color_to_rgba(Color::Rgb(1, 2, 3), false),
        Rgba { r: 1, g: 2, b: 3, a: 0xff },
    );
}

#[test]
fn compute_runs_empty_when_unchanged() {
    let prev = vec![Cell::default(); 10];
    let cur = vec![Cell::default(); 10];
    let runs = compute_runs(&prev, &cur);
    assert!(runs.is_empty());
}

#[test]
fn compute_runs_single_block_when_one_cell_changes() {
    let prev = vec![Cell::default(); 10];
    let mut cur = prev.clone();
    cur[5].ch = b'X' as u32;
    let runs = compute_runs(&prev, &cur);
    assert_eq!(runs.len(), 1);
    assert_eq!(runs[0].start, 5);
    assert_eq!(runs[0].cells.len(), 1);
}

#[test]
fn compute_runs_merges_nearby_changes() {
    let prev = vec![Cell::default(); 10];
    let mut cur = prev.clone();
    cur[2].ch = b'A' as u32;
    cur[5].ch = b'B' as u32;
    let runs = compute_runs(&prev, &cur);
    assert_eq!(runs.len(), 1);
    assert_eq!(runs[0].start, 2);
    assert_eq!(runs[0].cells.len(), 4);
}

#[test]
fn compute_runs_full_replace_when_most_changes() {
    let prev = vec![Cell::default(); 10];
    let mut cur = prev.clone();
    for c in cur.iter_mut().take(8) {
        c.ch = b'Z' as u32;
    }
    let runs = compute_runs(&prev, &cur);
    assert_eq!(runs.len(), 1);
    assert_eq!(runs[0].start, 0);
    assert_eq!(runs[0].cells.len(), 10);
}
