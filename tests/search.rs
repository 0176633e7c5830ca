use agora::utils::{x_bounds_default, y_bounds_default, z_bounds_default};
use agora::{find, find_at_x, get_texture_top, matches_at, satisfies};
use agora::{Formation, InfoType, RotationInfo};

fn formation(sodium: bool, lo: (i32, i32, i32), hi: (i32, i32, i32), cs: Vec<RotationInfo>) -> Formation {
    Formation {
        sodium,
        x_min: lo.0,
        x_max: hi.0,
        y_min: lo.1,
        y_max: hi.1,
        z_min: lo.2,
        z_max: hi.2,
        rotation_info: cs,
    }
}

fn face(x: i32, y: i32, z: i32, rotation: i32) -> RotationInfo {
    RotationInfo { info_type: InfoType::TopsAndBottoms, x, y, z, rotation }
}

fn side(x: i32, y: i32, z: i32, rotation: i32) -> RotationInfo {
    RotationInfo { info_type: InfoType::Sides, x, y, z, rotation }
}

fn sorted(mut v: Vec<(i32, i32, i32)>) -> Vec<(i32, i32, i32)> {
    v.sort();
    v
}

#[test]
fn empty_pattern_reports_whole_box_once() {
    let f = formation(false, (-2, 3, -1), (1, 4, 1), vec![]);
    let r = find(&f);
    assert_eq!(r.len(), 4 * 2 * 3);
    let mut expected = vec![];
    for x in -2..=1 {
        for y in 3..=4 {
            for z in -1..=1 {
                expected.push((x, y, z));
            }
        }
    }
    assert_eq!(sorted(r), expected);
}

#[test]
fn single_face_constraint_single_point() {
    let f = formation(false, (0, 0, 0), (0, 0, 0), vec![face(0, 0, 0, get_texture_top(0, 0, 0))]);
    assert_eq!(find(&f), vec![(0, 0, 0)]);
}

#[test]
fn legacy_face_constraint_is_checked() {
    // legacy tops at y = 0, z = -1 for x = -1, 0, 1 are 0, 1, 0
    let f = formation(false, (-1, 0, -1), (1, 0, -1), vec![face(0, 0, 0, 0)]);
    assert_eq!(sorted(find(&f)), vec![(-1, 0, -1), (1, 0, -1)]);
}

#[test]
fn split_scan_equals_single_scan() {
    let cs = vec![face(0, 0, 0, 0), side(1, 0, 0, 1)];
    let f = formation(false, (-30, -2, -3), (30, 2, 3), cs);
    let whole = sorted(find(&f));
    let mut parts = vec![];
    for x in -30..=30 {
        parts.extend(find_at_x(&f, x));
    }
    assert!(!whole.is_empty());
    assert_eq!(sorted(parts), whole);
}

#[test]
fn mutated_constraint_removes_match() {
    let f = formation(false, (-1, 0, -1), (1, 0, -1), vec![face(0, 0, 0, 1)]);
    assert_eq!(find(&f), vec![(0, 0, -1)]);
    let g = formation(false, (-1, 0, -1), (1, 0, -1), vec![face(0, 0, 0, 2)]);
    assert_eq!(find(&g), vec![]);
}

#[test]
fn alternate_face_needs_both_families() {
    // alternate tops at y = -56, z = 0 for x = 0..=13 are 3 at 0, 1, 2, 3, 5, 9, 12, 13;
    // the legacy top is 3 only at x = 3
    let f = formation(true, (0, -56, 0), (13, -56, 0), vec![face(0, 0, 0, 3)]);
    assert_eq!(find(&f), vec![(3, -56, 0)]);
}

#[test]
fn alternate_side_uses_alternate_only() {
    // at x = 5, y = -56, z = 0 the alternate side is 1 and the legacy side is 0
    let c = side(0, 0, 0, 1);
    assert!(satisfies(true, &c, 5, -56, 0));
    assert!(!satisfies(false, &c, 5, -56, 0));
    let f = formation(true, (0, -56, 0), (13, -56, 0), vec![c]);
    assert_eq!(
        find(&f),
        vec![(0, -56, 0), (1, -56, 0), (2, -56, 0), (3, -56, 0), (4, -56, 0), (5, -56, 0), (9, -56, 0), (10, -56, 0), (11, -56, 0), (12, -56, 0), (13, -56, 0)]
    );
}

#[test]
fn offsets_are_relative_to_origin() {
    // legacy top at (0, 0, 1) is 3
    let f = formation(false, (0, 0, 0), (0, 0, 0), vec![face(0, 0, 1, 3)]);
    assert!(matches_at(&f, 0, 0, 0));
    assert_eq!(find(&f), vec![(0, 0, 0)]);
    let g = formation(false, (0, 0, 0), (0, 0, 0), vec![face(0, 0, 1, 0)]);
    assert!(!matches_at(&g, 0, 0, 0));
}

#[test]
fn inverted_bounds_give_nothing() {
    let f = formation(false, (1, 0, 0), (0, 5, 5), vec![]);
    assert_eq!(find(&f), vec![]);
    let g = formation(true, (0, 5, 0), (3, 4, 3), vec![]);
    assert_eq!(find(&g), vec![]);
    assert_eq!(find_at_x(&g, 0), vec![]);
}

#[test]
fn scan_reaches_the_largest_coordinate() {
    let f = formation(false, (i32::MAX - 1, i32::MAX, i32::MAX), (i32::MAX, i32::MAX, i32::MAX), vec![]);
    assert_eq!(find(&f), vec![(i32::MAX - 1, i32::MAX, i32::MAX), (i32::MAX, i32::MAX, i32::MAX)]);
}

#[test]
fn config_normalisation() {
    assert_eq!(RotationInfo::from_config(1, 2, 3, 3, true), Some(side(1, 2, 3, 1)));
    assert_eq!(RotationInfo::from_config(1, 2, 3, 2, true), Some(side(1, 2, 3, 0)));
    assert_eq!(RotationInfo::from_config(1, 2, 3, -1, true), Some(side(1, 2, 3, 1)));
    assert_eq!(RotationInfo::from_config(1, 2, 3, 2, false), Some(face(1, 2, 3, 2)));
    assert_eq!(RotationInfo::from_config(1, 2, 3, 4, false), None);
    assert_eq!(RotationInfo::from_config(1, 2, 3, -1, false), None);
}

#[test]
fn default_bounds() {
    assert_eq!(x_bounds_default(), (-10000, 10000));
    assert_eq!(y_bounds_default(), (10, 60));
    assert_eq!(z_bounds_default(), (-10000, 10000));
}
