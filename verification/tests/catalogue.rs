use three_body_viewer::lagrange::{lagrange_points, LagrangePointId, LAGRANGE_POINT_COUNT};
use three_body_viewer::preset::{preset_kind, PresetKind, PRESET_COUNT};

#[test]
fn preset_numbers_select_their_configurations() {
    assert_eq!(PRESET_COUNT, 10);
    assert_eq!(preset_kind(0), PresetKind::TriangleOrbit);
    assert_eq!(preset_kind(1), PresetKind::FigureEight);
    assert_eq!(preset_kind(2), PresetKind::CollinearFall);
    assert_eq!(preset_kind(3), PresetKind::BinaryAndVisitor);
    assert_eq!(preset_kind(4), PresetKind::AsymmetricDance);
    assert_eq!(preset_kind(5), PresetKind::LagrangeProbe(LagrangePointId::L1));
    assert_eq!(preset_kind(9), PresetKind::LagrangeProbe(LagrangePointId::L5));
}

#[test]
fn out_of_range_preset_is_the_triangle_orbit() {
    for index in [10, 11, 100, usize::MAX] {
        assert_eq!(preset_kind(index), preset_kind(0));
        assert_eq!(preset_kind(index).name(), "Triangle orbit");
    }
}

#[test]
fn preset_names_match_the_catalogue() {
    let names: Vec<&str> = (0..PRESET_COUNT).map(|i| preset_kind(i).name()).collect();
    assert_eq!(
        names,
        vec![
            "Triangle orbit",
            "Figure eight",
            "Collinear fall",
            "Binary and visitor",
            "Asymmetric dance",
            "Probe at L1",
            "Probe at L2",
            "Probe at L3",
            "Probe at L4",
            "Probe at L5",
        ]
    );
}

#[test]
fn preset_numbers_are_all_different() {
    for i in 0..PRESET_COUNT {
        for j in 0..PRESET_COUNT {
            assert_eq!(i == j, preset_kind(i) == preset_kind(j));
        }
    }
}

#[test]
fn probe_presets_walk_through_the_lagrange_points() {
    for i in 0..5 {
        assert_eq!(preset_kind(i).probe_point(), None);
    }
    for i in 5..PRESET_COUNT {
        let point = preset_kind(i).probe_point().unwrap();
        assert_eq!(point.index(), i - 5);
    }
}

#[test]
fn lagrange_points_are_ordered_and_named() {
    let points = lagrange_points();
    assert_eq!(points.len(), LAGRANGE_POINT_COUNT);
    let names: Vec<&str> = points.iter().map(|p| p.name()).collect();
    assert_eq!(names, vec!["L1", "L2", "L3", "L4", "L5"]);
    for (i, p) in points.iter().enumerate() {
        assert_eq!(p.index(), i);
    }
}

#[test]
fn only_l4_and_l5_are_triangular() {
    let flags: Vec<bool> = lagrange_points().iter().map(|p| p.is_triangular()).collect();
    assert_eq!(flags, vec![false, false, false, true, true]);
}
