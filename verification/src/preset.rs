use vstd::prelude::*;

use crate::lagrange::LagrangePointId;

verus! {

/// How many initial configurations the viewer offers.
pub const PRESET_COUNT: usize = 10;

/// One of the initial configurations of the three bodies.
#[derive(Clone, Copy, Debug, PartialEq, Eq, Structural)]
pub enum PresetKind {
    /// Three equal masses rotating on an equilateral triangle.
    TriangleOrbit,
    /// The periodic figure-eight solution.
    FigureEight,
    /// Three bodies at rest on a line, falling into each other.
    CollinearFall,
    /// A heavy binary crossed by a light visitor.
    BinaryAndVisitor,
    /// Unequal masses and velocities.
    AsymmetricDance,
    /// Two primaries in circular motion and a light probe at a Lagrange point.
    LagrangeProbe(LagrangePointId),
}

/// The configurations in the order in which they are numbered.
pub open spec fn preset_catalog() -> Seq<PresetKind> {
    seq![
        PresetKind::TriangleOrbit,
        PresetKind::FigureEight,
        PresetKind::CollinearFall,
        PresetKind::BinaryAndVisitor,
        PresetKind::AsymmetricDance,
        PresetKind::LagrangeProbe(LagrangePointId::L1),
        PresetKind::LagrangeProbe(LagrangePointId::L2),
        PresetKind::LagrangeProbe(LagrangePointId::L3),
        PresetKind::LagrangeProbe(LagrangePointId::L4),
        PresetKind::LagrangeProbe(LagrangePointId::L5),
    ]
}

/// The configuration with the given number; a number past the catalogue
/// stands for the first configuration.
pub open spec fn spec_preset_kind(index: int) -> PresetKind {
    if 0 <= index < PRESET_COUNT {
        preset_catalog()[index]
    } else {
        preset_catalog()[0]
    }
}

/// Looks up the configuration with the given number.
pub fn preset_kind(index: usize) -> (k: PresetKind)
    ensures
        k == spec_preset_kind(index as int),
{
    match index {
        0 => PresetKind::TriangleOrbit,
        1 => PresetKind::FigureEight,
        2 => PresetKind::CollinearFall,
        3 => PresetKind::BinaryAndVisitor,
        4 => PresetKind::AsymmetricDance,
        5 => PresetKind::LagrangeProbe(LagrangePointId::L1),
        6 => PresetKind::LagrangeProbe(LagrangePointId::L2),
        7 => PresetKind::LagrangeProbe(LagrangePointId::L3),
        8 => PresetKind::LagrangeProbe(LagrangePointId::L4),
        9 => PresetKind::LagrangeProbe(LagrangePointId::L5),
        _ => PresetKind::TriangleOrbit,
    }
}

impl PresetKind {
    /// Title shown for the configuration.
    pub open spec fn spec_name(self) -> Seq<char> {
        match self {
            PresetKind::TriangleOrbit => "Triangle orbit"@,
            PresetKind::FigureEight => "Figure eight"@,
            PresetKind::CollinearFall => "Collinear fall"@,
            PresetKind::BinaryAndVisitor => "Binary and visitor"@,
            PresetKind::AsymmetricDance => "Asymmetric dance"@,
            PresetKind::LagrangeProbe(LagrangePointId::L1) => "Probe at L1"@,
            PresetKind::LagrangeProbe(LagrangePointId::L2) => "Probe at L2"@,
            PresetKind::LagrangeProbe(LagrangePointId::L3) => "Probe at L3"@,
            PresetKind::LagrangeProbe(LagrangePointId::L4) => "Probe at L4"@,
            PresetKind::LagrangeProbe(LagrangePointId::L5) => "Probe at L5"@,
        }
    }

    pub fn name(&self) -> (s: &'static str)
        ensures
            s@ == self.spec_name(),
    {
        match self {
            PresetKind::TriangleOrbit => "Triangle orbit",
            PresetKind::FigureEight => "Figure eight",
            PresetKind::CollinearFall => "Collinear fall",
            PresetKind::BinaryAndVisitor => "Binary and visitor",
            PresetKind::AsymmetricDance => "Asymmetric dance",
            PresetKind::LagrangeProbe(LagrangePointId::L1) => "Probe at L1",
            PresetKind::LagrangeProbe(LagrangePointId::L2) => "Probe at L2",
            PresetKind::LagrangeProbe(LagrangePointId::L3) => "Probe at L3",
            PresetKind::LagrangeProbe(LagrangePointId::L4) => "Probe at L4",
            PresetKind::LagrangeProbe(LagrangePointId::L5) => "Probe at L5",
        }
    }

    /// The Lagrange point at which the configuration places its probe, if any.
    pub open spec fn spec_probe_point(self) -> Option<LagrangePointId> {
        match self {
            PresetKind::LagrangeProbe(p) => Some(p),
            _ => None,
        }
    }

    pub fn probe_point(&self) -> (p: Option<LagrangePointId>)
        ensures
            p == self.spec_probe_point(),
    {
        match self {
            PresetKind::LagrangeProbe(p) => Some(*p),
            _ => None,
        }
    }
}

/// A number past the catalogue selects the same configuration as number 0.
pub proof fn lemma_out_of_range_is_first(index: int)
    requires
        !(0 <= index < PRESET_COUNT),
    ensures
        spec_preset_kind(index) == spec_preset_kind(0),
        spec_preset_kind(index) == PresetKind::TriangleOrbit,
{
}

/// The numbered configurations are pairwise different.
pub proof fn lemma_catalog_distinct(i: int, j: int)
    requires
        0 <= i < PRESET_COUNT,
        0 <= j < PRESET_COUNT,
        i != j,
    ensures
        spec_preset_kind(i) != spec_preset_kind(j),
{
}

/// The last five configurations put the probe at L1 to L5 in turn, and they
/// are the only ones with a probe.
pub proof fn lemma_probe_presets(index: int, p: LagrangePointId)
    ensures
        spec_preset_kind(5 + p.spec_index() as int) == PresetKind::LagrangeProbe(p),
        0 <= index < 5 ==> spec_preset_kind(index).spec_probe_point() is None,
        5 <= index < PRESET_COUNT ==> (spec_preset_kind(index).spec_probe_point() matches Some(q)
            && q.spec_index() == index - 5),
{
}


/// The titles of the ten configurations, read in number order.
pub proof fn lemma_catalog_titles()
    ensures
        Seq::new(PRESET_COUNT as nat, |i: int| spec_preset_kind(i).spec_name()) =~= seq![
            "Triangle orbit"@,
            "Figure eight"@,
            "Collinear fall"@,
            "Binary and visitor"@,
            "Asymmetric dance"@,
            "Probe at L1"@,
            "Probe at L2"@,
            "Probe at L3"@,
            "Probe at L4"@,
            "Probe at L5"@,
        ],
{
}

} // verus!
