use vstd::prelude::*;

verus! {

/// The five equilibrium points of a pair of primaries, in the order L1 to L5.
#[derive(Clone, Copy, Debug, PartialEq, Eq, Structural)]
pub enum LagrangePointId {
    L1,
    L2,
    L3,
    L4,
    L5,
}

/// How many Lagrange points a pair of primaries has.
pub const LAGRANGE_POINT_COUNT: usize = 5;

/// The points in their conventional order; position `i` holds the point whose
/// index is `i`.
pub open spec fn lagrange_order() -> Seq<LagrangePointId> {
    seq![
        LagrangePointId::L1,
        LagrangePointId::L2,
        LagrangePointId::L3,
        LagrangePointId::L4,
        LagrangePointId::L5,
    ]
}

impl LagrangePointId {
    /// Zero-based position of the point in the order L1 to L5.
    pub open spec fn spec_index(self) -> nat {
        match self {
            LagrangePointId::L1 => 0,
            LagrangePointId::L2 => 1,
            LagrangePointId::L3 => 2,
            LagrangePointId::L4 => 3,
            LagrangePointId::L5 => 4,
        }
    }

    /// Label shown next to the point.
    pub open spec fn spec_name(self) -> Seq<char> {
        match self {
            LagrangePointId::L1 => "L1"@,
            LagrangePointId::L2 => "L2"@,
            LagrangePointId::L3 => "L3"@,
            LagrangePointId::L4 => "L4"@,
            LagrangePointId::L5 => "L5"@,
        }
    }

    /// L4 and L5 are the apexes of the equilateral triangles built on the
    /// primaries; L1, L2 and L3 lie on the axis through both primaries.
    pub open spec fn spec_is_triangular(self) -> bool {
        self is L4 || self is L5
    }

    pub fn index(&self) -> (i: usize)
        ensures
            i == self.spec_index(),
    {
        match self {
            LagrangePointId::L1 => 0,
            LagrangePointId::L2 => 1,
            LagrangePointId::L3 => 2,
            LagrangePointId::L4 => 3,
            LagrangePointId::L5 => 4,
        }
    }

    pub fn name(&self) -> (s: &'static str)
        ensures
            s@ == self.spec_name(),
    {
        match self {
            LagrangePointId::L1 => "L1",
            LagrangePointId::L2 => "L2",
            LagrangePointId::L3 => "L3",
            LagrangePointId::L4 => "L4",
            LagrangePointId::L5 => "L5",
        }
    }

    pub fn is_triangular(&self) -> (b: bool)
        ensures
            b == self.spec_is_triangular(),
    {
        match self {
            LagrangePointId::L4 | LagrangePointId::L5 => true,
            _ => false,
        }
    }
}

/// All five points, L1 first.
pub fn lagrange_points() -> (v: Vec<LagrangePointId>)
    ensures
        v@ == lagrange_order(),
{
    let v = vec![
        LagrangePointId::L1,
        LagrangePointId::L2,
        LagrangePointId::L3,
        LagrangePointId::L4,
        LagrangePointId::L5,
    ];
    assert(v@ =~= lagrange_order());
    v
}

/// The order holds every point exactly once, each at its own index.
pub proof fn lemma_order_matches_index(p: LagrangePointId)
    ensures
        lagrange_order().len() == LAGRANGE_POINT_COUNT,
        p.spec_index() < LAGRANGE_POINT_COUNT,
        lagrange_order()[p.spec_index() as int] == p,
        forall|i: int| 0 <= i < LAGRANGE_POINT_COUNT ==> #[trigger] lagrange_order()[i].spec_index() == i,
{
}

/// Distinct points have distinct indices.
pub proof fn lemma_index_injective(p: LagrangePointId, q: LagrangePointId)
    requires
        p != q,
    ensures
        p.spec_index() != q.spec_index(),
{
}

/// Exactly the last two points of the order are triangular.
pub proof fn lemma_triangular_are_last_two(p: LagrangePointId)
    ensures
        p.spec_is_triangular() <==> p.spec_index() >= 3,
{
}

} // verus!
