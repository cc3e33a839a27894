use vstd::prelude::*;

verus! {

/// Slots one reactor unit consumes, regardless of family.
pub const REACTOR_SLOT_COST: usize = 3;

/// A fusion-family reactor unit.
#[derive(Clone, Copy, PartialEq, Eq, Structural, Debug)]
pub struct FusionReactor;

/// An antimatter-family reactor unit.
#[derive(Clone, Copy, PartialEq, Eq, Structural, Debug)]
pub struct AntimatterReactor;

impl FusionReactor {
    pub fn new() -> (r: FusionReactor)
        ensures
            r == FusionReactor,
    {
        FusionReactor
    }
}

impl AntimatterReactor {
    pub fn new() -> (r: AntimatterReactor)
        ensures
            r == AntimatterReactor,
    {
        AntimatterReactor
    }
}

/// An installed reactor, tagged by family.
#[derive(Clone, Copy, PartialEq, Eq, Structural, Debug)]
pub enum Reactor {
    Fusion(FusionReactor),
    Antimatter(AntimatterReactor),
}

impl Reactor {
    /// Mass of this reactor unit.
    pub open spec fn mass(self) -> int {
        match self {
            Reactor::Fusion(_) => 300,
            Reactor::Antimatter(_) => 450,
        }
    }

    /// Power this reactor unit contributes; reactors never draw power.
    pub open spec fn power_output(self) -> int {
        match self {
            Reactor::Fusion(_) => 1000,
            Reactor::Antimatter(_) => 1000,
        }
    }

    /// Name of this reactor's family.
    pub fn get_type(&self) -> (t: &'static str)
        ensures
            self is Fusion ==> t@ == "Fusion"@,
            self is Antimatter ==> t@ == "Antimatter"@,
    {
        match self {
            Reactor::Fusion(_) => "Fusion",
            Reactor::Antimatter(_) => "Antimatter",
        }
    }

    /// Slots this reactor consumes.
    pub fn get_slot_cost(&self) -> (c: usize)
        ensures
            c == REACTOR_SLOT_COST,
    {
        REACTOR_SLOT_COST
    }

    pub fn get_mass(&self) -> (m: i32)
        ensures
            m as int == self.mass(),
    {
        match self {
            Reactor::Fusion(_) => 300,
            Reactor::Antimatter(_) => 450,
        }
    }

    pub fn get_power_output(&self) -> (p: i32)
        ensures
            p as int == self.power_output(),
    {
        match self {
            Reactor::Fusion(_) => 1000,
            Reactor::Antimatter(_) => 1000,
        }
    }
}

/// Number of fusion-family units among the installed reactors.
pub open spec fn count_fusion(s: Seq<Reactor>) -> int
    decreases s.len(),
{
    if s.len() == 0 {
        0
    } else {
        count_fusion(s.drop_last()) + if s.last() is Fusion {
            1int
        } else {
            0int
        }
    }
}

/// Number of antimatter-family units among the installed reactors.
pub open spec fn count_antimatter(s: Seq<Reactor>) -> int
    decreases s.len(),
{
    if s.len() == 0 {
        0
    } else {
        count_antimatter(s.drop_last()) + if s.last() is Antimatter {
            1int
        } else {
            0int
        }
    }
}

/// Combined mass of the installed reactors.
pub open spec fn reactors_mass(s: Seq<Reactor>) -> int
    decreases s.len(),
{
    if s.len() == 0 {
        0
    } else {
        reactors_mass(s.drop_last()) + s.last().mass()
    }
}

/// Combined power output of the installed reactors.
pub open spec fn reactors_power_output(s: Seq<Reactor>) -> int
    decreases s.len(),
{
    if s.len() == 0 {
        0
    } else {
        reactors_power_output(s.drop_last()) + s.last().power_output()
    }
}

/// Installing one more reactor changes the family counts and the aggregate
/// sums by exactly that reactor's contribution.
pub proof fn lemma_reactor_push(s: Seq<Reactor>, r: Reactor)
    ensures
        count_fusion(s.push(r)) == count_fusion(s) + if r is Fusion {
            1int
        } else {
            0int
        },
        count_antimatter(s.push(r)) == count_antimatter(s) + if r is Antimatter {
            1int
        } else {
            0int
        },
        reactors_mass(s.push(r)) == reactors_mass(s) + r.mass(),
        reactors_power_output(s.push(r)) == reactors_power_output(s) + r.power_output(),
{
    assert(s.push(r).drop_last() =~= s);
    assert(s.push(r).last() == r);
}

/// The aggregate reactor metrics in closed form: the counts of the two
/// families determine the totals, so only the multiset of installed variants
/// matters, never their order.
pub proof fn lemma_reactor_sums(s: Seq<Reactor>)
    ensures
        0 <= count_fusion(s),
        0 <= count_antimatter(s),
        count_fusion(s) + count_antimatter(s) == s.len(),
        reactors_mass(s) == 300 * count_fusion(s) + 450 * count_antimatter(s),
        reactors_power_output(s) == 1000 * s.len(),
    decreases s.len(),
{
    if s.len() > 0 {
        lemma_reactor_sums(s.drop_last());
    }
}

/// Reactor order is irrelevant to every derived metric: two installation
/// sequences with the same count of each family have the same combined mass
/// and power output.
pub proof fn lemma_reactor_order_irrelevant(a: Seq<Reactor>, b: Seq<Reactor>)
    requires
        count_fusion(a) == count_fusion(b),
        count_antimatter(a) == count_antimatter(b),
    ensures
        a.len() == b.len(),
        reactors_mass(a) == reactors_mass(b),
        reactors_power_output(a) == reactors_power_output(b),
{
    lemma_reactor_sums(a);
    lemma_reactor_sums(b);
}

} // verus!
