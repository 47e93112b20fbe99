use vstd::prelude::*;

use core::cmp::Ordering;
use vstd::std_specs::cmp::PartialOrdSpec;

verus! {

/// This enum represents the proficency levels in Star Wars 5e, listed from
/// lowest to highest tier. The set is closed: exactly these seven values
/// exist, totally ordered by their rank.
#[derive(Debug, Clone, Copy, PartialEq, Eq, Ord, Hash, Structural)]
pub enum Proficency {
    /// The character is not proficent in the skill and has no bonus.
    Untrained,
    /// The character is half-proficient in the skill and adds half their
    /// proficiency bonus, rounded down. Training can only be obtained in
    /// skills, tools, saving throws, and weapons.
    Trained,
    /// The character is proficient in the skill and adds their full proficiency
    /// bonus. Proficency can only be obtained in skills, tools, saving throws,
    /// and weapons.
    Proficent,
    /// The character is an expert in the skill and adds twice their proficiency
    /// bonus. Expertise can only be obtained in skills, tools, and saving
    /// throws.
    Expertise,
    /// The character is a master in the skill and adds twice their proficiency
    /// bonus. Additionally, they always have advantage with mastery. Mastery
    /// can only be obtained in skills, tools, and saving throws.
    Mastery,
    /// The character is a high master in the skill and adds twice their
    /// proficiency bonus. Additionally, they always have advantage with
    /// high mastery, and when you make a roll with advantage at this tier
    /// of proficency, you can reroll one of the dice once; they must use
    /// the new roll. High mastery can only be obtained in skills, tools,
    /// and saving throws.
    HighMastery,
    /// Grand mastery lets you add twice your proficiency bonus. Additionally,
    /// you always have advantage with grand mastery, and when you make a roll
    /// with advantage at this tier of proficiency, you can reroll each of the
    /// dice once. You must use the new roll for each die. Grand mastery can be
    /// obtained in skills, tools, and saving throws.
    GrandMastery,
}

impl Proficency {
    /// The position of this tier in the total order: 0 for `Untrained` up to
    /// 6 for `GrandMastery`.
    pub open spec fn rank(self) -> int {
        match self {
            Proficency::Untrained => 0,
            Proficency::Trained => 1,
            Proficency::Proficent => 2,
            Proficency::Expertise => 3,
            Proficency::Mastery => 4,
            Proficency::HighMastery => 5,
            Proficency::GrandMastery => 6,
        }
    }

    /// The tier standing at a given rank; meaningful for ranks 0 through 6.
    pub open spec fn from_rank(r: int) -> Proficency
        recommends
            0 <= r <= 6,
    {
        if r <= 0 {
            Proficency::Untrained
        } else if r == 1 {
            Proficency::Trained
        } else if r == 2 {
            Proficency::Proficent
        } else if r == 3 {
            Proficency::Expertise
        } else if r == 4 {
            Proficency::Mastery
        } else if r == 5 {
            Proficency::HighMastery
        } else {
            Proficency::GrandMastery
        }
    }

    /// What `increase` returns: the tier one rank up, absent at the top end.
    pub open spec fn spec_increase(self) -> Option<Proficency> {
        if self.rank() < 6 {
            Some(Proficency::from_rank(self.rank() + 1))
        } else {
            None
        }
    }

    /// What `increase_wrapping` returns: the tier one rank up, cycling from
    /// the top back to the bottom.
    pub open spec fn spec_increase_wrapping(self) -> Proficency {
        if self.rank() < 6 {
            Proficency::from_rank(self.rank() + 1)
        } else {
            Proficency::Untrained
        }
    }

    /// What `decrease` returns: the tier one rank down, absent at the bottom
    /// end.
    pub open spec fn spec_decrease(self) -> Option<Proficency> {
        if self.rank() > 0 {
            Some(Proficency::from_rank(self.rank() - 1))
        } else {
            None
        }
    }

    /// What `decrease_wrapping` returns: the tier one rank down, cycling from
    /// the bottom back to the top.
    pub open spec fn spec_decrease_wrapping(self) -> Proficency {
        if self.rank() > 0 {
            Proficency::from_rank(self.rank() - 1)
        } else {
            Proficency::GrandMastery
        }
    }

    /// Returns the next proficency level, or `None` if the current level is
    /// `GrandMastery`: there is no higher tier, and the caller must handle
    /// the absence explicitly.
    #[must_use]
    pub fn increase(self) -> (r: Option<Self>)
        ensures
            r == self.spec_increase(),
            r is Some <==> self !is GrandMastery,
            r matches Some(n) ==> n.rank() == self.rank() + 1,
    {
        match self {
            Self::Untrained => Some(Self::Trained),
            Self::Trained => Some(Self::Proficent),
            Self::Proficent => Some(Self::Expertise),
            Self::Expertise => Some(Self::Mastery),
            Self::Mastery => Some(Self::HighMastery),
            Self::HighMastery => Some(Self::GrandMastery),
            Self::GrandMastery => None,
        }
    }

    /// Returns the next proficency level, wrapping around to `Untrained` if
    /// the current level is `GrandMastery`.
    #[must_use]
    pub fn increase_wrapping(self) -> (r: Self)
        ensures
            r == self.spec_increase_wrapping(),
            r.rank() == (self.rank() + 1) % 7,
    {
        match self {
            Self::Untrained => Self::Trained,
            Self::Trained => Self::Proficent,
            Self::Proficent => Self::Expertise,
            Self::Expertise => Self::Mastery,
            Self::Mastery => Self::HighMastery,
            Self::HighMastery => Self::GrandMastery,
            Self::GrandMastery => Self::Untrained,
        }
    }

    /// Returns the previous proficency level, or `None` if the current level
    /// is `Untrained`: there is no lower tier, and the caller must handle the
    /// absence explicitly.
    #[must_use]
    pub fn decrease(self) -> (r: Option<Self>)
        ensures
            r == self.spec_decrease(),
            r is Some <==> self !is Untrained,
            r matches Some(p) ==> p.rank() == self.rank() - 1,
    {
        match self {
            Self::Untrained => None,
            Self::Trained => Some(Self::Untrained),
            Self::Proficent => Some(Self::Trained),
            Self::Expertise => Some(Self::Proficent),
            Self::Mastery => Some(Self::Expertise),
            Self::HighMastery => Some(Self::Mastery),
            Self::GrandMastery => Some(Self::HighMastery),
        }
    }

    /// Returns the previous proficency level, wrapping around to
    /// `GrandMastery` if the current level is `Untrained`.
    #[must_use]
    pub fn decrease_wrapping(self) -> (r: Self)
        ensures
            r == self.spec_decrease_wrapping(),
            r.rank() == (self.rank() + 6) % 7,
    {
        match self {
            Self::Untrained => Self::GrandMastery,
            Self::Trained => Self::Untrained,
            Self::Proficent => Self::Trained,
            Self::Expertise => Self::Proficent,
            Self::Mastery => Self::Expertise,
            Self::HighMastery => Self::Mastery,
            Self::GrandMastery => Self::HighMastery,
        }
    }

    /// The rank of this tier as a machine integer, for comparisons.
    fn ordinal(self) -> (r: u8)
        ensures
            r as int == self.rank(),
    {
        match self {
            Self::Untrained => 0,
            Self::Trained => 1,
            Self::Proficent => 2,
            Self::Expertise => 3,
            Self::Mastery => 4,
            Self::HighMastery => 5,
            Self::GrandMastery => 6,
        }
    }
}

impl Default for Proficency {
    /// A newly constructed value starts at the lowest tier, `Untrained`.
    fn default() -> (r: Self)
        ensures
            r == Proficency::Untrained,
    {
        Proficency::Untrained
    }
}

impl PartialOrd for Proficency {
    /// Tiers compare as their ranks do.
    fn partial_cmp(&self, other: &Self) -> (r: Option<Ordering>) {
        let a: u8 = self.ordinal();
        let b: u8 = other.ordinal();
        if a < b {
            Some(Ordering::Less)
        } else if a == b {
            Some(Ordering::Equal)
        } else {
            Some(Ordering::Greater)
        }
    }
}

impl vstd::std_specs::cmp::PartialOrdSpecImpl for Proficency {
    open spec fn obeys_partial_cmp_spec() -> bool {
        true
    }

    open spec fn partial_cmp_spec(&self, other: &Self) -> Option<Ordering> {
        if self.rank() < other.rank() {
            Some(Ordering::Less)
        } else if self.rank() == other.rank() {
            Some(Ordering::Equal)
        } else {
            Some(Ordering::Greater)
        }
    }
}

/// The tier reached from `v` after `n` upward wrapping steps.
pub open spec fn iterate_up(v: Proficency, n: nat) -> Proficency
    decreases n,
{
    if n == 0 {
        v
    } else {
        iterate_up(v, (n - 1) as nat).spec_increase_wrapping()
    }
}

/// The tier reached from `v` after `n` downward wrapping steps.
pub open spec fn iterate_down(v: Proficency, n: nat) -> Proficency
    decreases n,
{
    if n == 0 {
        v
    } else {
        iterate_down(v, (n - 1) as nat).spec_decrease_wrapping()
    }
}

/// `rank` and `from_rank` are mutually inverse: every tier is recovered from
/// its own rank, and each of the ranks 0 through 6 names exactly one tier.
pub proof fn lemma_rank_from_rank(v: Proficency, r: int)
    requires
        0 <= r <= 6,
    ensures
        Proficency::from_rank(v.rank()) == v,
        Proficency::from_rank(r).rank() == r,
{
}

/// Stepping up from any tier that has a successor and then stepping down
/// returns the starting tier, and symmetrically for stepping down first.
pub proof fn lemma_step_inverse(v: Proficency)
    ensures
        v.spec_increase() matches Some(n) ==> n.spec_decrease() == Some(v),
        v.spec_decrease() matches Some(p) ==> p.spec_increase() == Some(v),
{
}

/// A wrapping step up followed by a wrapping step down returns the starting
/// tier, and symmetrically in the other order.
pub proof fn lemma_wrapping_inverse(v: Proficency)
    ensures
        v.spec_increase_wrapping().spec_decrease_wrapping() == v,
        v.spec_decrease_wrapping().spec_increase_wrapping() == v,
{
}

/// Taking one wrapping step per tier, in either direction, walks the full
/// cycle and returns to the starting tier.
pub proof fn lemma_wrapping_cycle(v: Proficency)
    ensures
        iterate_up(v, 7) == v,
        iterate_down(v, 7) == v,
{
    reveal_with_fuel(iterate_up, 8);
    reveal_with_fuel(iterate_down, 8);
}

/// Ordering comparisons agree with the rank table: two tiers compare as
/// their ranks do, and compare equal exactly when they are the same tier.
pub proof fn lemma_order_agrees_with_rank(a: Proficency, b: Proficency)
    ensures
        a.partial_cmp_spec(&b) == Some(Ordering::Less) <==> a.rank() < b.rank(),
        a.partial_cmp_spec(&b) == Some(Ordering::Equal) <==> a == b,
        a.partial_cmp_spec(&b) == Some(Ordering::Greater) <==> a.rank() > b.rank(),
{
    lemma_rank_from_rank(a, b.rank());
    lemma_rank_from_rank(b, a.rank());
}

} // verus!
