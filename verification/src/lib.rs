//! Ordered proficiency tiers for a tabletop role-playing ruleset.
//!
//! The crate defines a single closed enumeration of seven tiers, totally
//! ordered from `Untrained` up to `GrandMastery`, together with four pure
//! step operations over that order: successor and predecessor, each in a
//! non-wrapping form (which signals absence at the ends of the chain) and
//! a wrapping form (which treats the tiers as a cycle).

mod proficency;

pub use proficency::Proficency;
pub use proficency::iterate_up;
pub use proficency::iterate_down;
pub use proficency::lemma_step_inverse;
pub use proficency::lemma_wrapping_inverse;
pub use proficency::lemma_wrapping_cycle;
pub use proficency::lemma_order_agrees_with_rank;
pub use proficency::lemma_rank_from_rank;
