//! The grounded classifier: whether a character stands on ground it can
//! walk on, decided anew in every tick from what its probe met.

use vstd::prelude::*;
use crate::character::controller::{Character, Grounded, ShapeHit};
use crate::character::geometry::{is_walkable, walkable, MaxSlopeAngle, Rotation};

verus! {

/// Whether at least one of the hits is ground the character can stand on.
pub open spec fn any_walkable(
    hits: Seq<ShapeHit>,
    rotation: Rotation,
    limit: Option<MaxSlopeAngle>,
) -> bool {
    exists|i: int| 0 <= i < hits.len() && is_walkable(rotation, #[trigger] hits[i].normal, limit)
}

impl Character {
    /// Whether what the probe met this tick supports the character.
    pub open spec fn supported(self) -> bool {
        any_walkable(self.shape_hits@, self.rotation, self.max_slope_angle)
    }

    /// The character after the classifier has run: marked as grounded if
    /// and only if it is supported, whatever it was before.
    pub open spec fn classified(self) -> Character {
        Character {
            grounded: if self.supported() {
                Some(Grounded)
            } else {
                None
            },
            ..self
        }
    }

    /// Runs the classifier on this character.
    pub fn classify(&mut self)
        ensures
            *final(self) == old(self).classified(),
    {
        let supported = is_supported(&self.shape_hits, &self.rotation, self.max_slope_angle);
        self.grounded = if supported {
            Some(Grounded)
        } else {
            None
        };
    }
}

/// Decides [`any_walkable`]: looks for a hit within the slope limit.
pub fn is_supported(hits: &Vec<ShapeHit>, rotation: &Rotation, limit: Option<MaxSlopeAngle>) -> (b: bool)
    ensures
        b == any_walkable(hits@, *rotation, limit),
{
    let mut i: usize = 0;
    while i < hits.len()
        invariant
            i <= hits.len(),
            forall|j: int| 0 <= j < i ==> !is_walkable(*rotation, #[trigger] hits@[j].normal, limit),
        decreases hits.len() - i,
    {
        if walkable(rotation, &hits[i].normal, limit) {
            return true;
        }
        i += 1;
    }
    false
}

/// Marks every character as grounded or not, from what its probe met in
/// this tick alone. A character whose probe met nothing is in the air.
pub fn update_grounded(characters: &mut Vec<Character>)
    ensures
        final(characters)@.len() == old(characters)@.len(),
        forall|i: int|
            0 <= i < old(characters)@.len() ==> #[trigger] final(characters)@[i] == old(
                characters,
            )@[i].classified(),
{
    let mut i: usize = 0;
    while i < characters.len()
        invariant
            i <= characters.len(),
            characters@.len() == old(characters)@.len(),
            forall|j: int| 0 <= j < i ==> #[trigger] characters@[j] == old(characters)@[j].classified(),
            forall|j: int| i <= j < characters@.len() ==> #[trigger] characters@[j] == old(characters)@[j],
        decreases characters.len() - i,
    {
        characters[i].classify();
        i += 1;
    }
}

} // verus!
