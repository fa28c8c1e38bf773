use vstd::prelude::*;
use crate::character::Character;

verus! {

/// A collision notification from the physics engine, valid for one tick.
/// `started` is true when the two colliders began touching and false when
/// they separated.
#[derive(Clone, Copy, Debug, PartialEq, Eq, Structural)]
pub struct ContactEvent {
    pub entity_a: u64,
    pub entity_b: u64,
    pub started: bool,
}

impl ContactEvent {
    /// The event is a contact start that names entity `id` on either side.
    pub open spec fn qualifies(self, id: u64) -> bool {
        self.started && (self.entity_a == id || self.entity_b == id)
    }

    /// Whether this event grounds the character whose physics entity is `id`.
    pub fn grounds(&self, id: u64) -> (r: bool)
        ensures
            r == self.qualifies(id),
    {
        self.started && (self.entity_a == id || self.entity_b == id)
    }
}

/// Some event of the batch is a contact start naming entity `id`.
pub open spec fn batch_grounds(events: Seq<ContactEvent>, id: u64) -> bool {
    exists|i: int| 0 <= i < events.len() && #[trigger] events[i].qualifies(id)
}

/// Scans a batch for a contact start naming entity `id`.
pub fn any_grounds(events: &Vec<ContactEvent>, id: u64) -> (r: bool)
    ensures
        r == batch_grounds(events@, id),
{
    let mut k: usize = 0;
    while k < events.len()
        invariant
            k <= events.len(),
            forall|i: int| 0 <= i < k ==> !(#[trigger] events@[i].qualifies(id)),
        decreases events.len() - k,
    {
        if events[k].grounds(id) {
            return true;
        }
        k = k + 1;
    }
    false
}

/// Drains the tick's batch of contact events into every character: each one
/// named by a contact start becomes grounded, the others keep their state.
/// The queue is empty afterwards, so no batch is ever seen twice.
pub fn jump_reset(characters: &mut Vec<Character>, events: &mut Vec<ContactEvent>)
    ensures
        final(characters)@.len() == old(characters)@.len(),
        forall|j: int|
            0 <= j < old(characters)@.len() ==> (#[trigger] final(characters)@[j])@
                == old(characters)@[j]@.after_contacts(old(events)@),
        final(events)@.len() == 0,
{
    let mut j: usize = 0;
    while j < characters.len()
        invariant
            j <= characters.len(),
            characters@.len() == old(characters)@.len(),
            events@ == old(events)@,
            forall|i: int|
                0 <= i < j ==> (#[trigger] characters@[i])@ == old(characters)@[i]@.after_contacts(
                    old(events)@,
                ),
            forall|i: int| j <= i < characters@.len() ==> #[trigger] characters@[i] == old(characters)@[i],
        decreases characters.len() - j,
    {
        let mut c = characters[j];
        c.process_contacts(events);
        characters.set(j, c);
        j = j + 1;
    }
    events.clear();
}

} // verus!
