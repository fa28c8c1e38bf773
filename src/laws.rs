//! Properties of the controller across calls, proved over the models that
//! the executable functions' contracts use.
use vstd::prelude::*;
use crate::character::CharacterModel;
use crate::contact::{batch_grounds, ContactEvent};
use crate::input::InputSnapshot;
use crate::velocity::Velocity;

verus! {

/// Holding only "move-left" sets the horizontal velocity to exactly
/// `-horizontalSpeed`, holding only "move-right" to `+horizontalSpeed`, and
/// holding both or neither leaves the previous horizontal velocity as it was
/// (it is not zeroed).
pub proof fn movement_sets_horizontal_velocity(m: CharacterModel, input: InputSnapshot, v: Velocity)
    ensures
        input.only_left() ==> m.command(input).applied(v).x == -m.horizontal_speed,
        input.only_right() ==> m.command(input).applied(v).x == m.horizontal_speed,
        input.left == input.right ==> m.command(input).applied(v).x == v.x,
{
}

/// A jump request while grounded sets the vertical velocity to exactly
/// `+jumpSpeed` and makes the character airborne; while airborne it changes
/// neither the vertical velocity nor the state.
pub proof fn jump_only_from_the_ground(m: CharacterModel, input: InputSnapshot, v: Velocity)
    ensures
        input.jump && !m.airborne ==> m.command(input).applied(v).y == m.jump_speed
            && m.after_jump(input) == (CharacterModel { airborne: true, ..m }),
        m.airborne ==> m.command(input).applied(v).y == v.y && m.after_jump(input) == m,
{
}

/// An airborne character becomes grounded after a batch of contact events if
/// and only if the batch holds a contact start that names it; a batch never
/// makes a grounded character airborne.
pub proof fn landing_exactly_on_contact_start(m: CharacterModel, events: Seq<ContactEvent>)
    ensures
        m.airborne ==> (!m.after_contacts(events).airborne <==> batch_grounds(events, m.entity)),
        !m.airborne ==> !m.after_contacts(events).airborne,
        m.after_contacts(events).entity == m.entity,
{
}

/// Several qualifying contact starts in one tick ground the character just as
/// one does: adding events to a batch that already grounds it, or consuming
/// the same batch again, changes nothing.
pub proof fn landing_is_idempotent(m: CharacterModel, events: Seq<ContactEvent>, more: Seq<ContactEvent>)
    ensures
        batch_grounds(events, m.entity) ==> m.after_contacts(events + more) == m.after_contacts(events),
        m.after_contacts(events).after_contacts(events) == m.after_contacts(events),
{
    if batch_grounds(events, m.entity) {
        let i = choose|i: int| 0 <= i < events.len() && #[trigger] events[i].qualifies(m.entity);
        assert((events + more)[i] == events[i]);
    }
}

/// A run of ticks whose batches hold no contact start naming the character
/// leaves an airborne character airborne, and keeps its body and speeds.
pub proof fn airborne_through_quiet_ticks(
    m: CharacterModel,
    inputs: Seq<InputSnapshot>,
    batches: Seq<Seq<ContactEvent>>,
)
    requires
        inputs.len() == batches.len(),
        forall|i: int| 0 <= i < batches.len() ==> !batch_grounds(#[trigger] batches[i], m.entity),
    ensures
        m.after_ticks(inputs, batches).entity == m.entity,
        m.after_ticks(inputs, batches).horizontal_speed == m.horizontal_speed,
        m.after_ticks(inputs, batches).jump_speed == m.jump_speed,
        m.airborne ==> m.after_ticks(inputs, batches).airborne,
    decreases inputs.len(),
{
    if inputs.len() > 0 {
        let next = m.after_tick(inputs[0], batches[0]);
        assert forall|i: int| 0 <= i < batches.drop_first().len() implies !batch_grounds(
            #[trigger] batches.drop_first()[i],
            next.entity,
        ) by {
            assert(batches.drop_first()[i] == batches[i + 1]);
        }
        airborne_through_quiet_ticks(next, inputs.drop_first(), batches.drop_first());
    }
}

/// Spawned grounded, the character jumps (airborne, vertical velocity
/// `+jumpSpeed`), stays airborne through any number of ticks without a
/// contact start naming it, is grounded by the batch that holds one, and can
/// then jump again.
pub proof fn jump_land_jump(
    m: CharacterModel,
    first: InputSnapshot,
    inputs: Seq<InputSnapshot>,
    batches: Seq<Seq<ContactEvent>>,
    landing: Seq<ContactEvent>,
    second: InputSnapshot,
)
    requires
        !m.airborne,
        first.jump,
        second.jump,
        inputs.len() == batches.len(),
        forall|i: int| 0 <= i < batches.len() ==> !batch_grounds(#[trigger] batches[i], m.entity),
        batch_grounds(landing, m.entity),
    ensures
        m.command(first).vertical == Some(m.jump_speed as i64),
        m.after_jump(first).airborne,
        m.after_jump(first).after_ticks(inputs, batches).airborne,
        !m.after_jump(first).after_ticks(inputs, batches).after_contacts(landing).airborne,
        m.after_jump(first).after_ticks(inputs, batches).after_contacts(landing).command(
            second,
        ).vertical == Some(m.jump_speed as i64),
        m.after_jump(first).after_ticks(inputs, batches).after_contacts(landing).after_jump(
            second,
        ).airborne,
{
    airborne_through_quiet_ticks(m.after_jump(first), inputs, batches);
}

/// No jump succeeds in the tick right after a successful one unless the
/// batch consumed in between held a contact start naming the character.
pub proof fn no_jump_without_landing(
    m: CharacterModel,
    first: InputSnapshot,
    events: Seq<ContactEvent>,
    second: InputSnapshot,
)
    requires
        m.jump_succeeds(first),
    ensures
        m.after_tick(first, events).jump_succeeds(second) ==> batch_grounds(events, m.entity),
        !batch_grounds(events, m.entity) ==> m.after_tick(first, events).command(second).vertical
            is None,
{
}

} // verus!
