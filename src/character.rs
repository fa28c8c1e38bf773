use vstd::prelude::*;
use crate::contact::{any_grounds, batch_grounds, ContactEvent};
use crate::input::InputSnapshot;
use crate::velocity::VelocityCommand;

verus! {

/// Horizontal speed given to the player character, in units per second.
pub const PLAYER_SPEED: u32 = 100;

/// Vertical speed of the player character's jump, in units per second.
pub const JUMP_SPEED: u32 = 150;

/// The controlled character. Its grounded/airborne state is private: it
/// leaves "grounded" only through a successful jump and returns to it only
/// through a reported contact start.
#[derive(Clone, Copy, Debug)]
pub struct Character {
    entity: u64,
    horizontal_speed: u32,
    jump_speed: u32,
    airborne: bool,
}

/// What a `Character` is, seen from its contracts.
pub struct CharacterModel {
    /// Identifier of the character's body in the physics engine.
    pub entity: u64,
    pub horizontal_speed: u32,
    pub jump_speed: u32,
    pub airborne: bool,
}

impl CharacterModel {
    /// The horizontal velocity command for one tick: `-speed` or `+speed`
    /// when exactly one direction is held, nothing when both or neither are.
    pub open spec fn horizontal_command(self, input: InputSnapshot) -> Option<i64> {
        if input.only_left() {
            Some((-self.horizontal_speed) as i64)
        } else if input.only_right() {
            Some(self.horizontal_speed as i64)
        } else {
            None
        }
    }

    /// A jump is requested while the character is grounded.
    pub open spec fn jump_succeeds(self, input: InputSnapshot) -> bool {
        input.jump && !self.airborne
    }

    /// The vertical velocity command for one tick.
    pub open spec fn vertical_command(self, input: InputSnapshot) -> Option<i64> {
        if self.jump_succeeds(input) {
            Some(self.jump_speed as i64)
        } else {
            None
        }
    }

    /// Both axes of the command for one tick.
    pub open spec fn command(self, input: InputSnapshot) -> VelocityCommand {
        VelocityCommand {
            horizontal: self.horizontal_command(input),
            vertical: self.vertical_command(input),
        }
    }

    /// The character after the jump controller has run for one tick.
    pub open spec fn after_jump(self, input: InputSnapshot) -> CharacterModel {
        if self.jump_succeeds(input) {
            CharacterModel { airborne: true, ..self }
        } else {
            self
        }
    }

    /// The character after the tick's batch of contact events was consumed.
    pub open spec fn after_contacts(self, events: Seq<ContactEvent>) -> CharacterModel {
        if batch_grounds(events, self.entity) {
            CharacterModel { airborne: false, ..self }
        } else {
            self
        }
    }

    /// One whole tick: jump control before the physics step, then the batch
    /// of contact events that the step produced.
    pub open spec fn after_tick(self, input: InputSnapshot, events: Seq<ContactEvent>) -> CharacterModel {
        self.after_jump(input).after_contacts(events)
    }

    /// A run of ticks, the i-th with `inputs[i]` and `batches[i]`.
    pub open spec fn after_ticks(
        self,
        inputs: Seq<InputSnapshot>,
        batches: Seq<Seq<ContactEvent>>,
    ) -> CharacterModel
        recommends
            inputs.len() == batches.len(),
        decreases inputs.len(),
    {
        if inputs.len() == 0 || batches.len() == 0 {
            self
        } else {
            self.after_tick(inputs[0], batches[0]).after_ticks(inputs.drop_first(), batches.drop_first())
        }
    }
}

impl View for Character {
    type V = CharacterModel;

    closed spec fn view(&self) -> CharacterModel {
        CharacterModel {
            entity: self.entity,
            horizontal_speed: self.horizontal_speed,
            jump_speed: self.jump_speed,
            airborne: self.airborne,
        }
    }
}

impl Character {
    /// A grounded character whose body is `entity` in the physics engine.
    pub fn new(entity: u64, horizontal_speed: u32, jump_speed: u32) -> (r: Character)
        ensures
            r@ == (CharacterModel {
                entity,
                horizontal_speed,
                jump_speed,
                airborne: false,
            }),
    {
        Character { entity, horizontal_speed, jump_speed, airborne: false }
    }

    /// A grounded character with the player's speeds.
    pub fn player(entity: u64) -> (r: Character)
        ensures
            r@ == (CharacterModel {
                entity,
                horizontal_speed: PLAYER_SPEED,
                jump_speed: JUMP_SPEED,
                airborne: false,
            }),
    {
        Character::new(entity, PLAYER_SPEED, JUMP_SPEED)
    }

    pub fn entity(&self) -> (r: u64)
        ensures
            r == self@.entity,
    {
        self.entity
    }

    pub fn horizontal_speed(&self) -> (r: u32)
        ensures
            r == self@.horizontal_speed,
    {
        self.horizontal_speed
    }

    pub fn jump_speed(&self) -> (r: u32)
        ensures
            r == self@.jump_speed,
    {
        self.jump_speed
    }

    pub fn is_airborne(&self) -> (r: bool)
        ensures
            r == self@.airborne,
    {
        self.airborne
    }

    /// Movement mapping: the horizontal velocity to write this tick, or
    /// `None` to leave the carried-over horizontal velocity as it is.
    pub fn horizontal_command(&self, input: InputSnapshot) -> (r: Option<i64>)
        ensures
            r == self@.horizontal_command(input),
    {
        if input.left && !input.right {
            Some(-(self.horizontal_speed as i64))
        } else if input.right && !input.left {
            Some(self.horizontal_speed as i64)
        } else {
            None
        }
    }

    /// Takes off if the character is grounded; returns whether it did.
    pub fn request_jump(&mut self) -> (r: bool)
        ensures
            r == !old(self)@.airborne,
            final(self)@ == (CharacterModel { airborne: true, ..old(self)@ }),
    {
        if self.airborne {
            false
        } else {
            self.airborne = true;
            true
        }
    }

    /// Jump control: while the jump key is held and the character is
    /// grounded, it takes off and the vertical velocity to write is its jump
    /// speed; otherwise nothing changes and `None` is returned.
    pub fn jump(&mut self, input: InputSnapshot) -> (r: Option<i64>)
        ensures
            r == old(self)@.vertical_command(input),
            final(self)@ == old(self)@.after_jump(input),
    {
        if input.jump && self.request_jump() {
            Some(self.jump_speed as i64)
        } else {
            None
        }
    }

    /// Movement mapping and jump control for one tick, before the physics
    /// step.
    pub fn control(&mut self, input: InputSnapshot) -> (r: VelocityCommand)
        ensures
            r == old(self)@.command(input),
            final(self)@ == old(self)@.after_jump(input),
    {
        let horizontal = self.horizontal_command(input);
        let vertical = self.jump(input);
        VelocityCommand { horizontal, vertical }
    }

    /// Marks the character as standing on something again.
    pub fn report_ground_contact(&mut self)
        ensures
            final(self)@ == (CharacterModel { airborne: false, ..old(self)@ }),
    {
        self.airborne = false;
    }

    /// Ground contact monitoring for one character: any contact start in
    /// the batch that names its body grounds it; separations and contacts
    /// between other bodies are ignored.
    pub fn process_contacts(&mut self, events: &Vec<ContactEvent>)
        ensures
            final(self)@ == old(self)@.after_contacts(events@),
    {
        if any_grounds(events, self.entity) {
            self.report_ground_contact();
        }
    }
}

} // verus!
