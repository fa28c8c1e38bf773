//! Character controller for a side-scrolling platformer: input becomes
//! velocity commands, contact-start events reported by the physics engine
//! decide when the character is grounded again, and cameras track the
//! character horizontally.
mod camera;
mod character;
mod contact;
mod input;
mod laws;
mod velocity;

pub use camera::{camera_follow_player, follow_x};
pub use character::{Character, CharacterModel, JUMP_SPEED, PLAYER_SPEED};
pub use contact::{jump_reset, ContactEvent};
pub use input::InputSnapshot;
pub use velocity::{Velocity, VelocityCommand};
