//! The core of a tick-driven 2D game: sprite-sheet animation playback,
//! entities with screen placements and hitboxes, composite-rectangle
//! collision for static map geometry, a scrolling world of layered agents
//! with a depth sort against the player, autonomous wandering agents, and
//! player movement with a cooldown-gated dash. Everything here is pure
//! state and geometry: the surrounding program polls input, keeps the
//! clock and executes the blit lists this library computes.
pub mod agent;
pub mod animation;
pub mod character;
pub mod direction;
pub mod entity;
pub mod hitbox;
pub mod interact;
pub mod rect;
pub mod rng;
pub mod world;
