//! A small entity–component–system core: entities, sparse-set component
//! storage, the entity counter of a world, button input state, the frame
//! buffer and the engine's event-loop decisions.

pub mod component;
pub mod engine;
pub mod entity;
pub mod input;
pub mod world;
