//! Portia: the logic of a small game engine and of a fighting game built on it.

pub mod input;
pub mod gui;
pub mod time;
pub mod events;
pub mod sim;
pub mod job_scheduler;
pub mod file_system;
pub mod asset_loader;
pub mod fighting_game;
pub mod idea_for_game;
pub mod ecs;
pub mod actors;
pub mod gfx;
pub mod math;
