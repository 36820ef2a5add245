//! The decision logic of a small flight simulator: what is sampled when, which
//! waypoint is flown, what a recording file holds, how commands change a running
//! simulation. Numbers are carried by their bit patterns (see [`number`]).
pub mod number;
pub mod text;
pub mod messages;
pub mod telemetry;
pub mod recording;
pub mod round_trip;
pub mod playback;
pub mod faults;
pub mod guidance;
pub mod config;
pub mod control;
pub mod aiding;
pub mod atmosphere;
pub mod scheduler;
pub mod schedule_laws;
pub mod engine;
pub mod fw_guidance;
pub mod fixedwing;
pub mod fw_schedule_laws;
pub mod fwengine;
pub mod terrain_avoid;
pub mod batch;
pub mod terrain;
pub mod replay;
pub mod minimap;
pub mod input;
pub mod viewer;
