//! Control core of an interactive real-time application: a master loop that
//! owns a single active screen, routes input events, and overlays a live
//! developer console with log capture and command execution.

pub mod console;
pub mod screen;
pub mod input;
pub mod logcap;
pub mod master;
pub mod material;
pub mod status;
pub mod state;
pub mod text;
pub mod world;
