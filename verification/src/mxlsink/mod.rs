//! The sink element: writes a stream into a flow.
pub mod audio;
pub mod caps;
pub mod open;
pub mod settings;
pub mod state;
pub mod video;
