//! The source element: reads a flow and turns it into a stream.
pub mod audio;
pub mod caps;
pub mod init;
pub mod settings;
pub mod state;
pub mod stream;
pub mod video;
