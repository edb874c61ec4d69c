pub mod brightness;
pub mod devices;
pub mod error;
pub mod fullscreen;
pub mod media;
pub mod notify;
pub mod poll;
pub mod sessions;
pub mod text;
pub mod volume;
