pub mod driver;
pub mod macos;
pub mod wayland;
