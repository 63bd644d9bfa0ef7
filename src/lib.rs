//! Userspace driver logic for a SoC JPEG encoder and its M4U memory mapper.
pub mod encode;
pub mod errno;
pub mod jpeg;
pub mod m4u;
pub mod mt6768;
