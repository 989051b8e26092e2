pub mod setup;
pub mod upstream;
pub mod clone;
pub mod steps;
pub mod compare;
pub mod resolve;
pub mod parents;
pub mod init;
pub mod sync;
pub mod session;
