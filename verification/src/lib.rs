pub mod keys;
pub mod textarea;
pub mod vim;
