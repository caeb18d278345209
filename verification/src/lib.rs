pub mod model;
pub mod protocol;
pub mod session;
pub mod text;
