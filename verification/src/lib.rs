pub mod lang;
pub mod registry;
pub mod discovery;
pub mod dispatch;
pub mod laws;
