pub mod dispatcher;
pub mod json;
pub mod protocol;
