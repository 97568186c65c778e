pub mod model;
pub mod todo;
