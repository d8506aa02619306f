pub mod codec;
pub mod retention;
pub mod rows;
