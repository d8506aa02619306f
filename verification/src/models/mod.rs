pub mod clock;
pub mod ident;
pub mod instant;
pub mod node;
pub mod poll;
pub mod status;
