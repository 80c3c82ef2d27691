pub mod clock;
pub mod errors;
pub mod text;
