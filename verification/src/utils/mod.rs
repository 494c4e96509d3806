pub mod retry;
pub mod clock;
