pub mod checks;
pub mod make;
pub mod update;
pub mod take;
pub mod refund;
