pub mod addr;
pub mod dissect;
pub mod filter;
pub mod frame;
pub mod text;
