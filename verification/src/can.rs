//! The CAN controller.
pub mod buffer;
pub mod driver;
pub mod frame;
pub mod id;
pub mod laws;
pub mod registers;
pub mod traffic;
