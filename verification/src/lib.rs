//! Deterministic fault injection for byte streams.
//!
//! A wrapper holds a stream and a script of planned outcomes. Each logical
//! call consumes one entry of the script and is cut short, failed or passed
//! through accordingly.

pub mod async_read;
pub mod async_write;
pub mod op;
pub mod read;
pub mod script;
pub mod sink;
pub mod source;
pub mod write;

pub use crate::async_read::PartialAsyncRead;
pub use crate::async_write::PartialAsyncWrite;
pub use crate::op::{PartialOp, SizedStep, UnitStep};
pub use crate::read::PartialRead;
pub use crate::script::OpQueue;
pub use crate::write::PartialWrite;
