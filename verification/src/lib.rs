pub mod fixed_queue;
pub mod reading;
pub mod roc;
pub mod state;

pub use crate::fixed_queue::FixedQueue;
pub use crate::reading::{ROCType, Ratio, Reading};
pub use crate::roc::ROC;
pub use crate::state::State;
