//! Safe, verified core of an editor host's event-loop and option bindings.
//!
//! - [`handle`]: the payload slot that a native handle carries for its owner.
//! - [`timer`]: the timer lifecycle (start, once, stop, firing) over that slot.
//! - [`mode`] and [`option_infos`]: plain data types of the host's API.
mod error;
pub mod handle;
pub mod laws;
pub mod mode;
pub mod option_infos;
pub mod timer;

pub use error::Error;
pub use handle::TypedHandle;
pub use mode::Mode;
pub use option_infos::{OptionDefault, OptionInfos, OptionScope};
pub use timer::{TimerHandle, TimerState, TimerView};
