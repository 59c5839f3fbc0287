//! The logic of a capability-typed binding to the Logitech LCD SDK.
//!
//! The SDK is a process-wide singleton reached through foreign calls.  This
//! crate holds everything that is decided around those calls: which call is
//! made with which arguments, when text is refused, what a reply means, and
//! who may hold the session.  Each operation yields the foreign call to
//! perform as a plain value; the caller performs it and hands the reply
//! back.

pub mod call;
pub mod error;
pub mod guard;
pub mod lcd;
pub mod marker;
pub mod sdk;
pub mod wire;

pub use call::{Buttons, Call, CallView};
pub use error::LcdError;
pub use guard::Guard;
pub use lcd::{init_color, init_either, init_mono, Connecting, Lcd, Starting, TEXT_LINES};
pub use marker::{LcdColor, LcdMono, LcdType, LcdTypeBoth, LcdTypeColor, LcdTypeMono};
pub use sdk::{
    COLOR_BYTES_PER_PIXEL, COLOR_HEIGHT, COLOR_WIDTH, MONO_BYTES_PER_PIXEL, MONO_HEIGHT, MONO_WIDTH,
};
pub use wire::str_to_wchar;
