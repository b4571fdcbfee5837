//! The abstract input events the engine reacts to. The windowing layer maps
//! its own button values onto these before handing them in.

use vstd::prelude::*;

verus! {

/// A button-press event: one of the two mouse buttons, one of the two
/// keyboard shortcuts the engine knows, or anything else (ignored).
#[derive(Clone, Copy, Debug, PartialEq, Eq, Structural)]
pub enum InputButton {
    MouseLeft,
    MouseRight,
    KeySpace,
    KeyR,
    Other,
}

} // verus!
