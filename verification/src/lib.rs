//! Desktop-duplication screen capture, modelled over plain values.
//!
//! The library holds the decision logic of a desktop-duplication capture
//! backend: translating native status codes into a portable error taxonomy,
//! walking adapters and outputs to enumerate capturable displays, and the
//! session state machine that acquires one raw frame per poll through either
//! a fastlane (desktop image already in system memory) or a staging-copy
//! path.  The native calls themselves are performed by an unverified driver,
//! which reports each call's outcome as plain values; every decision taken on
//! those outcomes is verified here.

use vstd::prelude::*;

pub mod hresult;
pub mod dxgi;
pub mod common;

verus! {

/// Portable orientation of an output, derived from the native rotation code.
#[derive(Clone, Copy, Debug, PartialEq, Eq, Structural)]
pub enum Orientation {
    Unknown,
    Default,
    Rotate90,
    Rotate180,
    Rotate270,
}

} // verus!

pub use common::{Capturer, Display, Frame};
