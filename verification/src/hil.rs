//! The vocabulary that screen drivers share with their callers.

use vstd::prelude::*;

verus! {

/// Why a request was not carried out.
#[derive(Debug, Clone, Copy, PartialEq, Eq, Structural)]
pub enum ErrorCode {
    /// Generic failure condition
    FAIL,
    /// Underlying system is busy; retry
    BUSY,
    /// The state requested is already set
    ALREADY,
    /// The component is powered down
    OFF,
    /// Reservation required before use
    RESERVE,
    /// An invalid parameter was passed
    INVAL,
    /// Parameter passed was too large
    SIZE,
    /// Operation cancelled by a call
    CANCEL,
    /// Memory required not available
    NOMEM,
    /// Operation is unsupported
    NOSUPPORT,
    /// Device is not available
    NODEVICE,
    /// Device is not physically installed
    UNINSTALLED,
    /// Packet transmission not acknowledged
    NOACK,
}

/// How pixels are encoded.
#[allow(non_camel_case_types)]
#[derive(Debug, Clone, Copy, PartialEq, Eq, Structural)]
pub enum ScreenPixelFormat {
    /// One bit per pixel
    Mono,
    RGB_233,
    RGB_565,
    RGB_888,
    ARGB_8888,
}

/// Which way up the screen is.
#[derive(Debug, Clone, Copy, PartialEq, Eq, Structural)]
pub enum ScreenRotation {
    Normal,
    Rotated90,
    Rotated180,
    Rotated270,
}

} // verus!
