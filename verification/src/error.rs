//! Error types of the library.

use vstd::prelude::*;

verus! {

/// Errors met while parsing Aura settings from text.
#[derive(Debug, Clone, Copy, PartialEq, Eq, Structural)]
pub enum Error {
    ParseColour,
    ParseSpeed,
    ParseDirection,
    ParseBrightness,
}

/// The category of an I/O failure, as far as the lighting logic tells them apart.
#[derive(Debug, Clone, Copy, PartialEq, Eq, Structural)]
pub enum IoErrorKind {
    /// The kernel answered `EBUSY` (a node inactive under the current topology).
    ResourceBusy,
    NotFound,
    PermissionDenied,
    Other,
}

/// What the logic reads from an operating-system I/O error.
#[derive(Debug, Clone, Copy, PartialEq, Eq, Structural)]
pub struct IoFailure {
    pub kind: IoErrorKind,
    pub raw_os_error: Option<i32>,
}

/// Errors of the platform (sysfs, hidraw, udev) layer.
#[derive(Debug)]
pub enum PlatformError {
    Udev(String, IoFailure),
    MissingFunction(String),
    AttrNotFound(String),
    InvalidValue,
    ParseNum,
    IoPath(String, IoFailure),
    Read(String, IoFailure),
    Io(IoFailure),
    NotSupported,
}

/// Errors of the Aura daemon logic.
#[derive(Debug)]
pub enum RogError {
    Platform(PlatformError),
    Write(String, IoFailure),
    Path(String, IoFailure),
    Io(IoFailure),
    MissingFunction(String),
    NoAuraKeyboard,
    NotSupported(String),
}

} // verus!
