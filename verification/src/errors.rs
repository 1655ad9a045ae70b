//! Failure taxonomy of the capture pipeline. Construction-time failures are
//! reported to the caller and leave the session stopped; a lost device is
//! fatal to the running session; transient per-frame failures are never
//! surfaced, since the next frame event retries naturally.

use vstd::prelude::*;

verus! {

/// Why a lifecycle command failed.
#[derive(Clone, Copy, PartialEq, Eq, Structural, Debug)]
pub enum SessionError {
    /// The capture target (window, or monitor under a point) could not be
    /// resolved.
    TargetResolution,
    /// No GPU device could be created, not even the software-emulated one.
    DeviceCreation,
    /// The capture item, frame pool, or capture session could not be built
    /// or started.
    CaptureCreation,
    /// The presentation surface could not be built.
    SwapChainCreation,
    /// The device was removed or reset while presenting.
    DeviceLost,
    /// A control command named a session identifier with no session.
    SessionNotFound,
}

impl SessionError {
    /// A short description for the host's logs.
    pub fn message(&self) -> (r: &'static str)
        ensures
            self is TargetResolution ==> r@ == "capture target could not be resolved"@,
            self is DeviceCreation ==> r@ == "GPU device creation failed"@,
            self is CaptureCreation ==> r@ == "capture session creation failed"@,
            self is SwapChainCreation ==> r@ == "swap chain creation failed"@,
            self is DeviceLost ==> r@ == "GPU device was lost"@,
            self is SessionNotFound ==> r@ == "no session under this identifier"@,
    {
        match self {
            SessionError::TargetResolution => "capture target could not be resolved",
            SessionError::DeviceCreation => "GPU device creation failed",
            SessionError::CaptureCreation => "capture session creation failed",
            SessionError::SwapChainCreation => "swap chain creation failed",
            SessionError::DeviceLost => "GPU device was lost",
            SessionError::SessionNotFound => "no session under this identifier",
        }
    }
}

/// Why the single-shot snapshot path failed.
#[derive(Clone, Copy, PartialEq, Eq, Structural, Debug)]
pub enum SnapshotError {
    /// No frame arrived within the bounded wait.
    CaptureTimeout,
    /// The staging texture could not be created or read back.
    TextureReadback,
    /// The read-back pixel buffer does not cover the reported extent.
    BufferMismatch,
    /// The image encoder refused the frame, or the frame is too large to
    /// encode safely.
    EncodeFailed,
}

} // verus!
