use vstd::prelude::*;

verus! {

/// Why the renderer could not obtain a frame to draw into.
#[derive(Clone, Copy, Debug, PartialEq, Eq, Structural)]
pub enum FrameError {
    /// The frame did not come in time.
    Timeout,
    /// The surface no longer matches the window and must be reconfigured.
    Outdated,
    /// The surface was lost.
    Lost,
    /// There is no memory left for a frame.
    OutOfMemory,
}

/// What the host does after a frame could not be drawn.
#[derive(Clone, Copy, Debug, PartialEq, Eq, Structural)]
pub enum FrameRecovery {
    /// Reconfigure the surface at its current size and ask for a redraw.
    Reconfigure,
    /// Leave the event loop.
    Exit,
    /// Report the error and let the next frame settle it.
    Skip,
}

/// The recovery for each kind of failed frame.
pub open spec fn recovery_of(e: FrameError) -> FrameRecovery {
    match e {
        FrameError::Lost => FrameRecovery::Reconfigure,
        FrameError::OutOfMemory => FrameRecovery::Exit,
        FrameError::Timeout => FrameRecovery::Skip,
        FrameError::Outdated => FrameRecovery::Skip,
    }
}

/// Decides how to go on after a frame failed: a lost surface is
/// reconfigured, running out of memory ends the program, and an outdated
/// surface or a timeout is left to the next frame.
pub fn recovery_for(e: FrameError) -> (r: FrameRecovery)
    ensures
        r == recovery_of(e),
{
    match e {
        FrameError::Lost => FrameRecovery::Reconfigure,
        FrameError::OutOfMemory => FrameRecovery::Exit,
        FrameError::Timeout => FrameRecovery::Skip,
        FrameError::Outdated => FrameRecovery::Skip,
    }
}

/// A surface is resized only to a size with some area; a minimised window
/// reports a zero side and keeps its previous configuration.
pub fn accepts_surface_size(width: u32, height: u32) -> (r: bool)
    ensures
        r == (width > 0 && height > 0),
{
    width > 0 && height > 0
}

} // verus!
