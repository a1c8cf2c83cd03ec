//! Coalescing of rapid resize notifications.
//!
//! Resize events can arrive much faster than frames are drawn (a continuous
//! window drag). Reconfiguring the surface on every notification makes the
//! picture flicker, because drawing within one frame would observe several
//! sizes. The coalescer therefore only records the newest desired size and
//! marks it dirty; the single reconfiguration happens at the start of the
//! next frame, so every draw of that frame observes one surface size.

use vstd::prelude::*;
use crate::size::Size;
use crate::event::SurfaceErrorKind;

verus! {

/// The size state of an application: the size the surface was last
/// configured with, the newest size the window asked for, and whether the
/// two may differ.
#[derive(Clone, Copy, Debug, PartialEq, Eq, Structural)]
pub struct ResizeCoalescer {
    /// The size the surface was last configured with.
    pub configured: Size,
    /// The newest size recorded from the window.
    pub desired: Size,
    /// Whether the surface still has to be reconfigured.
    pub dirty: bool,
}

impl ResizeCoalescer {
    /// A clean coalescer agrees with its surface.
    pub open spec fn wf(self) -> bool {
        !self.dirty ==> self.desired == self.configured
    }

    /// The state after recording a resize notification: a size equal to the
    /// configured one changes nothing, any other becomes the desired size
    /// and marks the state dirty.
    pub open spec fn record_step(self, new_size: Size) -> ResizeCoalescer {
        if new_size == self.configured {
            self
        } else {
            ResizeCoalescer { configured: self.configured, desired: new_size, dirty: true }
        }
    }

    /// The state and the reconfiguration that applying the coalesced resize
    /// yields: the one pending size if the state was dirty, nothing else.
    pub open spec fn apply_step(self) -> (ResizeCoalescer, Option<Size>) {
        if self.dirty {
            (
                ResizeCoalescer { configured: self.desired, desired: self.desired, dirty: false },
                Some(self.desired),
            )
        } else {
            (self, None)
        }
    }

    /// The state after the surface was invalidated from outside (lost or
    /// outdated): dirty again, so the next frame reconfigures even though
    /// the size did not change.
    pub open spec fn force_step(self) -> ResizeCoalescer {
        ResizeCoalescer { configured: self.configured, desired: self.desired, dirty: true }
    }

    /// The state after recording every size of `sizes` in order.
    pub open spec fn record_all(self, sizes: Seq<Size>) -> ResizeCoalescer
        decreases sizes.len(),
    {
        if sizes.len() == 0 {
            self
        } else {
            self.record_step(sizes.first()).record_all(sizes.drop_first())
        }
    }

    /// The size state a render with the given result leaves behind: nothing
    /// happens while the desired size has a zero dimension; otherwise the
    /// pending resize is applied first, and a lost or outdated surface
    /// leaves the state dirty again so that the next frame reconfigures.
    pub open spec fn render_step(self, result: Result<(), SurfaceErrorKind>) -> ResizeCoalescer {
        if self.desired.is_zero() {
            self
        } else {
            let applied = self.apply_step().0;
            match result {
                Err(SurfaceErrorKind::Lost) => applied.force_step(),
                Err(SurfaceErrorKind::Outdated) => applied.force_step(),
                _ => applied,
            }
        }
    }

    /// A coalescer whose surface is configured at `initial`, with nothing
    /// pending.
    pub fn new(initial: Size) -> (coalescer: ResizeCoalescer)
        ensures
            coalescer == (ResizeCoalescer { configured: initial, desired: initial, dirty: false }),
    {
        ResizeCoalescer { configured: initial, desired: initial, dirty: false }
    }

    /// Records that the window asked for `new_size`, without touching the
    /// surface.
    pub fn set_window_resized(&mut self, new_size: Size)
        ensures
            *final(self) == old(self).record_step(new_size),
    {
        if !(new_size == self.configured) {
            self.desired = new_size;
            self.dirty = true;
        }
    }

    /// Applies the coalesced resize if one is pending and returns the size
    /// the surface must now be configured with, or `None` when the surface
    /// is already current.
    pub fn resize_surface_if_needed(&mut self) -> (reconfigure: Option<Size>)
        ensures
            (*final(self), reconfigure) == old(self).apply_step(),
    {
        if self.dirty {
            self.configured = self.desired;
            self.dirty = false;
            Some(self.desired)
        } else {
            None
        }
    }

    /// Marks the surface dirty without a size change, after the backend
    /// reported it lost or outdated.
    pub fn force_reconfigure(&mut self)
        ensures
            *final(self) == old(self).force_step(),
    {
        self.dirty = true;
    }

    /// The size the surface was last configured with.
    pub fn current_size(&self) -> (size: Size)
        ensures
            size == self.configured,
    {
        self.configured
    }
}

} // verus!
