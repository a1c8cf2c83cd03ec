//! The guarantees the coordinator gives its host, proved in one place.
//!
//! Each proof function states one behavioural law over the step functions
//! that the executable contracts are written in, so the law holds of every
//! run of the executable coordinator and of every conforming application.

use vstd::prelude::*;
use crate::clock::FrameClock;
use crate::coalescer::ResizeCoalescer;
use crate::event::SurfaceErrorKind;
use crate::handler::{buffer_step, resume_step, Phase, ResumeAction};
use crate::size::Size;

verus! {

/// A duplicate resume is a no-op. Once bring-up has started — and in
/// particular once the application is present — any number of further
/// resume notifications leaves the phase and the frame clock unchanged and
/// never asks for a second bring-up; together with `on_resume` keeping the
/// slot untouched, no second application or window can ever be created.
pub proof fn lemma_resume_idempotent(phase: Phase, last_ms: u64, now1_ms: u64, now2_ms: u64)
    requires
        phase != Phase::Idle,
    ensures
        resume_step(phase, last_ms, now1_ms) == (phase, last_ms, ResumeAction::AlreadyActive),
        resume_step(phase, last_ms, now1_ms) == resume_step(
            resume_step(phase, last_ms, now1_ms).0,
            resume_step(phase, last_ms, now1_ms).1,
            now2_ms,
        ),
{
}

/// A resize buffered during bring-up is in force before the first frame:
/// handing the buffered size to a freshly built application (whose size
/// state is clean) makes it the desired size at once, and the first
/// render's reconfiguration step configures the surface to exactly that
/// size.
pub proof fn lemma_buffered_resize_applied(fresh: ResizeCoalescer, missed: Size)
    requires
        fresh.wf(),
        !fresh.dirty,
    ensures
        fresh.record_step(missed).desired == missed,
        fresh.record_step(missed).apply_step().0.configured == missed,
        fresh.record_step(missed).apply_step().0.desired == missed,
        !fresh.record_step(missed).apply_step().0.dirty,
{
}

/// The resize buffer keeps only the newest usable size: whatever was
/// buffered before, a later usable resize wins, so an application installed
/// afterwards ends up at the later size and never at the earlier one.
pub proof fn lemma_latest_resize_wins(pending: Option<Size>, first: Size, second: Size)
    requires
        !second.is_zero(),
    ensures
        buffer_step(buffer_step(pending, first), second) == Option::Some(second),
{
}

/// Recording resizes never touches the surface: only applying does.
proof fn lemma_record_all_keeps_configured(state: ResizeCoalescer, sizes: Seq<Size>)
    ensures
        state.record_all(sizes).configured == state.configured,
    decreases sizes.len(),
{
    if sizes.len() > 0 {
        lemma_record_all_keeps_configured(state.record_step(sizes.first()), sizes.drop_first());
    }
}

/// Any burst of resize notifications between two frames costs exactly one
/// reconfiguration, to the last size of the burst: applying after the burst
/// reconfigures once to that size, and applying again does nothing.
pub proof fn lemma_resize_coalescing(state: ResizeCoalescer, sizes: Seq<Size>)
    requires
        sizes.len() > 0,
        sizes.last() != state.configured,
    ensures
        state.record_all(sizes).apply_step().1 == Option::Some(sizes.last()),
        state.record_all(sizes).apply_step().0.configured == sizes.last(),
        state.record_all(sizes).apply_step().0.apply_step().1 is None,
    decreases sizes.len(),
{
    lemma_record_all_keeps_configured(state, sizes);
    if sizes.len() == 1 {
        assert(state.record_all(sizes) == state.record_step(sizes.first()).record_all(
            sizes.drop_first(),
        ));
    } else {
        assert(sizes.drop_first().last() == sizes.last());
        lemma_resize_coalescing(state.record_step(sizes.first()), sizes.drop_first());
    }
}

/// While the desired size has a zero dimension — a minimized window — a
/// frame leaves the size state untouched, whatever the render reported;
/// that a conforming render also reports success then is part of the
/// capability contract.
pub proof fn lemma_zero_size_render_suppressed(
    state: ResizeCoalescer,
    result: Result<(), SurfaceErrorKind>,
)
    requires
        state.desired.is_zero(),
    ensures
        state.render_step(result) == state,
{
}

/// A lost or outdated surface recovers by the next frame: the failing frame
/// leaves the size state dirty at an unchanged desired size, so the next
/// frame's first step reconfigures the surface to that size, and a clean
/// render then leaves a clean state at it. Nothing here stops the loop —
/// the frame outcome is never an exit.
pub proof fn lemma_lost_surface_recovery(state: ResizeCoalescer, kind: SurfaceErrorKind)
    requires
        state.wf(),
        !state.desired.is_zero(),
        kind == SurfaceErrorKind::Lost || kind == SurfaceErrorKind::Outdated,
    ensures
        state.render_step(Err(kind)).dirty,
        state.render_step(Err(kind)).desired == state.desired,
        state.render_step(Err(kind)).apply_step().1 == Option::Some(state.desired),
        state.render_step(Err(kind)).render_step(Ok(())) == (ResizeCoalescer {
            configured: state.desired,
            desired: state.desired,
            dirty: false,
        }),
{
}

/// Frame timing is monotone: across any two consecutive frames the
/// recorded frame time never decreases, and each frame's `dt` is
/// non-negative and spans exactly the recorded interval.
pub proof fn lemma_frame_timing_monotonic(last_ms: u64, now1_ms: u64, now2_ms: u64)
    ensures
        FrameClock::tick_step(last_ms, now1_ms).0 >= last_ms,
        FrameClock::tick_step(last_ms, now1_ms).1 == FrameClock::tick_step(last_ms, now1_ms).0
            - last_ms,
        FrameClock::tick_step(
            FrameClock::tick_step(last_ms, now1_ms).0,
            now2_ms,
        ).0 >= FrameClock::tick_step(last_ms, now1_ms).0,
        FrameClock::tick_step(FrameClock::tick_step(last_ms, now1_ms).0, now2_ms).1
            == FrameClock::tick_step(FrameClock::tick_step(last_ms, now1_ms).0, now2_ms).0
            - FrameClock::tick_step(last_ms, now1_ms).0,
{
}

} // verus!
