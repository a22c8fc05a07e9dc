//! The frame loop's decisions: what each window event leads to, which keys
//! end the loop, and how a presentation failure is recovered.
//!
//! The shell translates its windowing and device events into these plain
//! values, asks for the decision, and performs the returned action; the
//! decisions themselves are all here.

use vstd::prelude::*;

verus! {

/// The keys the frame loop reacts to; everything else is pass-through.
#[derive(Clone, Copy, PartialEq, Eq, Structural, Debug)]
pub enum KeyKind {
    /// The escape key.
    Escape,
    /// The enter key.
    Enter,
    /// Any other key.
    Other,
}

/// Whether a key event ends the frame loop: pressing escape or enter does,
/// nothing else does.
pub fn exit_on_key(key: KeyKind, pressed: bool) -> (exit: bool)
    ensures
        exit == (pressed && (key == KeyKind::Escape || key == KeyKind::Enter)),
{
    match (key, pressed) {
        (KeyKind::Escape, true) => true,
        (KeyKind::Enter, true) => true,
        _ => false,
    }
}

/// A presentation failure reported when a frame's target is acquired.
#[derive(Clone, Copy, PartialEq, Eq, Structural, Debug)]
pub enum PresentFailure {
    /// The surface was lost and must be reconfigured.
    Lost,
    /// The surface no longer matches the target and must be reconfigured.
    Outdated,
    /// Acquiring the target timed out.
    Timeout,
    /// The device is out of memory.
    OutOfMemory,
    /// Any other device error.
    Unknown,
}

/// What the frame loop does about a presentation failure.
#[derive(Clone, Copy, PartialEq, Eq, Structural, Debug)]
pub enum RecoveryAction {
    /// Reconfigure the surface to the window's current extent and try
    /// again on the next frame.
    Reconfigure,
    /// Log the failure and skip this frame; the loop continues.
    SkipFrame,
}

/// Recovery rule: the transient failures — a lost or stale surface — are
/// answered by reconfiguring; every other failure is logged and the frame
/// is skipped rather than crashing the loop.
pub fn recovery_action(failure: PresentFailure) -> (action: RecoveryAction)
    ensures
        (action == RecoveryAction::Reconfigure) <==> (failure == PresentFailure::Lost || failure
            == PresentFailure::Outdated),
        action == RecoveryAction::Reconfigure || action == RecoveryAction::SkipFrame,
{
    match failure {
        PresentFailure::Lost => RecoveryAction::Reconfigure,
        PresentFailure::Outdated => RecoveryAction::Reconfigure,
        _ => RecoveryAction::SkipFrame,
    }
}

/// A window event, reduced to what the frame loop reads from it.
#[derive(Clone, Copy, PartialEq, Eq, Structural, Debug)]
pub enum FrameEvent {
    /// The window's close button was pressed.
    CloseRequested,
    /// The window was resized to the given extent.
    Resized(u32, u32),
    /// The window asked to be redrawn.
    RedrawRequested,
    /// A key changed state: which key, and whether it is now pressed.
    Key(KeyKind, bool),
    /// The pointer moved.
    PointerMoved,
    /// Anything else.
    Ignored,
}

/// What the frame loop does with an event.
#[derive(Clone, Copy, PartialEq, Eq, Structural, Debug)]
pub enum FrameAction {
    /// End the loop.
    Exit,
    /// Resize the presentation target to the given extent.
    Resize(u32, u32),
    /// Advance the simulation one tick, then render one frame.
    SimulateAndRender,
    /// Do nothing.
    Nothing,
}

/// The frame loop's dispatch: a close request or an exit key ends the
/// loop, a resize resizes the target, a redraw request runs one tick and
/// then one frame — never the reverse order, so the frame reads the tick's
/// freshly integrated state — and everything else does nothing.
pub fn frame_action(event: FrameEvent) -> (action: FrameAction)
    ensures
        event == FrameEvent::CloseRequested ==> action == FrameAction::Exit,
        forall|w: u32, h: u32|
            event == FrameEvent::Resized(w, h) ==> action == FrameAction::Resize(w, h),
        event == FrameEvent::RedrawRequested ==> action == FrameAction::SimulateAndRender,
        forall|key: KeyKind, pressed: bool|
            event == FrameEvent::Key(key, pressed) ==> action == (if pressed && (key
                == KeyKind::Escape || key == KeyKind::Enter) {
                FrameAction::Exit
            } else {
                FrameAction::Nothing
            }),
        event == FrameEvent::PointerMoved ==> action == FrameAction::Nothing,
        event == FrameEvent::Ignored ==> action == FrameAction::Nothing,
{
    match event {
        FrameEvent::CloseRequested => FrameAction::Exit,
        FrameEvent::Resized(w, h) => FrameAction::Resize(w, h),
        FrameEvent::RedrawRequested => FrameAction::SimulateAndRender,
        FrameEvent::Key(key, pressed) => {
            if exit_on_key(key, pressed) {
                FrameAction::Exit
            } else {
                FrameAction::Nothing
            }
        },
        FrameEvent::PointerMoved => FrameAction::Nothing,
        FrameEvent::Ignored => FrameAction::Nothing,
    }
}

} // verus!
