//! What is done to the terminal when the process panics.
//!
//! A panic in the middle of a session may leave the terminal in raw mode, on
//! the alternate screen or with the mouse captured. The plan that is made
//! here lists, in order, what the panic hook does before the panic report
//! that was registered earlier is produced. Each step is attempted whether
//! or not the steps before it succeeded.

use vstd::prelude::*;

verus! {

/// One step of what the panic hook does.
#[derive(Clone, Copy, Debug, PartialEq, Eq, Structural)]
pub enum CleanupAction {
    /// Leave the alternate screen.
    LeaveAlternateScreen,
    /// Enable line wrapping.
    EnableLineWrap,
    /// Reset the colors and attributes of text.
    ResetColor,
    /// Stop capturing the mouse.
    DisableMouseCapture,
    /// Stop the reporting of bracketed paste.
    DisableBracketedPaste,
    /// Show the cursor.
    ShowCursor,
    /// Move the cursor to the start of a line this many lines down.
    MoveToNextLine(u16),
    /// Leave raw input mode.
    DisableRawMode,
    /// Produce the panic report that was registered before.
    InvokePreviousHook,
}

/// The steps that bring the terminal back to its default mode, in order.
pub open spec fn terminal_restore_steps() -> Seq<CleanupAction> {
    seq![
        CleanupAction::LeaveAlternateScreen,
        CleanupAction::EnableLineWrap,
        CleanupAction::ResetColor,
        CleanupAction::DisableMouseCapture,
        CleanupAction::DisableBracketedPaste,
        CleanupAction::ShowCursor,
        CleanupAction::MoveToNextLine(1),
    ]
}

/// What the panic hook does: where standard output is a terminal, the
/// terminal is restored and raw mode is left; the earlier panic report
/// comes last in either case.
pub open spec fn panic_cleanup_plan(stdout_is_terminal: bool) -> Seq<CleanupAction> {
    if stdout_is_terminal {
        terminal_restore_steps() + seq![
            CleanupAction::DisableRawMode,
            CleanupAction::InvokePreviousHook,
        ]
    } else {
        seq![CleanupAction::InvokePreviousHook]
    }
}

/// Lists what the panic hook is to do, in order.
pub fn panic_cleanup_actions(stdout_is_terminal: bool) -> (plan: Vec<CleanupAction>)
    ensures
        plan@ == panic_cleanup_plan(stdout_is_terminal),
{
    let mut plan: Vec<CleanupAction> = Vec::new();
    if stdout_is_terminal {
        plan.push(CleanupAction::LeaveAlternateScreen);
        plan.push(CleanupAction::EnableLineWrap);
        plan.push(CleanupAction::ResetColor);
        plan.push(CleanupAction::DisableMouseCapture);
        plan.push(CleanupAction::DisableBracketedPaste);
        plan.push(CleanupAction::ShowCursor);
        plan.push(CleanupAction::MoveToNextLine(1));
        plan.push(CleanupAction::DisableRawMode);
    }
    plan.push(CleanupAction::InvokePreviousHook);
    plan
}

/// The earlier panic report is produced exactly once, as the last step, so
/// that nothing that is done to the terminal can mask the panic. The
/// terminal is touched only where standard output is a terminal, and raw
/// mode is left after the terminal has been restored.
pub proof fn lemma_panic_report_comes_last(stdout_is_terminal: bool)
    ensures
        panic_cleanup_plan(stdout_is_terminal).len() > 0,
        panic_cleanup_plan(stdout_is_terminal).last() == CleanupAction::InvokePreviousHook,
        forall|i: int|
            0 <= i < panic_cleanup_plan(stdout_is_terminal).len() - 1 ==> panic_cleanup_plan(
                stdout_is_terminal,
            )[i] != CleanupAction::InvokePreviousHook,
        !stdout_is_terminal ==> panic_cleanup_plan(stdout_is_terminal).len() == 1,
        stdout_is_terminal ==> panic_cleanup_plan(stdout_is_terminal).len() == 9
            && panic_cleanup_plan(stdout_is_terminal).take(7) == terminal_restore_steps()
            && panic_cleanup_plan(stdout_is_terminal)[7] == CleanupAction::DisableRawMode,
{
}

} // verus!
