//! Decisions of the window shell: what toggling visibility does, which
//! menu entry stops the application, and the error texts of failed
//! window operations. Performing the operations is the shell's business.

use vstd::prelude::*;

verus! {

/// One window operation performed while toggling visibility.
#[derive(Debug, Clone, Copy, PartialEq, Eq, Structural)]
pub enum WindowAction {
    Hide,
    Show,
    SetSkipTaskbar(bool),
    SetFocus,
}

/// The ordered operations that toggle the main window: a visible window
/// is hidden and removed from the taskbar; a hidden one is put back on
/// the taskbar, shown, and focused.
pub fn toggle_visibility_plan(is_visible: bool) -> (plan: Vec<WindowAction>)
    ensures
        is_visible ==> plan@ == seq![WindowAction::Hide, WindowAction::SetSkipTaskbar(true)],
        !is_visible ==> plan@ == seq![
            WindowAction::SetSkipTaskbar(false),
            WindowAction::Show,
            WindowAction::SetFocus,
        ],
{
    if is_visible {
        vec![WindowAction::Hide, WindowAction::SetSkipTaskbar(true)]
    } else {
        vec![WindowAction::SetSkipTaskbar(false), WindowAction::Show, WindowAction::SetFocus]
    }
}

/// Whether a tray-menu entry stops the application: only the `stop`
/// entry does.
pub fn menu_triggers_exit(menu_id: &str) -> (r: bool)
    ensures
        r == (menu_id@ == "stop"@),
{
    let id: String = menu_id.to_owned();
    let stop: String = "stop".to_owned();
    id.eq(&stop)
}

/// The text put in front of the underlying error when a window
/// operation fails.
pub fn window_action_error_prefix(action: &WindowAction) -> (prefix: &'static str)
    ensures
        action is Hide ==> prefix@ == "Failed to hide window: "@,
        action is Show ==> prefix@ == "Failed to show window: "@,
        action is SetSkipTaskbar ==> prefix@ == "Failed to set skip taskbar: "@,
        action is SetFocus ==> prefix@ == "Failed to set focus: "@,
{
    match action {
        WindowAction::Hide => "Failed to hide window: ",
        WindowAction::Show => "Failed to show window: ",
        WindowAction::SetSkipTaskbar(_) => "Failed to set skip taskbar: ",
        WindowAction::SetFocus => "Failed to set focus: ",
    }
}

} // verus!
