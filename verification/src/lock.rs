//! Screen-lock command selection per platform.
//!
//! Only the choice of command is made here; executing it is the
//! application shell's business.

use vstd::prelude::*;

verus! {

/// The operating systems a lock command is known for.
#[derive(Debug, Clone, Copy, PartialEq, Eq, Structural)]
pub enum Platform {
    Linux,
    MacOs,
    Windows,
}

/// The primary screen-lock command for a platform: the program to run
/// and its arguments.
///
/// Linux locks the session through `loginctl`; macOS simulates the
/// Cmd+Ctrl+Q keystroke through `osascript`; Windows calls
/// `LockWorkStation` from `user32.dll`.
pub fn get_lock_screen_command(platform: Platform) -> (cmd: (&'static str, Vec<&'static str>))
    ensures
        platform is Linux ==> cmd.0@ == "loginctl"@ && cmd.1@.len() == 1
            && cmd.1@[0]@ == "lock-session"@,
        platform is MacOs ==> cmd.0@ == "osascript"@ && cmd.1@.len() == 2 && cmd.1@[0]@ == "-e"@
            && cmd.1@[1]@
                == "tell application \"System Events\" to keystroke \"q\" using {control down, command down}"@,
        platform is Windows ==> cmd.0@ == "rundll32.exe"@ && cmd.1@.len() == 1
            && cmd.1@[0]@ == "user32.dll,LockWorkStation"@,
{
    match platform {
        Platform::Linux => ("loginctl", vec!["lock-session"]),
        Platform::MacOs => (
            "osascript",
            vec![
                "-e",
                "tell application \"System Events\" to keystroke \"q\" using {control down, command down}",
            ],
        ),
        Platform::Windows => ("rundll32.exe", vec!["user32.dll,LockWorkStation"]),
    }
}

/// The ordered list of lock commands tried on Linux, one per desktop
/// environment, starting with the `loginctl` session lock.
pub fn linux_lock_candidates() -> (cmds: Vec<(&'static str, Vec<&'static str>)>)
    ensures
        cmds@.len() == 7,
        cmds@[0].0@ == "loginctl"@ && cmds@[0].1@.len() == 1 && cmds@[0].1@[0]@ == "lock-session"@,
        cmds@[1].0@ == "gnome-screensaver-command"@ && cmds@[1].1@.len() == 1
            && cmds@[1].1@[0]@ == "--lock"@,
        cmds@[2].0@ == "xdg-screensaver"@ && cmds@[2].1@.len() == 1 && cmds@[2].1@[0]@ == "lock"@,
        cmds@[3].0@ == "qdbus"@ && cmds@[3].1@.len() == 3
            && cmds@[3].1@[0]@ == "org.freedesktop.ScreenSaver"@
            && cmds@[3].1@[1]@ == "/ScreenSaver"@ && cmds@[3].1@[2]@ == "Lock"@,
        cmds@[4].0@ == "cinnamon-screensaver-command"@ && cmds@[4].1@.len() == 1
            && cmds@[4].1@[0]@ == "--lock"@,
        cmds@[5].0@ == "mate-screensaver-command"@ && cmds@[5].1@.len() == 1
            && cmds@[5].1@[0]@ == "--lock"@,
        cmds@[6].0@ == "xflock4"@ && cmds@[6].1@.len() == 0,
{
    let empty: Vec<&'static str> = Vec::new();
    vec![
        ("loginctl", vec!["lock-session"]),
        ("gnome-screensaver-command", vec!["--lock"]),
        ("xdg-screensaver", vec!["lock"]),
        ("qdbus", vec!["org.freedesktop.ScreenSaver", "/ScreenSaver", "Lock"]),
        ("cinnamon-screensaver-command", vec!["--lock"]),
        ("mate-screensaver-command", vec!["--lock"]),
        ("xflock4", empty),
    ]
}

/// The text put in front of the underlying error when locking fails.
pub fn lock_failure_prefix(platform: Platform) -> (prefix: &'static str)
    ensures
        platform is Linux ==> prefix@ == "Failed to lock screen on Linux: "@,
        platform is MacOs ==> prefix@ == "Failed to lock screen on macOS: "@,
        platform is Windows ==> prefix@ == "Failed to lock screen on Windows: "@,
{
    match platform {
        Platform::Linux => "Failed to lock screen on Linux: ",
        Platform::MacOs => "Failed to lock screen on macOS: ",
        Platform::Windows => "Failed to lock screen on Windows: ",
    }
}

} // verus!
