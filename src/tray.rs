use vstd::prelude::*;
use crate::text::same_text;
use crate::window::WindowState;
use vstd::string::StringExecFns;

verus! {

/// The identifier of the tray menu entry that shows the main window.
pub const SHOW_ID: &'static str = "show";

/// The identifier of the tray menu entry that ends the application.
pub const QUIT_ID: &'static str = "quit";

/// The exit code of a quit chosen from the tray.
pub const QUIT_EXIT_CODE: i32 = 0;

/// A mouse button, as the tray icon reports a click.
#[derive(Clone, Copy, PartialEq, Eq, Structural, Debug)]
pub enum MouseButton {
    Left,
    Right,
    Middle,
}

/// What a tray event asks for.
#[derive(Clone, Copy, PartialEq, Eq, Structural, Debug)]
pub enum TrayAction {
    /// End the process at once.
    Quit,
    /// Bring the main window to the foreground.
    ShowMain,
    /// Nothing.
    Ignore,
}

/// What the shell does about a tray action, once it has looked for the main
/// window.
#[derive(Clone, Copy, PartialEq, Eq, Structural, Debug)]
pub enum TrayCommand {
    /// Exit the process with this code, without any cleanup.
    Exit(i32),
    /// Make the main window visible, then give it the input focus.
    ShowAndFocus,
    /// Do nothing.
    Nothing,
}

/// The shell after a tray action: still running with this main window, or
/// gone with this exit code.
#[derive(Clone, Copy, PartialEq, Eq, Structural, Debug)]
pub enum TrayOutcome {
    Running(WindowState),
    Exited(i32),
}

/// One entry of the tray menu.
pub struct MenuEntry {
    pub id: String,
    pub label: String,
}

/// The action of the tray menu entry with identifier `id`.
pub open spec fn menu_action_spec(id: Seq<char>) -> TrayAction {
    if id == "quit"@ {
        TrayAction::Quit
    } else if id == "show"@ {
        TrayAction::ShowMain
    } else {
        TrayAction::Ignore
    }
}

/// The action of a click on the tray icon: the left button shows the window.
pub open spec fn click_action_spec(button: MouseButton) -> TrayAction {
    if button == MouseButton::Left {
        TrayAction::ShowMain
    } else {
        TrayAction::Ignore
    }
}

/// The command for `action` when the main window is found or not.
pub open spec fn tray_command_spec(action: TrayAction, main_window_found: bool) -> TrayCommand {
    match action {
        TrayAction::Quit => TrayCommand::Exit(QUIT_EXIT_CODE as i32),
        TrayAction::ShowMain => if main_window_found {
            TrayCommand::ShowAndFocus
        } else {
            TrayCommand::Nothing
        },
        TrayAction::Ignore => TrayCommand::Nothing,
    }
}

/// The shell after `command` was carried out on window `w`.
pub open spec fn outcome_of(w: WindowState, command: TrayCommand) -> TrayOutcome {
    match command {
        TrayCommand::Exit(code) => TrayOutcome::Exited(code),
        TrayCommand::ShowAndFocus => TrayOutcome::Running(
            WindowState { visible: true, focused: true, ..w },
        ),
        TrayCommand::Nothing => TrayOutcome::Running(w),
    }
}

/// The shell after a tray action on window `w`.
pub open spec fn dispatch_spec(w: WindowState, action: TrayAction) -> TrayOutcome {
    outcome_of(w, tray_command_spec(action, w.exists))
}

/// Choosing quit from the tray menu ends the process with exit code 0,
/// whatever state the main window is in.
pub proof fn lemma_quit_exits_with_success(w: WindowState)
    ensures
        dispatch_spec(w, menu_action_spec("quit"@)) == TrayOutcome::Exited(0),
{
}

/// Choosing show from the tray menu, or a left click on the tray icon, makes
/// an existing main window visible and focused, and leaves it otherwise as
/// it was.
pub proof fn lemma_show_reveals_main_window(w: WindowState, by_click: bool)
    requires
        w.exists,
    ensures
        ({
            let action = if by_click {
                click_action_spec(MouseButton::Left)
            } else {
                menu_action_spec("show"@)
            };
            dispatch_spec(w, action) == TrayOutcome::Running(
                WindowState { visible: true, focused: true, ..w },
            )
        }),
{
    reveal_strlit("quit");
    reveal_strlit("show");
    assert("show"@[0] != "quit"@[0]);
}

/// Choosing show, from the menu or by a left click, when the main window is
/// gone does nothing: the shell keeps running and its state is unchanged.
pub proof fn lemma_show_without_window_is_noop(w: WindowState, by_click: bool)
    requires
        !w.exists,
    ensures
        ({
            let action = if by_click {
                click_action_spec(MouseButton::Left)
            } else {
                menu_action_spec("show"@)
            };
            dispatch_spec(w, action) == TrayOutcome::Running(w)
        }),
{
    reveal_strlit("quit");
    reveal_strlit("show");
    assert("show"@[0] != "quit"@[0]);
}

/// The action of the tray menu entry with identifier `id`; an unknown
/// identifier does nothing.
pub fn menu_action(id: &str) -> (r: TrayAction)
    ensures
        r == menu_action_spec(id@),
{
    if same_text(id, QUIT_ID) {
        TrayAction::Quit
    } else if same_text(id, SHOW_ID) {
        TrayAction::ShowMain
    } else {
        TrayAction::Ignore
    }
}

/// The action of a click on the tray icon with `button`.
pub fn click_action(button: MouseButton) -> (r: TrayAction)
    ensures
        r == click_action_spec(button),
{
    match button {
        MouseButton::Left => TrayAction::ShowMain,
        _ => TrayAction::Ignore,
    }
}

/// Decides what to do about `action`, given whether the main window could
/// be found. A window that is gone makes showing it a silent no-op.
pub fn tray_command(action: TrayAction, main_window_found: bool) -> (r: TrayCommand)
    ensures
        r == tray_command_spec(action, main_window_found),
{
    match action {
        TrayAction::Quit => TrayCommand::Exit(QUIT_EXIT_CODE),
        TrayAction::ShowMain => {
            if main_window_found {
                TrayCommand::ShowAndFocus
            } else {
                TrayCommand::Nothing
            }
        },
        TrayAction::Ignore => TrayCommand::Nothing,
    }
}

/// Carries `action` out on the model of the main window.
pub fn dispatch(w: WindowState, action: TrayAction) -> (r: TrayOutcome)
    ensures
        r == dispatch_spec(w, action),
{
    match tray_command(action, w.exists) {
        TrayCommand::Exit(code) => TrayOutcome::Exited(code),
        TrayCommand::ShowAndFocus => TrayOutcome::Running(
            WindowState { visible: true, focused: true, ..w },
        ),
        TrayCommand::Nothing => TrayOutcome::Running(w),
    }
}

/// The tray menu, in display order: show the window, then quit.
pub fn tray_menu() -> (r: Vec<MenuEntry>)
    ensures
        r@.len() == 2,
        r@[0].id@ == "show"@,
        r@[0].label@ == "Afficher"@,
        r@[1].id@ == "quit"@,
        r@[1].label@ == "Quitter"@,
{
    let mut entries: Vec<MenuEntry> = Vec::new();
    entries.push(MenuEntry { id: String::from_str(SHOW_ID), label: String::from_str("Afficher") });
    entries.push(MenuEntry { id: String::from_str(QUIT_ID), label: String::from_str("Quitter") });
    entries
}

} // verus!
