use desktop_shell::effect::{
    default_effect, effect_named, plan_window_effect, Effect, EffectPlan, Material, Platform, Rgba,
};
use desktop_shell::greeting::greet;
use desktop_shell::startup::{check_startup, StartupError};
use desktop_shell::text::same_text;
use desktop_shell::tray::{
    click_action, dispatch, menu_action, tray_command, tray_menu, MouseButton, TrayAction,
    TrayCommand, TrayOutcome,
};
use desktop_shell::window::{EffectFailure, WindowState};

const TINT: Rgba = Rgba { red: 18, green: 18, blue: 18, alpha: 125 };

fn window(exists: bool, visible: bool, focused: bool, effect: Option<Effect>) -> WindowState {
    WindowState { exists, visible, focused, effect }
}

#[test]
fn greet_world() {
    assert_eq!(greet("World"), "Hello, World! You've been greeted from Rust!");
}

#[test]
fn greet_keeps_name_verbatim() {
    assert_eq!(greet(""), "Hello, ! You've been greeted from Rust!");
    assert_eq!(greet("<b>é</b>"), "Hello, <b>é</b>! You've been greeted from Rust!");
}

#[test]
fn same_text_compares_characters() {
    assert!(same_text("mica", "mica"));
    assert!(!same_text("mica", "Mica"));
    assert!(!same_text("", "a"));
}

#[test]
fn windows_effect_names() {
    assert_eq!(effect_named(Platform::Windows, "blur"), Some(Effect::Blur(TINT)));
    assert_eq!(effect_named(Platform::Windows, "acrylic"), Some(Effect::Acrylic(TINT)));
    assert_eq!(effect_named(Platform::Windows, "mica"), Some(Effect::Mica));
    assert_eq!(effect_named(Platform::Windows, "hud"), None);
    assert_eq!(effect_named(Platform::Windows, "BLUR"), None);
}

#[test]
fn macos_effect_names() {
    assert_eq!(effect_named(Platform::MacOs, "hud"), Some(Effect::Vibrancy(Material::HudWindow)));
    assert_eq!(effect_named(Platform::MacOs, "popover"), Some(Effect::Vibrancy(Material::Popover)));
    assert_eq!(effect_named(Platform::MacOs, "sidebar"), Some(Effect::Vibrancy(Material::Sidebar)));
    assert_eq!(
        effect_named(Platform::MacOs, "under_window"),
        Some(Effect::Vibrancy(Material::UnderWindowBackground))
    );
    assert_eq!(effect_named(Platform::MacOs, "blur"), None);
}

#[test]
fn other_platforms_have_no_effects() {
    for name in ["blur", "acrylic", "mica", "hud", "popover", "sidebar", "under_window", ""] {
        assert_eq!(effect_named(Platform::Other, name), None);
        assert_eq!(plan_window_effect(Platform::Other, name), EffectPlan { clear_first: false, apply: None });
    }
}

#[test]
fn windows_plan_clears_first() {
    assert_eq!(
        plan_window_effect(Platform::Windows, "acrylic"),
        EffectPlan { clear_first: true, apply: Some(Effect::Acrylic(TINT)) }
    );
    assert_eq!(
        plan_window_effect(Platform::Windows, "nope"),
        EffectPlan { clear_first: true, apply: None }
    );
}

#[test]
fn recognized_effect_applies_or_fails_silently() {
    let plan = plan_window_effect(Platform::MacOs, "popover");
    let mut w = window(true, true, false, Some(Effect::Vibrancy(Material::HudWindow)));
    w.record_effect(plan, Ok(()));
    assert_eq!(w, window(true, true, false, Some(Effect::Vibrancy(Material::Popover))));
    let mut v = window(true, true, false, Some(Effect::Vibrancy(Material::HudWindow)));
    v.record_effect(plan, Err(EffectFailure::Unsupported));
    assert_eq!(v, window(true, true, false, Some(Effect::Vibrancy(Material::HudWindow))));

    let plan = plan_window_effect(Platform::Windows, "mica");
    let mut x = window(true, false, false, Some(Effect::Blur(TINT)));
    x.record_effect(plan, Err(EffectFailure::Rejected));
    assert_eq!(x, window(true, false, false, None));
    x.record_effect(plan, Ok(()));
    assert_eq!(x, window(true, false, false, Some(Effect::Mica)));
}

#[test]
fn unrecognized_effect_is_noop() {
    let before = window(true, true, true, Some(Effect::Vibrancy(Material::Sidebar)));
    let mut w = before;
    w.record_effect(plan_window_effect(Platform::MacOs, "glass"), Ok(()));
    assert_eq!(w, before);
    let before = window(true, false, true, None);
    let mut v = before;
    v.record_effect(plan_window_effect(Platform::Windows, "glass"), Err(EffectFailure::Rejected));
    assert_eq!(v, before);
}

#[test]
fn default_effects() {
    assert_eq!(default_effect(Platform::Windows), Some(Effect::Blur(TINT)));
    assert_eq!(default_effect(Platform::MacOs), Some(Effect::Vibrancy(Material::HudWindow)));
    assert_eq!(default_effect(Platform::Other), None);
}

#[test]
fn startup_checks() {
    assert_eq!(check_startup(Platform::Windows, false, true), Err(StartupError::MainWindowMissing));
    assert_eq!(check_startup(Platform::Other, false, false), Err(StartupError::MainWindowMissing));
    assert_eq!(check_startup(Platform::MacOs, true, false), Err(StartupError::DefaultEffectRefused));
    assert_eq!(check_startup(Platform::Windows, true, false), Err(StartupError::DefaultEffectRefused));
    assert_eq!(check_startup(Platform::Other, true, false), Ok(()));
    assert_eq!(check_startup(Platform::MacOs, true, true), Ok(()));
}

#[test]
fn menu_and_click_actions() {
    assert_eq!(menu_action("quit"), TrayAction::Quit);
    assert_eq!(menu_action("show"), TrayAction::ShowMain);
    assert_eq!(menu_action("Show"), TrayAction::Ignore);
    assert_eq!(menu_action(""), TrayAction::Ignore);
    assert_eq!(click_action(MouseButton::Left), TrayAction::ShowMain);
    assert_eq!(click_action(MouseButton::Right), TrayAction::Ignore);
    assert_eq!(click_action(MouseButton::Middle), TrayAction::Ignore);
}

#[test]
fn tray_commands() {
    assert_eq!(tray_command(TrayAction::Quit, false), TrayCommand::Exit(0));
    assert_eq!(tray_command(TrayAction::ShowMain, true), TrayCommand::ShowAndFocus);
    assert_eq!(tray_command(TrayAction::ShowMain, false), TrayCommand::Nothing);
    assert_eq!(tray_command(TrayAction::Ignore, true), TrayCommand::Nothing);
}

#[test]
fn quit_exits_with_zero_in_any_window_state() {
    for w in [window(true, true, true, None), window(true, false, false, None), window(false, false, false, None)] {
        assert_eq!(dispatch(w, menu_action("quit")), TrayOutcome::Exited(0));
    }
}

#[test]
fn show_reveals_hidden_window() {
    let hidden = window(true, false, false, Some(Effect::Mica));
    let shown = window(true, true, true, Some(Effect::Mica));
    assert_eq!(dispatch(hidden, menu_action("show")), TrayOutcome::Running(shown));
    assert_eq!(dispatch(hidden, click_action(MouseButton::Left)), TrayOutcome::Running(shown));
    assert_eq!(dispatch(hidden, click_action(MouseButton::Right)), TrayOutcome::Running(hidden));
}

#[test]
fn show_without_window_does_nothing() {
    let gone = window(false, false, false, None);
    assert_eq!(dispatch(gone, menu_action("show")), TrayOutcome::Running(gone));
    assert_eq!(dispatch(gone, click_action(MouseButton::Left)), TrayOutcome::Running(gone));
}

#[test]
fn tray_menu_entries() {
    let menu = tray_menu();
    assert_eq!(menu.len(), 2);
    assert_eq!(menu[0].id, "show");
    assert_eq!(menu[0].label, "Afficher");
    assert_eq!(menu[1].id, "quit");
    assert_eq!(menu[1].label, "Quitter");
    assert_eq!(menu_action(&menu[0].id), TrayAction::ShowMain);
    assert_eq!(menu_action(&menu[1].id), TrayAction::Quit);
}
