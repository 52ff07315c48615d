use hotkeys::check_hotkey_availability;
use hotkeys::FakeShortcutOs;
use hotkeys::HotkeyConfig;
use hotkeys::HotkeyManager;

fn config(enabled: bool, start: &str, stop: &str) -> HotkeyConfig {
    HotkeyConfig {
        enabled,
        start_recording_hotkey: start.to_string(),
        stop_recording_hotkey: stop.to_string(),
    }
}

fn pairs(manager: &HotkeyManager) -> Vec<(String, String)> {
    manager.get_registered_hotkeys()
}

#[test]
fn valid_shortcut_checks_ok() {
    let os = FakeShortcutOs::new();
    let r = check_hotkey_availability(&os, "CommandOrControl+Shift+R".to_string());
    assert_eq!(r, Ok(true));
}

#[test]
fn empty_shortcut_check_is_rejected() {
    let os = FakeShortcutOs::new();
    let r = check_hotkey_availability(&os, "".to_string());
    assert_eq!(r, Err("shortcut must not be empty".to_string()));
}

#[test]
fn malformed_shortcut_check_reports_parser_message() {
    let mut os = FakeShortcutOs::new();
    os.refuse_parse("NotAKey".to_string());
    let r = check_hotkey_availability(&os, "NotAKey".to_string());
    assert_eq!(r, Err("invalid shortcut format".to_string()));
}

#[test]
fn disabled_config_changes_nothing() {
    let mut os = FakeShortcutOs::new();
    let mut manager = HotkeyManager::new();
    let r = manager.register_hotkeys(&mut os, &config(true, "Ctrl+A", "Ctrl+B"));
    assert!(r.is_ok());

    let r = manager.register_hotkeys(&mut os, &config(false, "Ctrl+X", "Ctrl+Y"));
    assert!(r.is_ok());
    assert_eq!(
        pairs(&manager),
        vec![
            ("start_recording".to_string(), "Ctrl+A".to_string()),
            ("stop_recording".to_string(), "Ctrl+B".to_string()),
        ]
    );
    assert!(os.is_live(&"Ctrl+A".to_string()));
    assert!(os.is_live(&"Ctrl+B".to_string()));
    assert!(!os.is_live(&"Ctrl+X".to_string()));
    assert!(!os.is_live(&"Ctrl+Y".to_string()));
}

#[test]
fn disabled_config_on_fresh_manager_binds_nothing() {
    let mut os = FakeShortcutOs::new();
    let mut manager = HotkeyManager::default();
    let r = manager.register_hotkeys(&mut os, &config(false, "Ctrl+A", "Ctrl+B"));
    assert!(r.is_ok());
    assert!(pairs(&manager).is_empty());
    assert!(!os.is_live(&"Ctrl+A".to_string()));
}

#[test]
fn successful_registration_binds_exactly_the_two_actions() {
    let mut os = FakeShortcutOs::new();
    let mut manager = HotkeyManager::new();
    let r = manager.register_hotkeys(
        &mut os,
        &config(true, "CommandOrControl+Shift+R", "CommandOrControl+Shift+S"),
    );
    assert!(r.is_ok());
    assert_eq!(
        pairs(&manager),
        vec![
            (
                "start_recording".to_string(),
                "CommandOrControl+Shift+R".to_string()
            ),
            (
                "stop_recording".to_string(),
                "CommandOrControl+Shift+S".to_string()
            ),
        ]
    );
    assert!(os.is_live(&"CommandOrControl+Shift+R".to_string()));
    assert!(os.is_live(&"CommandOrControl+Shift+S".to_string()));
}

#[test]
fn replacement_leaves_only_the_second_set_live() {
    let mut os = FakeShortcutOs::new();
    let mut manager = HotkeyManager::new();
    assert!(manager
        .register_hotkeys(&mut os, &config(true, "Ctrl+1", "Ctrl+2"))
        .is_ok());
    assert!(manager
        .register_hotkeys(&mut os, &config(true, "Alt+1", "Alt+2"))
        .is_ok());

    assert!(!os.is_live(&"Ctrl+1".to_string()));
    assert!(!os.is_live(&"Ctrl+2".to_string()));
    assert!(os.is_live(&"Alt+1".to_string()));
    assert!(os.is_live(&"Alt+2".to_string()));
    assert_eq!(
        pairs(&manager),
        vec![
            ("start_recording".to_string(), "Alt+1".to_string()),
            ("stop_recording".to_string(), "Alt+2".to_string()),
        ]
    );
}

#[test]
fn conflict_on_second_action_fails_and_rolls_back() {
    let mut os = FakeShortcutOs::new();
    os.refuse_register_conflict("Ctrl+2".to_string());
    let mut manager = HotkeyManager::new();
    let r = manager.register_hotkeys(&mut os, &config(true, "Ctrl+1", "Ctrl+2"));
    let e = r.expect_err("the second registration must fail");
    assert!(!e.needs_permission);
    assert!(e.error.contains("stop_recording"));
    assert!(e.error.contains("Ctrl+2"));

    assert!(pairs(&manager).is_empty());
    assert!(!os.is_live(&"Ctrl+1".to_string()));
    assert!(!os.is_live(&"Ctrl+2".to_string()));
}

#[test]
fn conflict_on_first_action_fails_and_binds_nothing() {
    let mut os = FakeShortcutOs::new();
    os.refuse_register_conflict("Ctrl+1".to_string());
    let mut manager = HotkeyManager::new();
    let r = manager.register_hotkeys(&mut os, &config(true, "Ctrl+1", "Ctrl+2"));
    let e = r.expect_err("the first registration must fail");
    assert!(!e.needs_permission);
    assert_eq!(
        e.error,
        "failed to register start_recording hotkey 'Ctrl+1': \
         the key combination is already in use"
    );
    assert!(pairs(&manager).is_empty());
    assert!(!os.is_live(&"Ctrl+1".to_string()));
    assert!(!os.is_live(&"Ctrl+2".to_string()));
}

#[test]
fn permission_refusal_sets_needs_permission() {
    let mut os = FakeShortcutOs::new();
    os.refuse_register_permission("Ctrl+1".to_string());
    let mut manager = HotkeyManager::new();
    let r = manager.register_hotkeys(&mut os, &config(true, "Ctrl+1", "Ctrl+2"));
    let e = r.expect_err("the registration must fail");
    assert!(e.needs_permission);
    assert!(e.error.contains("start_recording"));
    assert!(pairs(&manager).is_empty());
}

#[test]
fn unparseable_shortcut_fails_without_permission_hint() {
    let mut os = FakeShortcutOs::new();
    os.refuse_parse("garbage".to_string());
    let mut manager = HotkeyManager::new();
    let r = manager.register_hotkeys(&mut os, &config(true, "garbage", "Ctrl+2"));
    let e = r.expect_err("the parse must fail");
    assert!(!e.needs_permission);
    assert_eq!(
        e.error,
        "failed to register start_recording hotkey 'garbage': invalid shortcut format"
    );
    assert!(pairs(&manager).is_empty());
    assert!(!os.is_live(&"Ctrl+2".to_string()));
}

#[test]
fn failed_replacement_still_tears_down_the_old_set() {
    let mut os = FakeShortcutOs::new();
    os.refuse_register_conflict("Alt+2".to_string());
    let mut manager = HotkeyManager::new();
    assert!(manager
        .register_hotkeys(&mut os, &config(true, "Ctrl+1", "Ctrl+2"))
        .is_ok());
    let r = manager.register_hotkeys(&mut os, &config(true, "Alt+1", "Alt+2"));
    assert!(r.is_err());
    assert!(pairs(&manager).is_empty());
    assert!(!os.is_live(&"Ctrl+1".to_string()));
    assert!(!os.is_live(&"Ctrl+2".to_string()));
    assert!(!os.is_live(&"Alt+1".to_string()));
    assert!(!os.is_live(&"Alt+2".to_string()));
}

#[test]
fn unregister_all_succeeds_even_when_every_unregister_fails() {
    let mut os = FakeShortcutOs::new();
    let mut manager = HotkeyManager::new();
    assert!(manager
        .register_hotkeys(&mut os, &config(true, "Ctrl+1", "Ctrl+2"))
        .is_ok());
    os.set_fail_unregister(true);

    let r = manager.unregister_hotkeys(&mut os);
    assert_eq!(r, Ok(()));
    assert!(pairs(&manager).is_empty());
    // The collaborator refused to release them, so they are still live at
    // the system level; the manager's record is cleared regardless.
    assert!(os.is_live(&"Ctrl+1".to_string()));
    assert!(os.is_live(&"Ctrl+2".to_string()));
}

#[test]
fn unregister_all_releases_everything() {
    let mut os = FakeShortcutOs::new();
    let mut manager = HotkeyManager::new();
    assert!(manager
        .register_hotkeys(&mut os, &config(true, "Ctrl+1", "Ctrl+2"))
        .is_ok());
    let r = manager.unregister_hotkeys(&mut os);
    assert_eq!(r, Ok(()));
    assert!(pairs(&manager).is_empty());
    assert!(!os.is_live(&"Ctrl+1".to_string()));
    assert!(!os.is_live(&"Ctrl+2".to_string()));
}

#[test]
fn unregister_all_on_empty_manager_succeeds() {
    let mut os = FakeShortcutOs::new();
    let mut manager = HotkeyManager::new();
    assert_eq!(manager.unregister_hotkeys(&mut os), Ok(()));
    assert!(pairs(&manager).is_empty());
}

#[test]
fn fresh_manager_has_no_bindings() {
    let manager = HotkeyManager::new();
    assert!(pairs(&manager).is_empty());
    let manager = HotkeyManager::default();
    assert!(pairs(&manager).is_empty());
}

#[test]
fn both_actions_may_share_one_shortcut() {
    let mut os = FakeShortcutOs::new();
    let mut manager = HotkeyManager::new();
    let r = manager.register_hotkeys(&mut os, &config(true, "Ctrl+R", "Ctrl+R"));
    assert!(r.is_ok());
    assert_eq!(
        pairs(&manager),
        vec![
            ("start_recording".to_string(), "Ctrl+R".to_string()),
            ("stop_recording".to_string(), "Ctrl+R".to_string()),
        ]
    );
    assert!(os.is_live(&"Ctrl+R".to_string()));
}
