use will_shortcut::hotkey::{BindError, HotkeyCommand, HotkeyManager, RegistrationOutcome};

fn run(held: &mut Vec<String>, commands: &Vec<HotkeyCommand>) {
    for command in commands {
        match command {
            HotkeyCommand::UnregisterAll => held.clear(),
            HotkeyCommand::Register(binding) => held.push(binding.clone()),
        }
    }
}

#[test]
fn new_manager_has_no_binding() {
    assert_eq!(HotkeyManager::new().active_binding(), None);
}

#[test]
fn rebind_unregisters_before_it_registers() {
    let manager = HotkeyManager::new();
    assert_eq!(
        manager.rebind_commands("Ctrl+Shift+K"),
        vec![HotkeyCommand::UnregisterAll, HotkeyCommand::Register("Ctrl+Shift+K".to_string())]
    );
}

#[test]
fn rebind_twice_leaves_one_binding() {
    let mut manager = HotkeyManager::new();
    let mut held: Vec<String> = vec!["Old+Key".to_string()];
    for _ in 0..2 {
        run(&mut held, &manager.rebind_commands("Ctrl+Shift+K"));
        assert_eq!(manager.rebind("Ctrl+Shift+K", RegistrationOutcome::Registered), Ok(()));
        assert_eq!(held, vec!["Ctrl+Shift+K".to_string()]);
        assert_eq!(manager.active_binding(), Some(&"Ctrl+Shift+K".to_string()));
    }
}

#[test]
fn rebind_replaces_the_binding() {
    let mut manager = HotkeyManager::new();
    assert_eq!(manager.rebind("A", RegistrationOutcome::Registered), Ok(()));
    assert_eq!(manager.rebind("B", RegistrationOutcome::Registered), Ok(()));
    assert_eq!(manager.active_binding(), Some(&"B".to_string()));
}

#[test]
fn invalid_syntax_is_reported() {
    let mut manager = HotkeyManager::new();
    assert_eq!(manager.rebind("A", RegistrationOutcome::Registered), Ok(()));
    assert_eq!(
        manager.rebind("not a key", RegistrationOutcome::InvalidSyntax),
        Err(BindError::InvalidSyntax)
    );
    assert_eq!(manager.active_binding(), None);
}

#[test]
fn conflict_is_reported() {
    let mut manager = HotkeyManager::new();
    assert_eq!(
        manager.rebind("Ctrl+C", RegistrationOutcome::AlreadyBound),
        Err(BindError::AlreadyBound)
    );
    assert_eq!(manager.active_binding(), None);
}
