use esm::config::{apply_config_command, apply_setting, default_config, setting_line, Config};

#[test]
fn default_config_uses_builtin_registry() {
    let c = default_config();
    assert_eq!(c.empty_epsilon_path, None);
    assert_eq!(c.registry, Some("https://registry.esm.latehours.net/v1".to_string()));
}

#[test]
fn set_registry_then_show_it() {
    let c = default_config();
    let out = apply_config_command(&c, &None, &Some(Some("https://example.test/v1".to_string())));
    assert!(out.changed);
    assert!(out.messages.is_empty());
    assert_eq!(out.config.registry, Some("https://example.test/v1".to_string()));
    assert_eq!(out.config.empty_epsilon_path, None);
    let shown = apply_config_command(&out.config, &None, &Some(None));
    assert!(!shown.changed);
    assert_eq!(shown.messages, vec!["registry = \"https://example.test/v1\"".to_string()]);
}

#[test]
fn show_unset_game_path() {
    let c = default_config();
    let out = apply_config_command(&c, &Some(None), &None);
    assert!(!out.changed);
    assert_eq!(out.messages, vec!["empty_epsilon_path is not set".to_string()]);
}

#[test]
fn set_game_path_and_show_registry() {
    let c = Config { empty_epsilon_path: None, registry: None };
    let out = apply_config_command(&c, &Some(Some("/games/ee".to_string())), &Some(None));
    assert!(out.changed);
    assert_eq!(out.config.empty_epsilon_path, Some("/games/ee".to_string()));
    assert_eq!(out.messages, vec!["registry is not set".to_string()]);
}

#[test]
fn absent_flags_change_nothing() {
    let c = default_config();
    let out = apply_config_command(&c, &None, &None);
    assert!(!out.changed);
    assert!(out.messages.is_empty());
    assert_eq!(out.config.registry, c.registry);
}

#[test]
fn setting_helpers() {
    assert_eq!(setting_line("registry", &Some("x".to_string())), "registry = \"x\"");
    let (v, line) = apply_setting("k", &Some("old".to_string()), &Some(Some("new".to_string())));
    assert_eq!(v, Some("new".to_string()));
    assert_eq!(line, None);
}
