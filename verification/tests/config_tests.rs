use std::collections::hash_map::DefaultHasher;
use std::hash::{Hash, Hasher};

use hydebar::config::keybindings::{GlobalKeybindings, Keybindings, MenuKeybindings};
use hydebar::config::modules::{ModuleDef, ModuleName, Modules};
use hydebar::config::regex_cfg::RegexCfg;
use hydebar::config::validation::ConfigValidationError;
use hydebar::config::{AnimationConfig, Config, CustomModuleDef};

fn custom_module(name: &str) -> CustomModuleDef {
    CustomModuleDef {
        name: name.to_owned(),
        command: "echo test".to_owned(),
        icon: None,
        listen_cmd: None,
        icons: None,
        alert: None,
    }
}

#[test]
fn animation_config_default_values() {
    let config = AnimationConfig::default();
    assert!(config.enabled);
    assert_eq!(config.menu_fade_duration_ms, 200);
    assert_eq!(config.hover_duration_ms, 100);
}

#[test]
fn keybindings_default_is_enabled() {
    let kb = Keybindings::default();
    assert!(kb.enabled);
}

#[test]
fn global_keybindings_default_activation() {
    let global = GlobalKeybindings::default();
    assert_eq!(global.activate_navigation, "Super+h+b");
}

#[test]
fn menu_keybindings_defaults_are_vim_style() {
    let menu = MenuKeybindings::default();
    assert_eq!(menu.up, "k");
    assert_eq!(menu.down, "j");
    assert_eq!(menu.left, "h");
    assert_eq!(menu.right, "l");
}

#[test]
fn keybindings_can_be_disabled() {
    let kb = Keybindings {
        enabled: false,
        global: GlobalKeybindings::default(),
        menu: MenuKeybindings::default(),
    };
    assert!(!kb.enabled);
}

#[test]
fn default_modules_match_expected_layout() {
    let modules = Modules::default();
    assert_eq!(modules.left.len(), 1);
    assert_eq!(modules.center.len(), 1);
    assert_eq!(modules.right.len(), 1);
}

#[test]
fn validate_accepts_default_config() {
    let config = Config::default();
    assert!(config.validate().is_ok());
}

#[test]
fn validate_rejects_duplicate_custom_modules() {
    let config = Config {
        custom_modules: vec![custom_module("foo"), custom_module("foo")],
        ..Default::default()
    };

    let error = config
        .validate()
        .expect_err("expected duplicate module error");
    assert!(matches!(
        error,
        ConfigValidationError::DuplicateCustomModule { ref name } if name == "foo"
    ));
}

#[test]
fn validate_rejects_missing_custom_module_reference() {
    let config = Config {
        custom_modules: vec![custom_module("foo")],
        modules: Modules {
            left: vec![ModuleDef::Single(ModuleName::Custom("bar".to_owned()))],
            ..Default::default()
        },
        ..Default::default()
    };

    let error = config
        .validate()
        .expect_err("expected missing module error");
    assert!(matches!(
        error,
        ConfigValidationError::MissingCustomModule { ref name } if name == "bar"
    ));
}

#[test]
fn validate_reports_first_duplicate_before_missing_reference() {
    let config = Config {
        custom_modules: vec![
            custom_module("a"),
            custom_module("b"),
            custom_module("b"),
            custom_module("a"),
        ],
        modules: Modules {
            right: vec![ModuleDef::Group(vec![
                ModuleName::Clock,
                ModuleName::Custom("zzz".to_owned()),
            ])],
            ..Default::default()
        },
        ..Default::default()
    };
    let error = config.validate().expect_err("duplicate expected");
    assert_eq!(error.to_string(), "duplicate custom module definition for 'b'");
}

#[test]
fn validate_accepts_defined_custom_references() {
    let config = Config {
        custom_modules: vec![custom_module("foo")],
        modules: Modules {
            center: vec![ModuleDef::Group(vec![ModuleName::Custom("foo".to_owned())])],
            ..Default::default()
        },
        ..Default::default()
    };
    assert!(config.validate().is_ok());
    let missing = ConfigValidationError::MissingCustomModule { name: "x".to_owned() };
    assert_eq!(
        missing.to_string(),
        "custom module 'x' referenced in layout but not defined"
    );
}

#[test]
fn regex_cfg_uses_pattern_for_equality() {
    let lhs = RegexCfg::new("foo").expect("lhs");
    let rhs = RegexCfg::new("foo").expect("rhs");
    assert_eq!(lhs, rhs);
}

#[test]
fn regex_cfg_hashes_by_pattern() {
    let regex = RegexCfg::new("foo").expect("regex");
    let mut hasher_a = DefaultHasher::new();
    regex.hash(&mut hasher_a);

    let mut hasher_b = DefaultHasher::new();
    regex.hash(&mut hasher_b);

    assert_eq!(hasher_a.finish(), hasher_b.finish());
}

#[test]
fn regex_cfg_rejects_invalid_pattern_and_matches_substrings() {
    assert!(RegexCfg::new("(").is_err());
    let re = RegexCfg::new("^pl.y").expect("valid");
    assert_eq!(re.as_str(), "^pl.y");
    assert_ne!(re, RegexCfg::new("pl.y").expect("valid"));
}

#[test]
fn module_name_from_name_maps_builtin_and_custom() {
    assert_eq!(ModuleName::from_name("Clock"), ModuleName::Clock);
    assert!(matches!(ModuleName::from_name("MyCustom"), ModuleName::Custom(ref v) if v == "MyCustom"));
}
