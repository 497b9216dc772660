use tca::builtin::ThemeMode;
use tca::config::{mode_aware_theme_name, TcaConfig, TcaSection};

fn cfg(general: Option<&str>, dark: Option<&str>, light: Option<&str>) -> TcaConfig {
    TcaConfig {
        tca: TcaSection {
            default_theme: general.map(String::from),
            default_dark_theme: dark.map(String::from),
            default_light_theme: light.map(String::from),
        },
    }
}

#[test]
fn mode_preference_wins() {
    let c = cfg(Some("general"), Some("dark"), Some("light"));
    assert_eq!(mode_aware_theme_name(&c, Some(ThemeMode::Dark)).as_deref(), Some("dark"));
    assert_eq!(mode_aware_theme_name(&c, Some(ThemeMode::Light)).as_deref(), Some("light"));
    assert_eq!(mode_aware_theme_name(&c, None).as_deref(), Some("general"));
}

#[test]
fn falls_back_to_general_default() {
    let c = cfg(Some("general"), None, None);
    assert_eq!(mode_aware_theme_name(&c, Some(ThemeMode::Dark)).as_deref(), Some("general"));
    assert_eq!(mode_aware_theme_name(&c, Some(ThemeMode::Light)).as_deref(), Some("general"));
    let c = TcaConfig::default();
    assert_eq!(mode_aware_theme_name(&c, Some(ThemeMode::Dark)), None);
    assert!(c.tca.default_theme.is_none());
}

#[test]
fn loader_config_mode_aware_theme() {
    let c = tca::loader::TcaConfig {
        default_theme: None,
        default_dark_theme: Some("nord".to_string()),
        default_light_theme: None,
    };
    assert_eq!(c.mode_aware_theme(Some(ThemeMode::Dark)).as_deref(), Some("nord"));
    assert_eq!(c.mode_aware_theme(Some(ThemeMode::Light)), None);
    assert_eq!(c.mode_aware_theme(None), None);
    assert!(tca::loader::TcaConfig::default().default_dark_theme.is_none());
}
