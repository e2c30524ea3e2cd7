use sniper_studio::config::{
    env_file_text, load_settings, migrate, parse_bool, parse_u16, parse_u32, AppConfig, ConfigError, EnvValues,
    IntError, CURRENT_CONFIG_VERSION,
};
use sniper_studio::state::AppConfig as UiConfig;

fn env() -> EnvValues {
    EnvValues {
        config_version: None,
        default_launch_url: None,
        default_profile_dir: None,
        remote_debug_port: None,
        headless: None,
        gemini_api_key: None,
    }
}

#[test]
fn defaults() {
    let c = AppConfig::default();
    assert_eq!(c.config_version, 1);
    assert_eq!(c.output_dir, "studio_output");
    assert_eq!(c.default_profile_dir, "chrome_profile");
    assert_eq!(c.remote_debug_port, 9222);
    assert_eq!(c.download_timeout, 30);
    assert_eq!(c.max_concurrent_download, 8);
    assert_eq!(c.gemini_api_url, "https://generativelanguage.googleapis.com/v1beta/models/gemini-pro:generateContent");
}

#[test]
fn migrate_sets_current_version_only() {
    let mut c = AppConfig::default();
    c.config_version = 0;
    c.remote_debug_port = 9333;
    let m = migrate(c);
    assert_eq!(m.config_version, CURRENT_CONFIG_VERSION);
    assert_eq!(m.remote_debug_port, 9333);
    let again = migrate(m);
    assert_eq!(again.config_version, CURRENT_CONFIG_VERSION);
    assert_eq!(again.remote_debug_port, 9333);
}

#[test]
fn parsing_numbers() {
    assert_eq!(parse_u32("42"), Ok(42));
    assert_eq!(parse_u32("+7"), Ok(7));
    assert_eq!(parse_u32(""), Err(IntError::Empty));
    assert_eq!(parse_u32("+"), Err(IntError::InvalidDigit));
    assert_eq!(parse_u32("-1"), Err(IntError::InvalidDigit));
    assert_eq!(parse_u32(" 1"), Err(IntError::InvalidDigit));
    assert_eq!(parse_u32("4294967295"), Ok(u32::MAX));
    assert_eq!(parse_u32("4294967296"), Err(IntError::Overflow));
    assert_eq!(parse_u16("65536"), Err(IntError::Overflow));
    assert_eq!(parse_u16("9222"), Ok(9222));
    assert_eq!(parse_bool("true"), Some(true));
    assert_eq!(parse_bool("false"), Some(false));
    assert_eq!(parse_bool("True"), None);
    for s in ["", "+", "x1", "99999999999"] {
        assert_eq!(parse_u32(s).ok(), s.parse::<u32>().ok());
    }
}

#[test]
fn load_without_env_file_saves_defaults() {
    let (c, save) = match load_settings(None) {
        Ok(x) => x,
        Err(_) => panic!("defaults must load"),
    };
    assert!(save);
    assert_eq!(c.config_version, CURRENT_CONFIG_VERSION);
}

#[test]
fn load_migrates_old_files() {
    let mut e = env();
    e.remote_debug_port = Some("9444".to_string());
    e.gemini_api_key = Some("k".to_string());
    let (c, save) = match load_settings(Some(e)) {
        Ok(x) => x,
        Err(_) => panic!("must load"),
    };
    assert!(save);
    assert_eq!(c.config_version, 1);
    assert_eq!(c.remote_debug_port, 9444);
    assert_eq!(c.gemini_api_key, "k");
    assert_eq!(c.default_launch_url, "https://www.google.com");
}

#[test]
fn load_current_file_needs_no_save() {
    let mut e = env();
    e.config_version = Some("1".to_string());
    e.default_launch_url = Some("https://example.com".to_string());
    e.headless = Some("true".to_string());
    let (c, save) = match load_settings(Some(e)) {
        Ok(x) => x,
        Err(_) => panic!("must load"),
    };
    assert!(!save);
    assert_eq!(c.default_launch_url, "https://example.com");
}

#[test]
fn load_errors() {
    let mut e = env();
    e.config_version = Some("v2".to_string());
    match load_settings(Some(e)) {
        Err(err) => assert_eq!(err.message(), "Invalid version format: invalid digit found in string"),
        Ok(_) => panic!("bad version"),
    }
    let mut e = env();
    e.remote_debug_port = Some("70000".to_string());
    match load_settings(Some(e)) {
        Err(ConfigError::InvalidPort(IntError::Overflow)) => {}
        _ => panic!("bad port"),
    }
    let mut e = env();
    e.remote_debug_port = Some("".to_string());
    match load_settings(Some(e)) {
        Err(err) => assert_eq!(err.message(), "Invalid port: cannot parse integer from empty string"),
        Ok(_) => panic!("empty port"),
    }
    let mut e = env();
    e.headless = Some("yes".to_string());
    match load_settings(Some(e)) {
        Err(err) => assert_eq!(err.message(), "Invalid headless flag: provided string was not `true` or `false`"),
        Ok(_) => panic!("bad flag"),
    }
}

#[test]
fn env_file_round_text() {
    let c = AppConfig::default();
    let text = env_file_text(&c);
    assert!(text.starts_with("CONFIG_VERSION=1\nDEFAULT_LAUNCH_URL=https://www.google.com\n"));
    assert!(text.contains("REMOTE_DEBUG_PORT=9222\n"));
    assert!(text.contains("MAX_CONCURRENT_DOWNLOAD=8\n"));
    assert!(text.ends_with("GEMINI_API_KEY=\n"));
    assert_eq!(text.lines().count(), 9);
}

#[test]
fn ui_config_output_under_home() {
    assert_eq!(UiConfig::with_home(Some("/home/u".to_string())).output_dir, "/home/u/SniperOutput");
    assert_eq!(UiConfig::with_home(Some("/home/u/".to_string())).output_dir, "/home/u/SniperOutput");
    assert_eq!(UiConfig::with_home(None).output_dir, "./SniperOutput");
    let c = UiConfig::with_home(None);
    assert_eq!(c.remote_debug_port, 9222);
    assert_eq!(c.default_launch_url, "https://www.google.com");
}
