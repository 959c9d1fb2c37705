use sandbox_backend::app_config::{parse_i32, parse_u32, read_app_config, u32_setting_or, AppConfig, ConfigError};
use sandbox_backend::sandbox::native_app_env;

#[test]
fn unsigned_parsing_like_std() {
    for s in ["0", "42", "+7", "0007", "4294967295", "", "+", "-1", "4294967296", " 1", "1 ", "12a", "٣"] {
        assert_eq!(parse_u32(s), s.parse::<u32>().ok(), "{s:?}");
    }
}

#[test]
fn signed_parsing_like_std() {
    for s in ["0", "-0", "-7", "+7", "2147483647", "-2147483648", "2147483648", "-2147483649", "-", "+", "", "--1", "+-1"] {
        assert_eq!(parse_i32(s), s.parse::<i32>().ok(), "{s:?}");
    }
}

#[test]
fn optional_settings_default() {
    assert_eq!(u32_setting_or(None, 800), 800);
    assert_eq!(u32_setting_or(Some("1024"), 800), 1024);
    assert_eq!(u32_setting_or(Some("wide"), 800), 800);
    assert_eq!(u32_setting_or(Some("-5"), 30), 30);
}

#[test]
fn config_with_defaults() {
    assert_eq!(
        read_app_config(Some("3"), Some("4"), None, Some("x"), None),
        Ok(AppConfig { fb_fd: 3, ctrl_fd: 4, width: 800, height: 600, framerate: 30 })
    );
}

#[test]
fn config_errors_in_order() {
    assert_eq!(read_app_config(None, None, None, None, None), Err(ConfigError::FbFdUnset));
    assert_eq!(read_app_config(Some("three"), None, None, None, None), Err(ConfigError::FbFdNotInteger));
    assert_eq!(read_app_config(Some("3"), None, None, None, None), Err(ConfigError::CtrlFdUnset));
    assert_eq!(read_app_config(Some("3"), Some(""), None, None, None), Err(ConfigError::CtrlFdNotInteger));
}

#[test]
fn app_reads_what_server_writes() {
    let env = native_app_env(11, -1, 1920, 1080, 60);
    let v: Vec<&str> = env.iter().map(|e| e.value.as_str()).collect();
    assert_eq!(
        read_app_config(Some(v[0]), Some(v[1]), Some(v[2]), Some(v[3]), Some(v[4])),
        Ok(AppConfig { fb_fd: 11, ctrl_fd: -1, width: 1920, height: 1080, framerate: 60 })
    );
}
