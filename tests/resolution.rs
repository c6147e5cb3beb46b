use user_dirs::path::join;
use user_dirs::{
    all_dirs, cache_dir, config_dir, data_dir, home_dir, runtime_dir, state_dir, Environment,
    HomeDirError, Platform,
};

fn s(v: &str) -> Option<String> {
    Some(v.to_string())
}

fn leah_posix() -> Environment {
    Environment::new(Platform::Posix, s("/home/leah"))
}

fn leah_mac() -> Environment {
    Environment::new(Platform::MacOs, s("/Users/Leah"))
}

fn leah_windows() -> Environment {
    Environment::new(Platform::Windows, s("C:\\Users\\Leah"))
}

fn with_all_overrides(mut env: Environment) -> Environment {
    env.xdg_data_home = s("/x/data");
    env.xdg_config_home = s("/x/config");
    env.xdg_cache_home = s("/x/cache");
    env.xdg_state_home = s("/x/state");
    env.xdg_runtime_dir = s("/x/run");
    env
}

#[test]
fn platform_from_os_identifier() {
    assert_eq!(Platform::from_os("macos"), Platform::MacOs);
    assert_eq!(Platform::from_os("windows"), Platform::Windows);
    assert_eq!(Platform::from_os("linux"), Platform::Posix);
    assert_eq!(Platform::from_os("freebsd"), Platform::Posix);
    assert_eq!(Platform::from_os(""), Platform::Posix);
    assert_eq!(Platform::from_os("macosx"), Platform::Posix);
}

#[test]
fn join_inserts_separator_only_where_needed() {
    assert_eq!(join("/home/leah", ".config", Platform::Posix), "/home/leah/.config");
    assert_eq!(join("/home/leah/", ".config", Platform::Posix), "/home/leah/.config");
    assert_eq!(join("", ".config", Platform::Posix), ".config");
    assert_eq!(join("C:\\Users", "Leah", Platform::Windows), "C:\\Users\\Leah");
    assert_eq!(join("C:\\Users\\", "Leah", Platform::Windows), "C:\\Users\\Leah");
    assert_eq!(join("C:/Users/", "Leah", Platform::Windows), "C:/Users/Leah");
    assert_eq!(join("/a\\", "b", Platform::Posix), "/a\\/b");
}

#[test]
fn config_override_then_default() {
    let mut env = leah_posix();
    env.xdg_config_home = s("foo");
    assert_eq!(config_dir(&env), Ok("foo".to_string()));
    env.xdg_config_home = None;
    let home = home_dir(&env).unwrap();
    assert_eq!(config_dir(&env), Ok(join(&home, ".config", Platform::Posix)));
    assert_eq!(config_dir(&env), Ok("/home/leah/.config".to_string()));
}

#[test]
fn posix_defaults_for_leah() {
    let env = leah_posix();
    assert_eq!(home_dir(&env), Ok("/home/leah".to_string()));
    assert_eq!(data_dir(&env), Ok("/home/leah/.local/share".to_string()));
    assert_eq!(config_dir(&env), Ok("/home/leah/.config".to_string()));
    assert_eq!(cache_dir(&env), Ok("/home/leah/.cache".to_string()));
    assert_eq!(state_dir(&env), Ok(s("/home/leah/.local/state")));
    assert_eq!(runtime_dir(&env), None);
}

#[test]
fn windows_defaults_for_leah() {
    let env = leah_windows();
    let roaming = "C:\\Users\\Leah\\AppData\\Roaming".to_string();
    assert_eq!(config_dir(&env), Ok(roaming.clone()));
    assert_eq!(data_dir(&env), Ok(roaming));
    assert_eq!(cache_dir(&env), Ok("C:\\Users\\Leah\\AppData\\Local".to_string()));
    assert_eq!(state_dir(&env), Ok(None));
    assert_eq!(runtime_dir(&env), None);
}

#[test]
fn windows_application_data_variables() {
    let mut env = leah_windows();
    env.appdata = s("D:\\Roam");
    env.local_appdata = s("D:\\Local");
    assert_eq!(data_dir(&env), Ok("D:\\Roam".to_string()));
    assert_eq!(config_dir(&env), Ok("D:\\Roam".to_string()));
    assert_eq!(cache_dir(&env), Ok("D:\\Local".to_string()));
}

#[test]
fn windows_application_data_still_needs_home() {
    let mut env = Environment::new(Platform::Windows, None);
    env.appdata = s("D:\\Roam");
    env.local_appdata = s("D:\\Local");
    assert_eq!(data_dir(&env), Err(HomeDirError));
    assert_eq!(config_dir(&env), Err(HomeDirError));
    assert_eq!(cache_dir(&env), Err(HomeDirError));
}

#[test]
fn macos_defaults_for_leah() {
    let env = leah_mac();
    assert_eq!(data_dir(&env), Ok("/Users/Leah/Library/Application Support".to_string()));
    assert_eq!(config_dir(&env), Ok("/Users/Leah/Library/Preferences".to_string()));
    assert_eq!(cache_dir(&env), Ok("/Users/Leah/Library/Caches".to_string()));
    assert_eq!(state_dir(&env), Ok(None));
    assert_eq!(runtime_dir(&env), None);
}

#[test]
fn overrides_win_on_every_platform() {
    for env in [leah_posix(), leah_mac(), leah_windows(), Environment::new(Platform::Posix, None)] {
        let env = with_all_overrides(env);
        assert_eq!(data_dir(&env), Ok("/x/data".to_string()));
        assert_eq!(config_dir(&env), Ok("/x/config".to_string()));
        assert_eq!(cache_dir(&env), Ok("/x/cache".to_string()));
        assert_eq!(state_dir(&env), Ok(s("/x/state")));
        assert_eq!(runtime_dir(&env), s("/x/run"));
    }
}

#[test]
fn empty_override_is_used_verbatim() {
    let mut env = leah_posix();
    env.xdg_data_home = s("");
    env.xdg_state_home = s("");
    env.xdg_runtime_dir = s("");
    assert_eq!(data_dir(&env), Ok(String::new()));
    assert_eq!(state_dir(&env), Ok(s("")));
    assert_eq!(runtime_dir(&env), s(""));
}

#[test]
fn override_is_not_normalised() {
    let mut env = leah_mac();
    env.xdg_cache_home = s(" relative//dir/ ");
    assert_eq!(cache_dir(&env), Ok(" relative//dir/ ".to_string()));
}

#[test]
fn runtime_has_no_default_anywhere() {
    for env in [leah_posix(), leah_mac(), leah_windows(), Environment::new(Platform::Posix, None)] {
        assert_eq!(runtime_dir(&env), None);
    }
}

#[test]
fn missing_home_fails_where_needed() {
    let env = Environment::new(Platform::Posix, None);
    assert_eq!(home_dir(&env), Err(HomeDirError));
    assert_eq!(data_dir(&env), Err(HomeDirError));
    assert_eq!(config_dir(&env), Err(HomeDirError));
    assert_eq!(cache_dir(&env), Err(HomeDirError));
    assert_eq!(state_dir(&env), Err(HomeDirError));
    assert_eq!(runtime_dir(&env), None);
}

#[test]
fn missing_home_state_fails_even_without_a_platform_default() {
    let env = Environment::new(Platform::MacOs, None);
    assert_eq!(state_dir(&env), Err(HomeDirError));
}

#[test]
fn missing_home_with_overrides_still_resolves() {
    let env = with_all_overrides(Environment::new(Platform::Windows, None));
    assert_eq!(data_dir(&env), Ok("/x/data".to_string()));
    assert_eq!(config_dir(&env), Ok("/x/config".to_string()));
    assert_eq!(cache_dir(&env), Ok("/x/cache".to_string()));
    assert_eq!(state_dir(&env), Ok(s("/x/state")));
    assert_eq!(runtime_dir(&env), s("/x/run"));
}

#[test]
fn repeated_calls_agree() {
    let mut env = leah_posix();
    env.xdg_cache_home = s("/tmp/c");
    let first = (data_dir(&env), config_dir(&env), cache_dir(&env), state_dir(&env), runtime_dir(&env));
    let second = (data_dir(&env), config_dir(&env), cache_dir(&env), state_dir(&env), runtime_dir(&env));
    assert_eq!(first, second);
    let copy = env.clone();
    assert_eq!(data_dir(&copy), first.0);
}

#[test]
fn all_dirs_matches_each_function() {
    let mut env = leah_posix();
    env.xdg_runtime_dir = s("/run/user/1000");
    env.xdg_config_home = s("/etc/leah");
    let all = all_dirs(&env).unwrap();
    assert_eq!(all.home, "/home/leah");
    assert_eq!(all.data, "/home/leah/.local/share");
    assert_eq!(all.config, "/etc/leah");
    assert_eq!(all.cache, "/home/leah/.cache");
    assert_eq!(all.state, s("/home/leah/.local/state"));
    assert_eq!(all.runtime, s("/run/user/1000"));
}

#[test]
fn all_dirs_needs_home_even_with_overrides() {
    let env = with_all_overrides(Environment::new(Platform::Posix, None));
    assert!(matches!(all_dirs(&env), Err(HomeDirError)));
}

#[test]
fn error_message() {
    assert_eq!(HomeDirError.message(), "could not locate home directory");
}
