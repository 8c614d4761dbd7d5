use service_master::paths::{
    choose_agents_dir, default_agents_dir, get_launch_agents_dir, get_metadata_file_path,
    get_settings_file_path, metadata_file_location, resolve, resolve_here,
    settings_file_location, unit_file_name, unit_file_path, unit_name_from, unit_name_of, BaseDir,
    Location,
};
use service_master::platform::Platform;

fn p(parts: &[&str]) -> String {
    let mut path = std::path::PathBuf::new();
    for part in parts {
        path.push(part);
    }
    path.to_string_lossy().to_string()
}

#[test]
fn the_unit_file_is_named_after_the_label() {
    assert_eq!(unit_file_name("com.user.cliproxy"), "com.user.cliproxy.plist");
    assert_eq!(unit_file_name(""), ".plist");
    assert_eq!(unit_file_path(&p(&["/agents"]), "com.a"), p(&["/agents", "com.a.plist"]));
}

#[test]
fn a_unit_is_named_by_the_stem_of_its_file() {
    assert_eq!(unit_name_of(&p(&["/home", "u", "my-app.service"])), "my-app");
    assert_eq!(unit_name_of(&p(&["/agents", "com.a.plist"])), "com.a");
    assert_eq!(unit_name_of("plain"), "plain");
    assert_eq!(unit_name_of(""), "");
    assert_eq!(unit_name_of(".."), "");
}

#[test]
fn the_documents_of_the_application_lie_under_the_configuration_directory() {
    let m = metadata_file_location();
    assert_eq!(m.base, BaseDir::Config);
    assert_eq!(m.fallback, vec![".config".to_string()]);
    assert_eq!(m.parts, vec!["service-master".to_string(), "metadata.json".to_string()]);
    let s = settings_file_location();
    assert_eq!(s.base, BaseDir::Config);
    assert_eq!(s.fallback, vec![".config".to_string()]);
    assert_eq!(s.parts, vec!["service-master".to_string(), "settings.json".to_string()]);
    assert_eq!(
        resolve(&m, Some("/home/u"), Some("/xdg")),
        Some(p(&["/xdg", "service-master", "metadata.json"]))
    );
    assert_eq!(
        resolve(&s, Some("/home/u"), None),
        Some(p(&["/home/u", ".config", "service-master", "settings.json"]))
    );
    assert_eq!(resolve(&s, None, Some("/xdg")), Some(p(&["/xdg", "service-master", "settings.json"])));
    assert_eq!(resolve(&s, None, None), None);
}

#[test]
fn the_default_directory_of_unit_files_depends_on_the_platform() {
    let mac = default_agents_dir(Platform::MacOs);
    assert_eq!(mac.base, BaseDir::Home);
    assert_eq!(mac.parts, vec!["Library".to_string(), "LaunchAgents".to_string()]);
    let win = default_agents_dir(Platform::Windows);
    assert_eq!(win.base, BaseDir::Config);
    assert!(win.fallback.is_empty());
    assert_eq!(win.parts, vec!["service-master".to_string(), "services".to_string()]);
    let linux = default_agents_dir(Platform::Linux);
    assert_eq!(linux.base, BaseDir::Home);
    assert_eq!(linux.parts, vec![".config".to_string(), "systemd".to_string(), "user".to_string()]);
    assert_eq!(resolve(&mac, Some("/Users/a"), None), Some(p(&["/Users/a", "Library", "LaunchAgents"])));
    assert_eq!(resolve(&mac, None, Some("/c")), None);
    assert_eq!(resolve(&win, Some("/h"), Some("/c")), Some(p(&["/c", "service-master", "services"])));
    assert_eq!(resolve(&win, Some("/h"), None), Some(p(&["/h", "service-master", "services"])));
    assert_eq!(resolve(&linux, Some("/h"), None), Some(p(&["/h", ".config", "systemd", "user"])));
}

#[test]
fn the_directory_that_the_user_chose_is_taken_where_it_is_a_directory() {
    for platform in [Platform::MacOs, Platform::Windows, Platform::Linux] {
        assert_eq!(
            choose_agents_dir(platform, Some("/custom"), true, Some("/h"), Some("/c")),
            Some("/custom".to_string())
        );
        assert_eq!(
            choose_agents_dir(platform, Some("/custom"), true, None, None),
            Some("/custom".to_string())
        );
        assert_eq!(
            get_launch_agents_dir(platform, Some("/custom"), true),
            Some("/custom".to_string())
        );
    }
    assert_eq!(
        choose_agents_dir(Platform::Linux, Some("/custom"), false, Some("/h"), Some("/c")),
        Some(p(&["/h", ".config", "systemd", "user"]))
    );
    assert_eq!(
        choose_agents_dir(Platform::MacOs, None, true, Some("/h"), None),
        Some(p(&["/h", "Library", "LaunchAgents"]))
    );
    assert_eq!(choose_agents_dir(Platform::MacOs, None, false, None, Some("/c")), None);
    assert_eq!(choose_agents_dir(Platform::Windows, None, false, None, None), None);
}

#[test]
fn locations_resolve_against_the_environment() {
    let here = Location { base: BaseDir::Home, fallback: vec![], parts: vec!["x".to_string()] };
    let home = dirs::home_dir();
    assert_eq!(resolve_here(&here), home.clone().map(|h| h.join("x").to_string_lossy().to_string()));
    let config = dirs::config_dir().or_else(|| home.map(|h| h.join(".config")));
    assert_eq!(
        get_metadata_file_path(),
        config.clone().map(|c| c.join("service-master").join("metadata.json").to_string_lossy().to_string())
    );
    assert_eq!(
        get_settings_file_path(),
        config.map(|c| c.join("service-master").join("settings.json").to_string_lossy().to_string())
    );
}

#[test]
fn the_unit_name_is_the_stem_or_empty() {
    assert_eq!(unit_name_from(Some("my-app".to_string())), "my-app");
    assert_eq!(unit_name_from(Some("".to_string())), "");
    assert_eq!(unit_name_from(None), "");
}

#[test]
fn a_location_without_parts_is_the_directory_at_which_it_starts() {
    let home = Location { base: BaseDir::Home, fallback: vec![], parts: vec![] };
    assert_eq!(resolve(&home, Some("/home/u"), Some("/c")), Some("/home/u".to_string()));
    assert_eq!(resolve(&home, None, Some("/c")), None);
    let config = Location { base: BaseDir::Config, fallback: vec![], parts: vec![] };
    assert_eq!(resolve(&config, Some("/home/u"), Some("/c")), Some("/c".to_string()));
    assert_eq!(resolve(&config, Some("/home/u"), None), Some("/home/u".to_string()));
    assert_eq!(resolve(&config, None, None), None);
    let with_fallback =
        Location { base: BaseDir::Config, fallback: vec![".config".to_string()], parts: vec![] };
    assert_eq!(resolve(&with_fallback, Some("/home/u"), Some("/c")), Some("/c".to_string()));
    assert_eq!(resolve(&with_fallback, Some("/home/u"), None), Some(p(&["/home/u", ".config"])));
}
