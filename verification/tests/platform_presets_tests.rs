use service_master::platform::{get_current_platform, get_platform, Platform};
use service_master::presets::{get_preset_services, get_presets};

#[test]
fn platforms_have_their_names() {
    assert_eq!(get_current_platform(Platform::MacOs), "macos");
    assert_eq!(get_current_platform(Platform::Windows), "windows");
    assert_eq!(get_current_platform(Platform::Linux), "linux");
    assert_eq!(get_platform(Platform::Linux), "linux".to_string());
}

#[test]
fn there_are_three_presets_in_order() {
    let presets = get_preset_services();
    assert_eq!(presets.len(), 3);
    assert_eq!(presets[0].label, "com.user.cliproxy");
    assert_eq!(presets[1].label, "com.user.openwebui");
    assert_eq!(presets[2].label, "com.user.antigravitytools");
    assert_eq!(get_presets(), presets);
}

#[test]
fn the_proxy_preset_has_its_fields() {
    let p = &get_preset_services()[0];
    assert_eq!(p.display_name, "CLIProxy");
    assert_eq!(p.description, "CLI 代理服务 - API 转发中转");
    assert_eq!(p.icon, "globe");
    assert_eq!(p.program, None);
    assert_eq!(p.program_arguments, Some(vec!["./cli-proxy-api".to_string()]));
    assert_eq!(p.working_directory, None);
    assert_eq!(p.port, Some(8317));
    assert_eq!(p.health_url, Some("http://127.0.0.1:8317/management.html".to_string()));
    assert!(p.run_at_load);
    assert!(p.keep_alive);
    assert_eq!(p.app_path, None);
}

#[test]
fn the_web_ui_preset_has_its_fields() {
    let p = &get_preset_services()[1];
    assert_eq!(p.display_name, "OpenWebUI");
    assert_eq!(p.description, "开源 AI 对话界面");
    assert_eq!(p.icon, "terminal");
    assert_eq!(p.program, None);
    assert_eq!(p.program_arguments, Some(vec!["open-webui".to_string(), "serve".to_string()]));
    assert_eq!(p.port, Some(3000));
    assert_eq!(p.health_url, Some("http://127.0.0.1:8080".to_string()));
    assert!(p.run_at_load);
    assert!(p.keep_alive);
    assert_eq!(p.app_path, None);
}

#[test]
fn the_application_preset_has_its_fields() {
    let p = &get_preset_services()[2];
    assert_eq!(p.display_name, "AntigravityTools");
    assert_eq!(p.description, "Antigravity 开发工具");
    assert_eq!(p.icon, "cpu");
    assert_eq!(p.program, Some("open".to_string()));
    assert_eq!(p.program_arguments, Some(vec!["-a".to_string(), "AntigravityTools".to_string()]));
    assert_eq!(p.port, None);
    assert_eq!(p.health_url, None);
    assert!(!p.run_at_load);
    assert!(!p.keep_alive);
    assert_eq!(p.app_path, Some("AntigravityTools".to_string()));
}
