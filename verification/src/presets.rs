//! The built-in templates that pre-fill the creation of a service.

use crate::descriptor::{PresetService, PresetServiceView};
use vstd::prelude::*;

verus! {

/// A proxy that forwards API calls from the command line.
pub open spec fn cli_proxy() -> PresetServiceView {
    PresetServiceView {
        label: "com.user.cliproxy"@,
        display_name: "CLIProxy"@,
        description: "CLI 代理服务 - API 转发中转"@,
        icon: "globe"@,
        program: None,
        program_arguments: Some(seq!["./cli-proxy-api"@]),
        working_directory: None,
        port: Some(8317),
        health_url: Some("http://127.0.0.1:8317/management.html"@),
        run_at_load: true,
        keep_alive: true,
        app_path: None,
    }
}

/// An open chat front end.
pub open spec fn open_web_ui() -> PresetServiceView {
    PresetServiceView {
        label: "com.user.openwebui"@,
        display_name: "OpenWebUI"@,
        description: "开源 AI 对话界面"@,
        icon: "terminal"@,
        program: None,
        program_arguments: Some(seq!["open-webui"@, "serve"@]),
        working_directory: None,
        port: Some(3000),
        health_url: Some("http://127.0.0.1:8080"@),
        run_at_load: true,
        keep_alive: true,
        app_path: None,
    }
}

/// A desktop application, started by name.
pub open spec fn antigravity_tools() -> PresetServiceView {
    PresetServiceView {
        label: "com.user.antigravitytools"@,
        display_name: "AntigravityTools"@,
        description: "Antigravity 开发工具"@,
        icon: "cpu"@,
        program: Some("open"@),
        program_arguments: Some(seq!["-a"@, "AntigravityTools"@]),
        working_directory: None,
        port: None,
        health_url: None,
        run_at_load: false,
        keep_alive: false,
        app_path: Some("AntigravityTools"@),
    }
}

/// The templates, in the order in which they are offered.
pub open spec fn preset_templates() -> Seq<PresetServiceView> {
    seq![cli_proxy(), open_web_ui(), antigravity_tools()]
}

fn arguments(parts: Vec<&str>) -> (r: Option<Vec<String>>)
    ensures
        r.deep_view() == Some(parts.deep_view()),
{
    let mut owned: Vec<String> = Vec::new();
    let mut i: usize = 0;
    while i < parts.len()
        invariant
            i <= parts.len(),
            owned@.len() == i,
            forall|j: int| 0 <= j < i ==> owned@[j]@ == parts@[j]@,
        decreases parts.len() - i,
    {
        owned.push(parts[i].to_owned());
        i = i + 1;
    }
    Some(owned)
}

fn make_cli_proxy() -> (r: PresetService)
    ensures
        r@ == cli_proxy(),
{
    let parts = vec!["./cli-proxy-api"];
    proof {
        assert(parts.deep_view() =~= seq!["./cli-proxy-api"@]);
    }
    PresetService {
        label: "com.user.cliproxy".to_owned(),
        display_name: "CLIProxy".to_owned(),
        description: "CLI 代理服务 - API 转发中转".to_owned(),
        icon: "globe".to_owned(),
        program: None,
        program_arguments: arguments(parts),
        working_directory: None,
        port: Some(8317),
        health_url: Some("http://127.0.0.1:8317/management.html".to_owned()),
        run_at_load: true,
        keep_alive: true,
        app_path: None,
    }
}

fn make_open_web_ui() -> (r: PresetService)
    ensures
        r@ == open_web_ui(),
{
    let parts = vec!["open-webui", "serve"];
    proof {
        assert(parts.deep_view() =~= seq!["open-webui"@, "serve"@]);
    }
    PresetService {
        label: "com.user.openwebui".to_owned(),
        display_name: "OpenWebUI".to_owned(),
        description: "开源 AI 对话界面".to_owned(),
        icon: "terminal".to_owned(),
        program: None,
        program_arguments: arguments(parts),
        working_directory: None,
        port: Some(3000),
        health_url: Some("http://127.0.0.1:8080".to_owned()),
        run_at_load: true,
        keep_alive: true,
        app_path: None,
    }
}

fn make_antigravity_tools() -> (r: PresetService)
    ensures
        r@ == antigravity_tools(),
{
    let parts = vec!["-a", "AntigravityTools"];
    proof {
        assert(parts.deep_view() =~= seq!["-a"@, "AntigravityTools"@]);
    }
    PresetService {
        label: "com.user.antigravitytools".to_owned(),
        display_name: "AntigravityTools".to_owned(),
        description: "Antigravity 开发工具".to_owned(),
        icon: "cpu".to_owned(),
        program: Some("open".to_owned()),
        program_arguments: arguments(parts),
        working_directory: None,
        port: None,
        health_url: None,
        run_at_load: false,
        keep_alive: false,
        app_path: Some("AntigravityTools".to_owned()),
    }
}

/// The built-in templates.
pub fn get_preset_services() -> (r: Vec<PresetService>)
    ensures
        r.deep_view() == preset_templates(),
{
    let mut r: Vec<PresetService> = Vec::new();
    r.push(make_cli_proxy());
    r.push(make_open_web_ui());
    r.push(make_antigravity_tools());
    r
}

/// The built-in templates, as they are offered to the user.
pub fn get_presets() -> (r: Vec<PresetService>)
    ensures
        r.deep_view() == preset_templates(),
{
    get_preset_services()
}

} // verus!
