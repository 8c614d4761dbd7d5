use service_master::command::{CommandOutput, CommandSpec};
use service_master::http::{HttpFailure, HttpMethod, HttpReply, HttpRequest};
use service_master::liveness::{
    check_health, check_health_fallback, check_port, get_loaded_services, get_service_logs,
    health_request, loaded_services_command, port_probe, HealthStep,
};
use service_master::platform::Platform;

fn cmd(program: &str, args: &[&str]) -> CommandSpec {
    CommandSpec { program: program.to_string(), args: args.iter().map(|s| s.to_string()).collect() }
}

fn reply(status: u16) -> Result<HttpReply, HttpFailure> {
    Ok(HttpReply { status, body: Ok(String::new()) })
}

fn finished(success: bool, stdout: &str) -> Result<CommandOutput, String> {
    Ok(CommandOutput { success, stdout: stdout.to_string(), stderr: String::new() })
}

#[test]
fn loaded_units_are_asked_for_per_platform() {
    assert_eq!(loaded_services_command(Platform::MacOs), Some(cmd("launchctl", &["list"])));
    assert_eq!(
        loaded_services_command(Platform::Linux),
        Some(cmd("systemctl", &["--user", "list-units", "--type=service", "--no-pager", "--plain"]))
    );
    assert_eq!(loaded_services_command(Platform::Windows), None);
}

#[test]
fn the_listing_with_three_columns_gives_label_and_process_id() {
    let listing = "PID\tStatus\tLabel\n123\t0\tcom.a\n-\t0\tcom.b\n456\t-9\tcom.c\nbroken line\n\n";
    let table = get_loaded_services(Platform::MacOs, Some(listing));
    assert_eq!(table.len(), 3);
    assert_eq!(table.get("com.a"), Some(&Some(123)));
    assert_eq!(table.get("com.b"), Some(&None));
    assert_eq!(table.get("com.c"), Some(&Some(456)));
    assert_eq!(table.get("Label"), None);
    assert_eq!(table.get("broken"), None);
}

#[test]
fn the_heading_of_the_listing_is_skipped() {
    let table = get_loaded_services(Platform::MacOs, Some("1\t0\tcom.first\n2\t0\tcom.second\n"));
    assert_eq!(table.len(), 1);
    assert_eq!(table.get("com.first"), None);
    assert_eq!(table.get("com.second"), Some(&Some(2)));
}

#[test]
fn a_later_line_replaces_an_earlier_one_with_the_same_label() {
    let table = get_loaded_services(Platform::MacOs, Some("h\n1\t0\tcom.a\n2\t0\tcom.a\n"));
    assert_eq!(table.len(), 1);
    assert_eq!(table.get("com.a"), Some(&Some(2)));
}

#[test]
fn the_listing_of_names_gives_labels_without_process_id() {
    let listing = "UNIT LOAD ACTIVE SUB DESCRIPTION\nmy-app.service loaded active running My App\ndbus.service.service loaded active running D-Bus\nplain loaded\n\n2 loaded units listed.\n";
    let table = get_loaded_services(Platform::Linux, Some(listing));
    assert_eq!(table.get("my-app"), Some(&None));
    assert_eq!(table.get("dbus"), Some(&None));
    assert_eq!(table.get("plain"), Some(&None));
    assert_eq!(table.get("2"), Some(&None));
    assert_eq!(table.get("UNIT"), None);
    assert_eq!(table.len(), 4);
}

#[test]
fn without_listing_nothing_is_loaded() {
    assert_eq!(get_loaded_services(Platform::MacOs, None).len(), 0);
    assert_eq!(get_loaded_services(Platform::Linux, Some("")).len(), 0);
    assert_eq!(get_loaded_services(Platform::Windows, Some("h\n1 0 com.a\n")).len(), 0);
}

#[test]
fn a_port_is_probed_on_the_loopback_interface_for_half_a_second() {
    let probe = port_probe(8317);
    assert_eq!(probe.address, "127.0.0.1:8317");
    assert_eq!(probe.timeout_millis, 500);
    assert_eq!(port_probe(0).address, "127.0.0.1:0");
    assert_eq!(port_probe(65535).address, "127.0.0.1:65535");
}

#[test]
fn a_port_is_open_where_the_connection_was_made() {
    assert!(check_port(Ok(())));
    assert!(!check_port(Err("Connection refused (os error 111)".to_string())));
    assert!(!check_port(Err("connection timed out".to_string())));
}

#[test]
fn health_is_asked_for_with_a_short_timeout() {
    assert_eq!(
        health_request("http://127.0.0.1:8080/health"),
        HttpRequest {
            method: HttpMethod::Get,
            url: "http://127.0.0.1:8080/health".to_string(),
            headers: vec![],
            body: None,
            timeout_secs: 2,
        }
    );
}

#[test]
fn a_reply_is_healthy_from_200_to_399() {
    for platform in [Platform::MacOs, Platform::Windows, Platform::Linux] {
        assert_eq!(check_health(platform, "u", reply(200)), HealthStep::Answer(true));
        assert_eq!(check_health(platform, "u", reply(204)), HealthStep::Answer(true));
        assert_eq!(check_health(platform, "u", reply(302)), HealthStep::Answer(true));
        assert_eq!(check_health(platform, "u", reply(399)), HealthStep::Answer(true));
        assert_eq!(check_health(platform, "u", reply(199)), HealthStep::Answer(false));
        assert_eq!(check_health(platform, "u", reply(400)), HealthStep::Answer(false));
        assert_eq!(check_health(platform, "u", reply(404)), HealthStep::Answer(false));
        assert_eq!(check_health(platform, "u", reply(500)), HealthStep::Answer(false));
    }
}

#[test]
fn a_refused_connection_is_unhealthy() {
    for platform in [Platform::MacOs, Platform::Windows, Platform::Linux] {
        assert_eq!(
            check_health(platform, "u", Err(HttpFailure::Send("connection refused".to_string()))),
            HealthStep::Answer(false)
        );
    }
}

#[test]
fn without_client_the_check_falls_back_on_a_command() {
    let fallback = HealthStep::Fallback(cmd(
        "curl",
        &["-s", "-o", "/dev/null", "-w", "%{http_code}", "-m", "2", "http://x"],
    ));
    let no_client = || Err(HttpFailure::Client("tls".to_string()));
    assert_eq!(check_health(Platform::MacOs, "http://x", no_client()), fallback);
    assert_eq!(check_health(Platform::Linux, "http://x", no_client()), fallback);
    assert_eq!(check_health(Platform::Windows, "http://x", no_client()), HealthStep::Answer(false));
}

#[test]
fn the_fallback_judges_by_the_first_digit_of_the_status() {
    assert!(check_health_fallback(finished(true, "200")));
    assert!(check_health_fallback(finished(true, "301")));
    assert!(check_health_fallback(finished(false, "204")));
    assert!(!check_health_fallback(finished(true, "404")));
    assert!(!check_health_fallback(finished(true, "000")));
    assert!(!check_health_fallback(finished(true, "")));
    assert!(!check_health_fallback(Err("curl: not found".to_string())));
}

#[test]
fn the_tail_of_a_log_is_its_last_lines() {
    assert_eq!(get_service_logs("a\nb\nc\n", 2), vec!["b".to_string(), "c".to_string()]);
    assert_eq!(get_service_logs("a\nb\nc", 5), vec!["a".to_string(), "b".to_string(), "c".to_string()]);
    assert_eq!(get_service_logs("a\nb\nc", 3), vec!["a".to_string(), "b".to_string(), "c".to_string()]);
    assert_eq!(get_service_logs("a\r\nb\r\n", 1), vec!["b".to_string()]);
    assert_eq!(get_service_logs("a\nb", 0), Vec::<String>::new());
    assert_eq!(get_service_logs("", 10), Vec::<String>::new());
}
