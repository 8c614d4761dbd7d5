use service_master::descriptor::{LaunchAgent, ServiceConfig};
use service_master::unit_file::{parse_plist_file, render_unit_file};

const HEAD: &str = "<?xml version=\"1.0\" encoding=\"UTF-8\"?>\n<!DOCTYPE plist PUBLIC \"-//Apple//DTD PLIST 1.0//EN\" \"http://www.apple.com/DTDs/PropertyList-1.0.dtd\">\n<plist version=\"1.0\">\n";

fn doc(body: &str) -> Vec<u8> {
    format!("{}{}\n</plist>\n", HEAD, body).into_bytes()
}

fn bare(label: &str, path: &str) -> LaunchAgent {
    LaunchAgent {
        label: label.to_string(),
        program: None,
        program_arguments: None,
        run_at_load: None,
        keep_alive: None,
        working_directory: None,
        standard_out_path: None,
        standard_error_path: None,
        environment_variables: None,
        file_path: path.to_string(),
        is_loaded: false,
        pid: None,
        display_name: None,
        description: None,
        icon: None,
        port: None,
        health_url: None,
        order: None,
        project_path: None,
        app_path: None,
    }
}

fn full_config() -> ServiceConfig {
    ServiceConfig {
        label: "com.example.full".to_string(),
        program: Some("/usr/bin/env".to_string()),
        program_arguments: Some(vec!["env".to_string(), "-i".to_string(), "a <b> & c".to_string()]),
        run_at_load: Some(true),
        keep_alive: Some(false),
        working_directory: Some("/tmp/work dir".to_string()),
        standard_out_path: Some("/tmp/out.log".to_string()),
        standard_error_path: Some("/tmp/err.log".to_string()),
        environment_variables: Some(vec![
            ("PATH".to_string(), "/usr/bin:/bin".to_string()),
            ("LANG".to_string(), "zh_CN.UTF-8".to_string()),
            ("名".to_string(), "值".to_string()),
        ]),
    }
}

#[test]
fn a_unit_file_with_only_a_label_declares_nothing_else() {
    let content = doc("<dict><key>Label</key><string>com.example.a</string></dict>");
    let agent = parse_plist_file(&content, "/agents/com.example.a.plist");
    assert_eq!(agent, Some(bare("com.example.a", "/agents/com.example.a.plist")));
}

#[test]
fn a_unit_file_with_every_field_is_read() {
    let content = doc(
        "<dict>\
         <key>Label</key><string>com.example.b</string>\
         <key>Program</key><string>/bin/sh</string>\
         <key>ProgramArguments</key><array><string>sh</string><string>-c</string><string>true</string></array>\
         <key>RunAtLoad</key><true/>\
         <key>KeepAlive</key><false/>\
         <key>WorkingDirectory</key><string>/tmp</string>\
         <key>StandardOutPath</key><string>/tmp/o</string>\
         <key>StandardErrorPath</key><string>/tmp/e</string>\
         <key>EnvironmentVariables</key><dict><key>A</key><string>1</string><key>B</key><string>2</string></dict>\
         </dict>",
    );
    let agent = parse_plist_file(&content, "p").unwrap();
    let mut expected = bare("com.example.b", "p");
    expected.program = Some("/bin/sh".to_string());
    expected.program_arguments = Some(vec!["sh".to_string(), "-c".to_string(), "true".to_string()]);
    expected.run_at_load = Some(true);
    expected.keep_alive = Some(false);
    expected.working_directory = Some("/tmp".to_string());
    expected.standard_out_path = Some("/tmp/o".to_string());
    expected.standard_error_path = Some("/tmp/e".to_string());
    expected.environment_variables =
        Some(vec![("A".to_string(), "1".to_string()), ("B".to_string(), "2".to_string())]);
    assert_eq!(agent, expected);
}

#[test]
fn a_file_without_label_is_no_unit_file() {
    let content = doc("<dict><key>Program</key><string>/bin/sh</string></dict>");
    assert_eq!(parse_plist_file(&content, "p"), None);
}

#[test]
fn a_label_that_is_no_string_is_no_label() {
    let content = doc("<dict><key>Label</key><integer>5</integer></dict>");
    assert_eq!(parse_plist_file(&content, "p"), None);
    let content = doc("<dict><key>Label</key><true/></dict>");
    assert_eq!(parse_plist_file(&content, "p"), None);
}

#[test]
fn a_document_that_is_no_dictionary_is_no_unit_file() {
    assert_eq!(parse_plist_file(&doc("<array><string>Label</string></array>"), "p"), None);
    assert_eq!(parse_plist_file(&doc("<string>Label</string>"), "p"), None);
}

#[test]
fn bytes_that_are_no_property_list_are_no_unit_file() {
    assert_eq!(parse_plist_file(b"not a plist at all", "p"), None);
    assert_eq!(parse_plist_file(b"", "p"), None);
    assert_eq!(parse_plist_file(b"[Unit]\nDescription=x\n", "p"), None);
}

#[test]
fn values_of_another_type_count_as_absent() {
    let content = doc(
        "<dict>\
         <key>Label</key><string>l</string>\
         <key>Program</key><integer>3</integer>\
         <key>ProgramArguments</key><string>not an array</string>\
         <key>RunAtLoad</key><string>true</string>\
         <key>KeepAlive</key><dict><key>SuccessfulExit</key><false/></dict>\
         <key>WorkingDirectory</key><array/>\
         <key>EnvironmentVariables</key><array/>\
         </dict>",
    );
    assert_eq!(parse_plist_file(&content, "p"), Some(bare("l", "p")));
}

#[test]
fn items_that_are_no_strings_are_left_out() {
    let content = doc(
        "<dict>\
         <key>Label</key><string>l</string>\
         <key>ProgramArguments</key><array><string>a</string><integer>1</integer><true/><string>b</string><array><string>x</string></array></array>\
         <key>EnvironmentVariables</key><dict><key>A</key><string>1</string><key>N</key><integer>2</integer><key>B</key><string>3</string></dict>\
         </dict>",
    );
    let agent = parse_plist_file(&content, "p").unwrap();
    assert_eq!(agent.program_arguments, Some(vec!["a".to_string(), "b".to_string()]));
    assert_eq!(
        agent.environment_variables,
        Some(vec![("A".to_string(), "1".to_string()), ("B".to_string(), "3".to_string())])
    );
}

#[test]
fn an_empty_array_and_an_empty_dictionary_are_present_and_empty() {
    let content = doc(
        "<dict><key>Label</key><string>l</string><key>ProgramArguments</key><array/><key>EnvironmentVariables</key><dict/></dict>",
    );
    let agent = parse_plist_file(&content, "p").unwrap();
    assert_eq!(agent.program_arguments, Some(vec![]));
    assert_eq!(agent.environment_variables, Some(vec![]));
}

#[test]
fn a_written_unit_file_reads_back_with_every_field() {
    let config = full_config();
    let content = render_unit_file(&config).unwrap();
    let agent = parse_plist_file(&content, "/d/com.example.full.plist").unwrap();
    assert_eq!(agent.label, config.label);
    assert_eq!(agent.program, config.program);
    assert_eq!(agent.program_arguments, config.program_arguments);
    assert_eq!(agent.run_at_load, config.run_at_load);
    assert_eq!(agent.keep_alive, config.keep_alive);
    assert_eq!(agent.working_directory, config.working_directory);
    assert_eq!(agent.standard_out_path, config.standard_out_path);
    assert_eq!(agent.standard_error_path, config.standard_error_path);
    assert_eq!(agent.environment_variables, config.environment_variables);
    assert_eq!(agent.file_path, "/d/com.example.full.plist");
    assert!(!agent.is_loaded);
    assert_eq!(agent.pid, None);
    assert_eq!(agent.order, None);
}

#[test]
fn a_written_unit_file_reads_back_without_the_fields_that_were_not_set() {
    let config = ServiceConfig {
        label: "only.label".to_string(),
        program: None,
        program_arguments: None,
        run_at_load: None,
        keep_alive: None,
        working_directory: None,
        standard_out_path: None,
        standard_error_path: None,
        environment_variables: None,
    };
    let content = render_unit_file(&config).unwrap();
    assert_eq!(parse_plist_file(&content, "x"), Some(bare("only.label", "x")));
    let text = String::from_utf8(content).unwrap();
    assert!(text.contains("<key>Label</key>"));
    assert!(text.contains("<string>only.label</string>"));
    for key in [
        "Program", "ProgramArguments", "RunAtLoad", "KeepAlive", "WorkingDirectory",
        "StandardOutPath", "StandardErrorPath", "EnvironmentVariables",
    ] {
        assert!(!text.contains(&format!("<key>{}</key>", key)), "{}", key);
    }
}

#[test]
fn empty_strings_and_false_flags_are_written_and_read_as_set() {
    let config = ServiceConfig {
        label: "".to_string(),
        program: Some("".to_string()),
        program_arguments: Some(vec![]),
        run_at_load: Some(false),
        keep_alive: Some(false),
        working_directory: Some("".to_string()),
        standard_out_path: None,
        standard_error_path: None,
        environment_variables: Some(vec![]),
    };
    let content = render_unit_file(&config).unwrap();
    let agent = parse_plist_file(&content, "x").unwrap();
    assert_eq!(agent.label, "");
    assert_eq!(agent.program, Some("".to_string()));
    assert_eq!(agent.program_arguments, Some(vec![]));
    assert_eq!(agent.run_at_load, Some(false));
    assert_eq!(agent.keep_alive, Some(false));
    assert_eq!(agent.working_directory, Some("".to_string()));
    assert_eq!(agent.standard_out_path, None);
    assert_eq!(agent.environment_variables, Some(vec![]));
}

#[test]
fn the_written_document_is_xml_with_the_keys_in_order() {
    let text = String::from_utf8(render_unit_file(&full_config()).unwrap()).unwrap();
    assert!(text.starts_with("<?xml"));
    let keys = [
        "<key>Label</key>", "<key>Program</key>", "<key>ProgramArguments</key>",
        "<key>RunAtLoad</key>", "<key>KeepAlive</key>", "<key>WorkingDirectory</key>",
        "<key>StandardOutPath</key>", "<key>StandardErrorPath</key>",
        "<key>EnvironmentVariables</key>",
    ];
    let mut last = 0;
    for key in keys {
        let at = text.find(key).unwrap();
        assert!(at >= last, "{}", key);
        last = at;
    }
    assert!(text.contains("<true/>"));
    assert!(text.contains("<false/>"));
}

#[test]
fn a_variable_named_twice_is_written_once_with_its_last_value() {
    let mut config = full_config();
    config.environment_variables = Some(vec![
        ("A".to_string(), "1".to_string()),
        ("B".to_string(), "2".to_string()),
        ("A".to_string(), "3".to_string()),
    ]);
    let content = render_unit_file(&config).unwrap();
    let agent = parse_plist_file(&content, "x").unwrap();
    assert_eq!(
        agent.environment_variables,
        Some(vec![("A".to_string(), "3".to_string()), ("B".to_string(), "2".to_string())])
    );
}
