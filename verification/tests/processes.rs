use tauri_runtime_cef::process::{
    cache_base, cache_directory_names, command_line_args, engine_started, is_cef_helper_process, on_before_command_line_processing, process_role,
    settings, CommandLineChange, ProcessRole, RuntimeInitAttribute, Settings,
};

fn arg(name: &str, value: Option<&str>) -> (String, Option<String>) {
    (name.to_string(), value.map(|value| value.to_string()))
}

#[test]
fn arguments_of_all_attributes_in_order() {
    let attributes = vec![
        RuntimeInitAttribute::CommandLineArgs { args: vec![arg("one", None), arg("two", Some("2"))] },
        RuntimeInitAttribute::CommandLineArgs { args: vec![] },
        RuntimeInitAttribute::CommandLineArgs { args: vec![arg("three", None)] },
    ];
    assert_eq!(
        command_line_args(&attributes),
        vec![arg("one", None), arg("two", Some("2")), arg("three", None)]
    );
}

#[test]
fn arguments_become_switches_by_value_or_dash() {
    let changes = on_before_command_line_processing(&vec![
        arg("remote-debugging-port", Some("9222")),
        arg("--disable-gpu", None),
        arg("file.html", None),
        arg("", None),
        arg("-x", Some("")),
    ]);
    assert_eq!(
        changes,
        vec![
            CommandLineChange::AppendSwitchWithValue(
                "remote-debugging-port".to_string(),
                "9222".to_string()
            ),
            CommandLineChange::AppendSwitch("--disable-gpu".to_string()),
            CommandLineChange::AppendArgument("file.html".to_string()),
            CommandLineChange::AppendArgument(String::new()),
            CommandLineChange::AppendSwitchWithValue("-x".to_string(), String::new()),
        ]
    );
}

#[test]
fn processes_with_a_type_are_helpers() {
    assert_eq!(process_role(0, -1), ProcessRole::Browser);
    assert_eq!(process_role(1, 0), ProcessRole::Helper);
    assert_eq!(process_role(1, 7), ProcessRole::Helper);
}

#[test]
fn settings_follow_the_sandbox() {
    assert_eq!(
        settings(false, "/cache/app/cef".to_string()),
        Settings {
            no_sandbox: 1,
            cache_path: "/cache/app/cef".to_string(),
            external_message_pump: 1,
        }
    );
    assert_eq!(settings(true, String::new()).no_sandbox, 0);
}

#[test]
fn helper_names() {
    assert!(is_cef_helper_process(Some("App Helper")));
    assert!(is_cef_helper_process(Some("App Helper (GPU)")));
    assert!(is_cef_helper_process(Some("App Helper (Renderer)")));
    assert!(is_cef_helper_process(Some("App Helper (Plugin)")));
    assert!(is_cef_helper_process(Some("App Helper (Alerts)")));
    assert!(!is_cef_helper_process(Some("App")));
    assert!(!is_cef_helper_process(Some("Helper")));
    assert!(!is_cef_helper_process(Some("App Helper (Other)")));
    assert!(!is_cef_helper_process(Some("")));
    assert!(!is_cef_helper_process(None));
}

#[test]
fn data_is_kept_below_the_cache_directory() {
    assert_eq!(cache_base(Some("/cache"), "/tmp"), "/cache");
    assert_eq!(cache_base(None, "/tmp"), "/tmp");
    assert_eq!(cache_directory_names("com.example.app".to_string()), vec!["com.example.app", "cef"]);
}

#[test]
fn engine_starts_with_one() {
    assert!(engine_started(1));
    assert!(!engine_started(0));
    assert!(!engine_started(-1));
    assert!(!engine_started(2));
}
