use mavi_shell::process::ProcessOutput;
use mavi_shell::runner::{launcher_name, run_report, runner_args, RunnerError, FILTER_FLAG};

fn strings(v: &[&str]) -> Vec<String> {
    v.iter().map(|s| s.to_string()).collect()
}

#[test]
fn no_filter_has_no_flag() {
    let args = runner_args(&None);
    assert_eq!(args, strings(&["playwright", "test", "--config", "playwright.config.js"]));
    assert!(!args.iter().any(|a| a == FILTER_FLAG));
}

#[test]
fn empty_filter_has_no_flag() {
    let args = runner_args(&Some(String::new()));
    assert_eq!(args, strings(&["playwright", "test", "--config", "playwright.config.js"]));
}

#[test]
fn filter_follows_flag() {
    let args = runner_args(&Some("smoke".to_string()));
    assert_eq!(
        args,
        strings(&["playwright", "test", "--config", "playwright.config.js", "--grep", "smoke"])
    );
}

#[test]
fn launcher_per_platform() {
    assert_eq!(launcher_name(true), "npx.cmd");
    assert_eq!(launcher_name(false), "npx");
}

#[test]
fn passing_run_reports_stdout() {
    let out = Ok(ProcessOutput { success: true, stdout: b"3 passed".to_vec(), stderr: b"noise".to_vec() });
    let r = run_report("/work/app", &Some("smoke".to_string()), &out);
    assert_eq!(r.ok(), Some("Tests passed!\nCWD: \"/work/app\"\nTags: Some(\"smoke\")\n\n3 passed".to_string()));
}

#[test]
fn failing_run_reports_both_streams() {
    let out = Ok(ProcessOutput { success: false, stdout: b"1 failed".to_vec(), stderr: b"assertion".to_vec() });
    match run_report("/w", &None, &out) {
        Err(RunnerError::TestFailure(m)) => {
            assert_eq!(
                m,
                "Tests failed or errored!\nCWD: \"/w\"\nTags: None\n\nSTDOUT:\n1 failed\n\nSTDERR:\nassertion"
            );
            assert!(m.contains("1 failed") && m.contains("assertion"));
        }
        _ => panic!("expected a test failure"),
    }
}

#[test]
fn missing_launcher_is_a_launch_error() {
    let out: Result<ProcessOutput, String> = Err("No such file or directory (os error 2)".to_string());
    let r = run_report("C:\\proj\\src-tauri", &Some(String::new()), &out);
    match r {
        Err(e @ RunnerError::Launch(_)) => assert_eq!(
            e.message(),
            "Failed to execute process: No such file or directory (os error 2)\nCWD: \"C:\\\\proj\\\\src-tauri\"\nTags: Some(\"\")"
        ),
        _ => panic!("expected a launch error"),
    }
}

#[test]
fn report_decodes_invalid_output() {
    let out = Ok(ProcessOutput { success: true, stdout: b"ok\xfe".to_vec(), stderr: Vec::new() });
    let r = run_report("", &None, &out).ok().unwrap();
    assert_eq!(r, "Tests passed!\nCWD: \"\"\nTags: None\n\nok\u{fffd}");
}

#[test]
fn quoted_tags_are_escaped() {
    let out = Ok(ProcessOutput { success: true, stdout: Vec::new(), stderr: Vec::new() });
    let r = run_report("d", &Some("@a \"b\"".to_string()), &out).ok().unwrap();
    assert_eq!(r, "Tests passed!\nCWD: \"d\"\nTags: Some(\"@a \\\"b\\\"\")\n\n");
}
