use mavi_shell::machine_id::{
    get_machine_id, identify, identity_from_query, identity_query_args, MachineIdentity,
    MACHINE_GUID_KEY, UNKNOWN_HWID,
};
use mavi_shell::process::ProcessOutput;
use mavi_shell::text::find_key_value;

fn finished(success: bool, stdout: &[u8]) -> Result<ProcessOutput, String> {
    Ok(ProcessOutput { success, stdout: stdout.to_vec(), stderr: Vec::new() })
}

const LISTING: &str = "\r\nHKEY_LOCAL_MACHINE\\SOFTWARE\\Microsoft\\Cryptography\r\n    MachineGuid    REG_SZ    4c4c4544-0033-3510-8058-b4c04f4a3732\r\n\r\n";

#[test]
fn reads_guid_from_listing() {
    let q = finished(true, LISTING.as_bytes());
    assert_eq!(get_machine_id(&q), "4c4c4544-0033-3510-8058-b4c04f4a3732");
}

#[test]
fn launch_failure_gives_sentinel() {
    let q: Result<ProcessOutput, String> = Err("program not found".to_string());
    assert_eq!(get_machine_id(&q), "UNKNOWN_HWID");
    assert_eq!(UNKNOWN_HWID, "UNKNOWN_HWID");
}

#[test]
fn failed_query_gives_sentinel() {
    let q = finished(false, LISTING.as_bytes());
    assert_eq!(get_machine_id(&q), "UNKNOWN_HWID");
}

#[test]
fn listing_without_key_gives_sentinel() {
    let q = finished(true, b"ERROR: The system was unable to find the specified registry key or value.\r\n");
    assert_eq!(get_machine_id(&q), "UNKNOWN_HWID");
    let q = finished(true, b"");
    assert_eq!(get_machine_id(&q), "UNKNOWN_HWID");
}

#[test]
fn short_matching_line_is_skipped() {
    let text = "MachineGuid REG_SZ\nother line\n  MachineGuid  REG_SZ  second-guid  \nMachineGuid REG_SZ third\n";
    assert_eq!(find_key_value(text, "MachineGuid"), Some("second-guid".to_string()));
}

#[test]
fn first_matching_line_wins() {
    let text = "a MachineGuid b first\nMachineGuid REG_SZ second";
    assert_eq!(find_key_value(text, MACHINE_GUID_KEY), Some("first".to_string()));
}

#[test]
fn last_line_without_newline_counts() {
    let text = "header\nMachineGuid REG_SZ tail-guid";
    assert_eq!(find_key_value(text, MACHINE_GUID_KEY), Some("tail-guid".to_string()));
}

#[test]
fn key_inside_a_word_matches() {
    let text = "xMachineGuidy REG_SZ inner";
    assert_eq!(find_key_value(text, MACHINE_GUID_KEY), Some("inner".to_string()));
}

#[test]
fn unicode_white_space_separates_words() {
    let text = "MachineGuid\u{3000}REG_SZ\u{00a0}wide-guid\u{2003}";
    assert_eq!(find_key_value(text, MACHINE_GUID_KEY), Some("wide-guid".to_string()));
}

#[test]
fn carriage_return_is_not_part_of_value() {
    let text = "MachineGuid REG_SZ crlf-guid\r\nnext";
    assert_eq!(find_key_value(text, MACHINE_GUID_KEY), Some("crlf-guid".to_string()));
}

#[test]
fn invalid_bytes_become_replacement_characters() {
    let q = finished(true, b"MachineGuid REG_SZ ab\xffcd\n");
    assert_eq!(get_machine_id(&q), "ab\u{fffd}cd");
}

#[test]
fn identity_keeps_the_two_outcomes_apart() {
    match identify("MachineGuid REG_SZ g") {
        MachineIdentity::Identified(v) => assert_eq!(v, "g"),
        MachineIdentity::Unavailable => panic!("expected an identifier"),
    }
    assert!(matches!(identify("nothing here"), MachineIdentity::Unavailable));
    let q = finished(true, b"MachineGuid x");
    let id = identity_from_query(&q);
    assert!(matches!(id, MachineIdentity::Unavailable));
    assert_eq!(id.to_text(), "UNKNOWN_HWID");
}

#[test]
fn query_arguments() {
    let args = identity_query_args();
    assert_eq!(
        args,
        vec![
            "query".to_string(),
            "HKEY_LOCAL_MACHINE\\SOFTWARE\\Microsoft\\Cryptography".to_string(),
            "/v".to_string(),
            "MachineGuid".to_string(),
        ]
    );
}
