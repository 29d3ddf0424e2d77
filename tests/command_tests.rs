use reflow_controller::commands::{parse_command, CommandError};
use reflow_controller::sd_profile_reader::{str_eq, SdProfileError, SdProfileReader};
use reflow_controller::Event;

#[test]
fn plain_commands() {
    assert_eq!(parse_command("START"), Ok(Event::StartCommand));
    assert_eq!(parse_command("  STOP\r\n"), Ok(Event::StopCommand));
    assert_eq!(parse_command("RESET\n"), Ok(Event::ResetCommand));
    assert_eq!(parse_command("LIST_PROFILES"), Ok(Event::ListProfilesRequest));
}

#[test]
fn set_profile_command() {
    assert_eq!(
        parse_command("SET_PROFILE leaded.txt\n"),
        Ok(Event::LoadProfile(String::from("leaded.txt")))
    );
    assert_eq!(parse_command("SET_PROFILE"), Err(CommandError::MissingProfileName));
    let long = format!("SET_PROFILE {}", "x".repeat(65));
    assert_eq!(parse_command(&long), Err(CommandError::ProfileNameTooLong));
    let fits = format!("SET_PROFILE {}", "x".repeat(64));
    assert!(matches!(parse_command(&fits), Ok(Event::LoadProfile(n)) if n.len() == 64));
}

#[test]
fn unknown_commands() {
    assert_eq!(parse_command("start"), Err(CommandError::Unknown));
    assert_eq!(parse_command(""), Err(CommandError::Unknown));
    assert_eq!(parse_command("SET_PROFILEX y"), Err(CommandError::Unknown));
}

#[test]
fn store_reads_builtin_profiles() {
    let mut reader = SdProfileReader::new();
    assert!(reader.init().is_ok());
    assert!(reader.initialized);
    let p = reader.read_profile("low_temp.txt").unwrap();
    assert_eq!(p.name, "Low Temperature");
    assert_eq!(p.steps.len(), 6);
    assert_eq!(p.steps[3].set_temperature, 180_000);
    assert_eq!(p.steps[5].target_time, 255);
    let p = reader.read_profile("lead_free.txt").unwrap();
    assert_eq!(p.steps[3].set_temperature, 245_000);
    assert!(matches!(reader.read_profile("other.txt"), Err(SdProfileError::FileNotFound)));
    assert_eq!(reader.list_profiles().unwrap().len(), 3);
}

#[test]
fn string_equality() {
    assert!(str_eq("abc", "abc"));
    assert!(!str_eq("abc", "abd"));
    assert!(!str_eq("abc", "ab"));
}
