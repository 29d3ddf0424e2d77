use reflow_controller::profile::StepName;
use reflow_controller::profile_parser::parse_profile_text;
use reflow_controller::sd_profile_reader::{SdProfileError, SdProfileReader};

const LEAD_FREE: &str = "# lead-free paste\n\
name: My Lead Free\n\
preheat, 150.0, 90, 90, 2.0, false\n\
Soak,180,180,90,2,false\n\
RAMP,217.5,210,30,3.0,false\n\
ReflowRamp,245,240,30,2.0,false\n\
reflow_cool,217,270,30,2.0,true\n\
cooling,50,330,60,5.0,true\n";

#[test]
fn parses_a_full_profile() {
    let reader = SdProfileReader::new();
    let p = reader.parse_profile_content(LEAD_FREE, "custom.txt").unwrap();
    assert_eq!(p.name, "My Lead Free");
    assert_eq!(p.steps.len(), 6);
    assert_eq!(p.steps[0].step_name, StepName::Preheat);
    assert_eq!(p.steps[0].set_temperature, 150_000);
    assert_eq!(p.steps[0].max_rate, 2_000);
    assert_eq!(p.steps[2].step_name, StepName::Ramp);
    assert_eq!(p.steps[2].set_temperature, 217_500);
    assert_eq!(p.steps[3].step_name, StepName::ReflowRamp);
    assert_eq!(p.steps[4].step_name, StepName::ReflowCool);
    assert!(p.steps[4].is_cooling);
    assert_eq!(p.steps[5].target_time, 330);
    assert_eq!(p.steps[5].step_time, 60);
    assert!(!p.steps[5].has_fan);
}

#[test]
fn default_name_from_file_name() {
    let body: String = LEAD_FREE.lines().filter(|l| !l.starts_with("name:")).collect::<Vec<_>>().join("\r\n");
    let p = parse_profile_text(&body, "leaded.txt").unwrap();
    assert_eq!(p.name, "Leaded");
    let p = parse_profile_text(&body, "mine.txt").unwrap();
    assert_eq!(p.name, "Custom Profile");
}

#[test]
fn negative_and_fractional_decimals() {
    let text = LEAD_FREE.replace("150.0", "-0.125").replace("5.0", "0.05");
    let p = parse_profile_text(&text, "x.txt").unwrap();
    assert_eq!(p.steps[0].set_temperature, -125);
    assert_eq!(p.steps[5].max_rate, 50);
}

#[test]
fn malformed_rows_are_parse_errors() {
    for bad in ["150.0, 90, 90, 2.0, false", "150.x", "1.2345", "99999999", "-"] {
        let text = LEAD_FREE.replace("150.0", bad);
        assert!(
            matches!(parse_profile_text(&text, "x.txt"), Err(SdProfileError::ParseError)),
            "{}",
            bad
        );
    }
    let text = LEAD_FREE.replace("Soak", "Dwell");
    assert!(matches!(parse_profile_text(&text, "x.txt"), Err(SdProfileError::ParseError)));
    let text = LEAD_FREE.replace("false\nSoak", "no\nSoak");
    assert!(matches!(parse_profile_text(&text, "x.txt"), Err(SdProfileError::ParseError)));
    let text = LEAD_FREE.replace(", 90, 90,", ", -90, 90,");
    assert!(matches!(parse_profile_text(&text, "x.txt"), Err(SdProfileError::ParseError)));
}

#[test]
fn wrong_row_count_is_invalid_format() {
    let five: String = LEAD_FREE.lines().take(7).collect::<Vec<_>>().join("\n");
    assert!(matches!(parse_profile_text(&five, "x.txt"), Err(SdProfileError::InvalidFormat)));
    let seven = format!("{}cooling,40,400,60,5.0,true\n", LEAD_FREE);
    assert!(matches!(parse_profile_text(&seven, "x.txt"), Err(SdProfileError::InvalidFormat)));
    assert!(matches!(parse_profile_text("", "x.txt"), Err(SdProfileError::InvalidFormat)));
}

#[test]
fn overlong_name_is_invalid_format() {
    let text = LEAD_FREE.replace("My Lead Free", &"n".repeat(33));
    assert!(matches!(parse_profile_text(&text, "x.txt"), Err(SdProfileError::InvalidFormat)));
    let text = LEAD_FREE.replace("My Lead Free", &"n".repeat(32));
    assert_eq!(parse_profile_text(&text, "x.txt").unwrap().name.len(), 32);
}
