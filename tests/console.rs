use rpi_hal::console::{parse_command, Command, CTRL_C};

#[test]
fn commands_are_matched_verbatim() {
    assert_eq!(parse_command("led1 on"), Some(Command::Led1On));
    assert_eq!(parse_command("led1 off"), Some(Command::Led1Off));
    assert_eq!(parse_command("led2 on"), Some(Command::Led2On));
    assert_eq!(parse_command("led2 off"), Some(Command::Led2Off));
    assert_eq!(parse_command("prog1 on"), Some(Command::Prog1On));
    assert_eq!(parse_command("help"), Some(Command::Help));
}

#[test]
fn other_text_is_no_command() {
    assert_eq!(parse_command(""), None);
    assert_eq!(parse_command("led1"), None);
    assert_eq!(parse_command("led1 on "), None);
    assert_eq!(parse_command("LED1 ON"), None);
    assert_eq!(parse_command("help!"), None);
    assert_eq!(CTRL_C, 3);
}
