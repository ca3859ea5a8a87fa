use er_archipelago::command::{
    get_event_reply, handle_command, parse_words, set_event_reply, CommandRequest, RichText,
    TextColor,
};
use er_archipelago::slot_data::EventFlagId;
use er_archipelago::text::{format_bool, parse_bool};

fn plain(text: &str) -> RichText {
    RichText::Plain(text.to_string())
}

fn colored(text: &str, color: TextColor) -> RichText {
    RichText::Color { text: text.to_string(), color }
}

fn usage(command: &str, usage: &str) -> Vec<RichText> {
    vec![
        colored(&format!("Invalid {command}."), TextColor::Red),
        plain(" Usage:\n"),
        plain(usage),
    ]
}

fn flag_to_get(arg: Option<&str>) -> Option<u32> {
    match handle_command("!getevent", arg, false) {
        CommandRequest::GetEvent(flag) => Some(flag.0),
        CommandRequest::Invalid(message) => {
            assert_eq!(message, usage("!getevent", "!getevent EVENT_FLAG"));
            None
        }
        _ => panic!("not a request for a flag"),
    }
}

fn flag_to_set(arg: Option<&str>) -> Option<(u32, bool)> {
    match handle_command("!setevent", arg, true) {
        CommandRequest::SetEvent(flag, value) => Some((flag.0, value)),
        CommandRequest::Invalid(message) => {
            assert_eq!(message, usage("!setevent", "!setevent EVENT_FLAG BOOL"));
            None
        }
        _ => panic!("not a request to set a flag"),
    }
}

#[test]
fn get_event_takes_a_number() {
    assert_eq!(flag_to_get(Some("71000")), Some(71000));
    assert_eq!(flag_to_get(Some("+5")), Some(5));
    assert_eq!(flag_to_get(Some("4294967295")), Some(u32::MAX));
    assert_eq!(flag_to_get(Some("4294967296")), None);
    assert_eq!(flag_to_get(Some("-1")), None);
    assert_eq!(flag_to_get(Some("")), None);
    assert_eq!(flag_to_get(Some(" 5")), None);
    assert_eq!(flag_to_get(None), None);
}

#[test]
fn set_event_takes_a_number_and_a_truth_value() {
    assert_eq!(flag_to_set(Some("71000 true")), Some((71000, true)));
    assert_eq!(flag_to_set(Some("71000    false")), Some((71000, false)));
    assert_eq!(flag_to_set(Some("71000")), None);
    assert_eq!(flag_to_set(Some("71000 true ")), None);
    assert_eq!(flag_to_set(Some(" 71000 true")), None);
    assert_eq!(flag_to_set(Some("71000\ttrue")), None);
    assert_eq!(flag_to_set(Some("71000 True")), None);
    assert_eq!(flag_to_set(Some("true 71000")), None);
    assert_eq!(flag_to_set(Some("1 true 2")), None);
    assert_eq!(flag_to_set(Some("")), None);
    assert_eq!(flag_to_set(None), None);
}

#[test]
fn flags_and_values_read_back() {
    for flag in [0, 9, 10, 71000, u32::MAX] {
        for value in [false, true] {
            for gap in [" ", "  ", "     "] {
                let arg = format!("{flag}{gap}{value}");
                assert_eq!(flag_to_set(Some(&arg)), Some((flag, value)));
            }
        }
    }
}

#[test]
fn set_event_is_for_debug_builds() {
    assert!(matches!(
        handle_command("!setevent", Some("1 true"), false),
        CommandRequest::Unknown
    ));
}

#[test]
fn other_commands_are_unknown() {
    for command in ["", "getevent", "!getEvent", "!help", "!getevent "] {
        assert!(matches!(handle_command(command, Some("1"), true), CommandRequest::Unknown));
    }
}

#[test]
fn two_words_name_a_flag_and_a_value() {
    let words = |texts: &[&str]| texts.iter().map(|text| text.to_string()).collect::<Vec<_>>();
    assert_eq!(parse_words(&words(&["7", "true"])), Some((7, true)));
    assert_eq!(parse_words(&words(&["7"])), None);
    assert_eq!(parse_words(&words(&["7", "true", ""])), None);
    assert_eq!(parse_words(&words(&["x", "true"])), None);
}

#[test]
fn get_event_is_answered() {
    assert_eq!(
        get_event_reply(EventFlagId(71000), Some(true)),
        vec![
            plain("Event "),
            colored("71000", TextColor::Blue),
            plain(": "),
            colored("true", TextColor::Green),
        ]
    );
    assert_eq!(
        get_event_reply(EventFlagId(0), Some(false)),
        vec![
            plain("Event "),
            colored("0", TextColor::Blue),
            plain(": "),
            colored("false", TextColor::Red),
        ]
    );
    assert_eq!(
        get_event_reply(EventFlagId(1), None),
        vec![colored("CSEventFlagMan not loaded", TextColor::Red)]
    );
}

#[test]
fn set_event_is_answered() {
    assert_eq!(
        set_event_reply(EventFlagId(u32::MAX), true, true),
        vec![
            plain("Set event "),
            colored("4294967295", TextColor::Blue),
            plain(" to "),
            colored("true", TextColor::Green),
        ]
    );
    assert_eq!(
        set_event_reply(EventFlagId(1), false, false),
        vec![colored("CSEventFlagMan not loaded", TextColor::Red)]
    );
}

#[test]
fn truth_values_are_words() {
    assert_eq!(format_bool(true), "true");
    assert_eq!(format_bool(false), "false");
    assert_eq!(parse_bool("true"), Some(true));
    assert_eq!(parse_bool("false"), Some(false));
    assert_eq!(parse_bool("1"), None);
    assert_eq!(parse_bool(""), None);
}
