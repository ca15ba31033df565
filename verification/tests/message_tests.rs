use dserver::command::{Command, CommandError};
use dserver::message::{Message, MessageParseError, Parsed};
use dserver::value::Value;

fn parse_complete(text: &str) -> Message {
    match Message::try_from(text.as_bytes()).unwrap() {
        Parsed::Complete(m) => m,
        other => panic!("expected a complete message, got {:?}", other),
    }
}

#[test]
fn should_add_messages_could_be_parse() {
    let message = "ADD|ServerName|s|localhost|";
    let result = parse_complete(message);
    assert_eq!(result.command, Command::Add);
    assert_eq!(result.key, "ServerName".to_string());
    assert_eq!(result.value, Some(Value::Text("localhost".to_string())));

    let message = "ADD|Logs|l|true|";
    let result = parse_complete(message);
    assert_eq!(result.command, Command::Add);
    assert_eq!(result.key, "Logs".to_string());
    assert_eq!(result.value, Some(Value::Logical(true)));

    let message = "ADD|DefaultPi|f32|3.1415|";
    let bytes = message.as_bytes();
    let result = match Message::try_from(bytes).unwrap() {
        Parsed::ThinFloatLiteral { key, literal } => {
            let bits = literal.parse::<f32>().ok().map(f32::to_bits);
            Message::from_thin_float(key, bits).unwrap()
        }
        other => panic!("expected a pending float, got {:?}", other),
    };
    assert_eq!(result.command, Command::Add);
    assert_eq!(result.key, "DefaultPi".to_string());
    assert_eq!(result.value, Some(Value::ThinFloat(3.1415_f32.to_bits())));
}

#[test]
fn should_get_message_could_be_parse() {
    let message = "GET|ServerName|";
    let result = parse_complete(message);
    assert_eq!(result.command, Command::Get);
    assert_eq!(result.key, "ServerName".to_string());

    let message = "DEL|ConnectionString|";
    let result = parse_complete(message);
    assert_eq!(result.command, Command::Del);
    assert_eq!(result.key, "ConnectionString".to_string());
}

#[test]
fn should_long_key_name_raise_an_error() {
    let message = "GET|This is your server name|";
    let bytes = message.as_bytes();
    let result = Message::try_from(bytes);
    assert_eq!(result, Err(MessageParseError::KeyNameTooLong));
}

#[test]
fn should_empty_message_raise_an_message_empty_error() {
    let message = "";
    assert_eq!(message.len(), 0);
    let bytes = message.as_bytes();
    let result = Message::try_from(bytes);
    assert_eq!(result, Err(MessageParseError::Empty));
}

#[test]
#[should_panic]
fn should_valid_string_could_be_convert_to_command() {
    let cmd = Command::from_str("ADD").unwrap();
    assert_eq!(cmd, Command::Add);
    // Commands are case-sensitive
    Command::from_str("add").expect("Command is case-sensitive");
}

#[test]
fn unknown_command_raises_a_command_error() {
    let result = Message::try_from("PUT|key|".as_bytes());
    assert_eq!(result, Err(MessageParseError::Command));
    assert_eq!(Command::from_str("PUT"), Err(CommandError::Unknown));
}

#[test]
fn an_unknown_command_wins_over_an_overlong_key() {
    // the command token is classified before the key is examined
    let result = Message::try_from("PUT|abcdefghijklmnopq|".as_bytes());
    assert_eq!(result, Err(MessageParseError::Command));
    // and before a missing key delimiter is noticed
    let result = Message::try_from("PUT|".as_bytes());
    assert_eq!(result, Err(MessageParseError::Command));
}

#[test]
fn invalid_utf8_raises_an_encoding_error() {
    let bytes: Vec<u8> = vec![0xff, 0xfe, b'|'];
    assert_eq!(Message::try_from(&bytes), Err(MessageParseError::Encoding));
}

#[test]
fn non_ascii_text_raises_an_encoding_error() {
    let result = Message::try_from("G\u{c9}T|key|".as_bytes());
    assert_eq!(result, Err(MessageParseError::Encoding));
}

#[test]
fn missing_delimiters_raise_malformed_errors() {
    // no delimiter after the command token at all
    assert_eq!(
        Message::try_from("GET".as_bytes()),
        Err(MessageParseError::Malformed)
    );
    // no delimiter terminating the key
    assert_eq!(
        Message::try_from("GET|key".as_bytes()),
        Err(MessageParseError::Malformed)
    );
    // an ADD missing its type tag field
    assert_eq!(
        Message::try_from("ADD|key|".as_bytes()),
        Err(MessageParseError::MalformedAdd)
    );
    // an ADD whose literal is not terminated
    assert_eq!(
        Message::try_from("ADD|key|s|value".as_bytes()),
        Err(MessageParseError::MalformedAdd)
    );
}

#[test]
fn integer_literals_parse_for_their_declared_width() {
    let m = parse_complete("ADD|k|i8|-128|");
    assert_eq!(m.value, Some(Value::ThinNumber(-128)));
    let m = parse_complete("ADD|k|i8|+99|");
    assert_eq!(m.value, Some(Value::ThinNumber(99)));
    let m = parse_complete("ADD|k|i8|007|");
    assert_eq!(m.value, Some(Value::ThinNumber(7)));
    let m = parse_complete("ADD|k|i16|-32768|");
    assert_eq!(m.value, Some(Value::MidNumber(-32768)));
    let m = parse_complete("ADD|k|i32|2147483647|");
    assert_eq!(m.value, Some(Value::LargeNumber(2147483647)));
}

#[test]
fn out_of_range_or_junk_literals_are_fatal_for_the_request() {
    assert_eq!(
        Message::try_from("ADD|k|i8|128|".as_bytes()),
        Err(MessageParseError::MalformedAdd)
    );
    assert_eq!(
        Message::try_from("ADD|k|i16|32768|".as_bytes()),
        Err(MessageParseError::MalformedAdd)
    );
    assert_eq!(
        Message::try_from("ADD|k|i32|2147483648|".as_bytes()),
        Err(MessageParseError::MalformedAdd)
    );
    assert_eq!(
        Message::try_from("ADD|k|i8|12x|".as_bytes()),
        Err(MessageParseError::MalformedAdd)
    );
    assert_eq!(
        Message::try_from("ADD|k|i8||".as_bytes()),
        Err(MessageParseError::MalformedAdd)
    );
    assert_eq!(
        Message::try_from("ADD|k|l|yes|".as_bytes()),
        Err(MessageParseError::MalformedAdd)
    );
    assert_eq!(
        Message::try_from("ADD|k|f32|not-a-number|".as_bytes())
            .map(|p| match p {
                Parsed::ThinFloatLiteral { key, literal } =>
                    Message::from_thin_float(key, literal.parse::<f32>().ok().map(f32::to_bits)),
                other => panic!("expected a pending float, got {:?}", other),
            })
            .unwrap(),
        Err(MessageParseError::MalformedAdd)
    );
}

#[test]
fn a_sixteen_byte_key_is_still_accepted() {
    let m = parse_complete("GET|abcdefghijklmnop|");
    assert_eq!(m.key, "abcdefghijklmnop");
    assert_eq!(
        Message::try_from("GET|abcdefghijklmnopq|".as_bytes()),
        Err(MessageParseError::KeyNameTooLong)
    );
}

#[test]
fn an_unrecognized_type_tag_yields_no_value() {
    let m = parse_complete("ADD|k|u64|17|");
    assert_eq!(m.command, Command::Add);
    assert_eq!(m.key, "k");
    assert_eq!(m.value, None);
}

#[test]
fn a_false_literal_parses_to_logical_false() {
    let m = parse_complete("ADD|k|l|false|");
    assert_eq!(m.value, Some(Value::Logical(false)));
}

#[test]
fn large_float_literals_complete_through_their_bits() {
    let result = match Message::try_from("ADD|Pi|f64|3.25|".as_bytes()).unwrap() {
        Parsed::LargeFloatLiteral { key, literal } => {
            let bits = literal.parse::<f64>().ok().map(f64::to_bits);
            Message::from_large_float(key, bits).unwrap()
        }
        other => panic!("expected a pending float, got {:?}", other),
    };
    assert_eq!(result.key, "Pi");
    assert_eq!(result.value, Some(Value::LargeFloat(3.25_f64.to_bits())));
}

#[test]
fn text_values_keep_the_client_literal() {
    let m = parse_complete("ADD|motd|s|hello world|");
    assert_eq!(m.value, Some(Value::Text("hello world".to_string())));
    // the value field is not length-limited at parse time
    let long = format!("ADD|k|s|{}|", "x".repeat(100));
    let m = parse_complete(&long);
    assert_eq!(m.value, Some(Value::Text("x".repeat(100))));
}
