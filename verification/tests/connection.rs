use native_api_1c::ffi::connection::{Connection, MessageCode};
use native_api_1c::ffi::string_utils::os_string_nil;

const CODES: [(MessageCode, u16); 10] = [
    (MessageCode::NoIcon, 1000),
    (MessageCode::Ordinary, 1001),
    (MessageCode::Attention, 1002),
    (MessageCode::Important, 1003),
    (MessageCode::VeryImportant, 1004),
    (MessageCode::Info, 1005),
    (MessageCode::Fail, 1006),
    (MessageCode::DialogAttention, 1007),
    (MessageCode::DialogInfo, 1008),
    (MessageCode::DialogFail, 1009),
];

#[test]
fn message_codes_have_the_hosts_numbers() {
    for (severity, code) in CODES {
        assert_eq!(severity.code(), code);
        assert_eq!(MessageCode::from_code(code), Some(severity));
    }
    assert_eq!(MessageCode::from_code(999), None);
    assert_eq!(MessageCode::from_code(1010), None);
    assert_eq!(MessageCode::from_code(0), None);
}

#[test]
fn connection_is_not_null() {
    assert_eq!(Connection::new(0), None);
    assert_eq!(Connection::new(0x40).unwrap().addr(), 0x40);
}

#[test]
fn add_error_makes_a_terminated_message() {
    let connection = Connection::new(0x40).unwrap();
    let message = connection.add_error(MessageCode::Fail, "AddIn", "Ошибка");
    assert_eq!(message.connection, 0x40);
    assert_eq!(message.code, 1006);
    assert_eq!(message.source, os_string_nil("AddIn"));
    assert_eq!(message.description, os_string_nil("Ошибка"));
    assert_eq!(message.scode, 0);
    let message = connection.add_error(MessageCode::NoIcon, "", "");
    assert_eq!((message.code, message.source, message.description), (1000, vec![0], vec![0]));
}

#[test]
fn external_event_makes_three_terminated_strings() {
    let connection = Connection::new(0x80).unwrap();
    let event = connection.external_event("caller", "name", "data");
    assert_eq!(event.connection, 0x80);
    assert_eq!(event.caller, os_string_nil("caller"));
    assert_eq!(event.name, os_string_nil("name"));
    assert_eq!(event.data, os_string_nil("data"));
}
