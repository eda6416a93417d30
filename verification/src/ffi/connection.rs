//! Messages from the add-in to the host: diagnostics and external events.

use super::string_utils::{os_string_nil, utf16_encode};
use vstd::prelude::*;

verus! {

/// How the host is to show a diagnostic message.
#[derive(Clone, Copy, Debug, PartialEq, Eq, Structural)]
pub enum MessageCode {
    /// No icon.
    NoIcon,
    /// The ">" icon.
    Ordinary,
    /// The "!" icon.
    Attention,
    /// The "!!" icon.
    Important,
    /// The "!!!" icon.
    VeryImportant,
    /// The "i" icon.
    Info,
    /// The "err" icon.
    Fail,
    /// A dialog with the exclamation icon.
    DialogAttention,
    /// A dialog with the information icon.
    DialogInfo,
    /// A dialog with the error icon.
    DialogFail,
}

impl MessageCode {
    /// The number that the host knows this severity by.
    pub open spec fn spec_code(self) -> u16 {
        match self {
            MessageCode::NoIcon => 1000,
            MessageCode::Ordinary => 1001,
            MessageCode::Attention => 1002,
            MessageCode::Important => 1003,
            MessageCode::VeryImportant => 1004,
            MessageCode::Info => 1005,
            MessageCode::Fail => 1006,
            MessageCode::DialogAttention => 1007,
            MessageCode::DialogInfo => 1008,
            MessageCode::DialogFail => 1009,
        }
    }

    /// The number that the host knows this severity by.
    pub fn code(&self) -> (code: u16)
        ensures
            code == self.spec_code(),
    {
        match self {
            MessageCode::NoIcon => 1000,
            MessageCode::Ordinary => 1001,
            MessageCode::Attention => 1002,
            MessageCode::Important => 1003,
            MessageCode::VeryImportant => 1004,
            MessageCode::Info => 1005,
            MessageCode::Fail => 1006,
            MessageCode::DialogAttention => 1007,
            MessageCode::DialogInfo => 1008,
            MessageCode::DialogFail => 1009,
        }
    }

    /// The severity that the host knows by `code`, if there is one.
    pub fn from_code(code: u16) -> (severity: Option<MessageCode>)
        ensures
            severity matches Some(s) ==> s.spec_code() == code,
            severity is None <==> !(1000 <= code <= 1009),
    {
        match code {
            1000 => Some(MessageCode::NoIcon),
            1001 => Some(MessageCode::Ordinary),
            1002 => Some(MessageCode::Attention),
            1003 => Some(MessageCode::Important),
            1004 => Some(MessageCode::VeryImportant),
            1005 => Some(MessageCode::Info),
            1006 => Some(MessageCode::Fail),
            1007 => Some(MessageCode::DialogAttention),
            1008 => Some(MessageCode::DialogInfo),
            1009 => Some(MessageCode::DialogFail),
            _ => None,
        }
    }
}

/// A diagnostic as the host takes it: the severity's number, and source and
/// description as terminated UTF-16.
pub struct ErrorMessage {
    /// Address of the connection that the message goes to.
    pub connection: usize,
    pub code: u16,
    pub source: Vec<u16>,
    pub description: Vec<u16>,
    /// The host's status code for the message; the binding always sends 0.
    pub scode: i64,
}

/// An external event as the host takes it: three terminated UTF-16 strings.
pub struct ExternalEvent {
    /// Address of the connection that the event goes to.
    pub connection: usize,
    pub caller: Vec<u16>,
    pub name: Vec<u16>,
    pub data: Vec<u16>,
}

/// The host's connection object, through which an add-in reports back. The
/// binding holds no more of it than where it is; the host keeps it alive for
/// as long as the add-in lives.
#[derive(Clone, Copy, Debug, PartialEq, Eq, Structural)]
pub struct Connection {
    addr: usize,
}

impl Connection {
    /// The connection object at `addr`, or none for the null address.
    pub fn new(addr: usize) -> (connection: Option<Connection>)
        ensures
            addr == 0 ==> connection is None,
            addr != 0 ==> connection is Some && connection->0.spec_addr() == addr,
    {
        if addr == 0 {
            None
        } else {
            Some(Connection { addr })
        }
    }

    /// Where the host keeps the connection object.
    pub closed spec fn spec_addr(self) -> usize {
        self.addr
    }

    /// Where the host keeps the connection object.
    pub fn addr(&self) -> (addr: usize)
        ensures
            addr == self.spec_addr(),
    {
        self.addr
    }

    /// The diagnostic to hand to the host for a message of severity `code`.
    pub fn add_error(&self, code: MessageCode, source: &str, description: &str) -> (message:
        ErrorMessage)
        ensures
            message.connection == self.spec_addr(),
            message.code == code.spec_code(),
            message.source@ == utf16_encode(source@).push(0u16),
            message.description@ == utf16_encode(description@).push(0u16),
            message.scode == 0,
    {
        ErrorMessage {
            connection: self.addr,
            code: code.code(),
            source: os_string_nil(source),
            description: os_string_nil(description),
            scode: 0,
        }
    }

    /// The external event to hand to the host.
    pub fn external_event(&self, caller: &str, name: &str, data: &str) -> (event: ExternalEvent)
        ensures
            event.connection == self.spec_addr(),
            event.caller@ == utf16_encode(caller@).push(0u16),
            event.name@ == utf16_encode(name@).push(0u16),
            event.data@ == utf16_encode(data@).push(0u16),
    {
        ExternalEvent {
            connection: self.addr,
            caller: os_string_nil(caller),
            name: os_string_nil(name),
            data: os_string_nil(data),
        }
    }
}

} // verus!
