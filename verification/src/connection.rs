//! The ways in which the proxy can reach the remote agent.

use vstd::prelude::*;

use crate::text::same_text;

verus! {

pub const BLUETOOTH: &'static str = "bluetooth";

pub const TCP: &'static str = "tcp";

pub const USB: &'static str = "usb";

/// This enumerates all the connection types that the
/// proxy can use to connect to the remote agent.
#[derive(Debug, PartialEq, Eq, Structural, Clone, Copy)]
pub enum ConnectionType {
    Bluetooth,
    Tcp,
    Usb,
}

/// The name of each connection type.
pub open spec fn connection_name(c: ConnectionType) -> Seq<char> {
    match c {
        ConnectionType::Bluetooth => BLUETOOTH@,
        ConnectionType::Tcp => TCP@,
        ConnectionType::Usb => USB@,
    }
}

/// The connection type that a name stands for, if any.
pub open spec fn connection_of_name(name: Seq<char>) -> Option<ConnectionType> {
    if name == BLUETOOTH@ {
        Some(ConnectionType::Bluetooth)
    } else if name == TCP@ {
        Some(ConnectionType::Tcp)
    } else if name == USB@ {
        Some(ConnectionType::Usb)
    } else {
        None
    }
}

/// The message that rejects an unknown connection type.
pub open spec fn invalid_connection_message(name: Seq<char>) -> Seq<char> {
    "Invalid connection type "@ + name + "."@
}

impl ConnectionType {
    pub fn to_string(&self) -> (res: String)
        ensures
            res@ == connection_name(*self),
    {
        match self {
            ConnectionType::Bluetooth => String::from_str(BLUETOOTH),
            ConnectionType::Tcp => String::from_str(TCP),
            ConnectionType::Usb => String::from_str(USB),
        }
    }

    pub fn from_string(connection_type: &str) -> (res: Result<ConnectionType, String>)
        ensures
            match connection_of_name(connection_type@) {
                Some(c) => res == Ok::<ConnectionType, String>(c),
                None => res matches Err(m) && m@ == invalid_connection_message(connection_type@),
            },
    {
        if same_text(connection_type, BLUETOOTH) {
            return Ok(ConnectionType::Bluetooth);
        }
        if same_text(connection_type, TCP) {
            return Ok(ConnectionType::Tcp);
        }
        if same_text(connection_type, USB) {
            return Ok(ConnectionType::Usb);
        }
        let mut message = String::from_str("Invalid connection type ");
        message.append(connection_type);
        message.append(".");
        Err(message)
    }
}

/// Reading the name of a connection type gives back that connection type.
pub proof fn connection_name_round_trip(c: ConnectionType)
    ensures
        connection_of_name(connection_name(c)) == Some(c),
{
    reveal_strlit("bluetooth");
    reveal_strlit("tcp");
    reveal_strlit("usb");
    assert(BLUETOOTH@.len() != TCP@.len());
    assert(BLUETOOTH@.len() != USB@.len());
    assert(TCP@[0] != USB@[0]);
}

/// A name that reads as a connection type is the name of that connection type.
pub proof fn connection_name_canonical(name: Seq<char>)
    ensures
        connection_of_name(name) matches Some(c) ==> connection_name(c) == name,
{
}

} // verus!
