//! The notification display: what a message on the status socket asks
//! for, and what the notification says.

use vstd::prelude::*;
use vstd::string::StringSliceAdditionalSpecFns;
use crate::text::{copy_range, find_from, find_mark, same_bytes, trim_bounds, trimmed};

verus! {

/// How many bytes of a connection are read for a message.
pub const MESSAGE_READ_SIZE: usize = 1024;

/// How long a notification asks to be shown, in milliseconds.
pub const NOTIFICATION_TIMEOUT_MS: u32 = 6000;

/// How long the display waits before it closes a notification, in
/// seconds.
pub const NOTIFICATION_CLOSE_SECS: u64 = 5;

/// The blank that parts the words of a message.
pub const BLANK: u8 = 32;

/// The dash that parts a failure from its text.
pub const DASH: u8 = 45;

/// What a message on the status socket asks for.
pub enum Notice {
    /// `STATUS Connected` or `STATUS Disconnected`.
    Status { connected: bool },
    /// `FAIL - <text>`, with the bytes of the text.
    Failure { text: Vec<u8> },
    /// `STATUS` with anything else behind it.
    UnknownStatus,
    /// Neither `STATUS` nor `FAIL`.
    UnknownCommand,
}

/// A notice with its text as a plain sequence.
pub enum Meaning {
    Status { connected: bool },
    Failure { text: Seq<u8> },
    UnknownStatus,
    UnknownCommand,
}

impl Notice {
    /// What the notice says.
    pub open spec fn meaning(self) -> Meaning {
        match self {
            Notice::Status { connected } => Meaning::Status { connected },
            Notice::Failure { text } => Meaning::Failure { text: text@ },
            Notice::UnknownStatus => Meaning::UnknownStatus,
            Notice::UnknownCommand => Meaning::UnknownCommand,
        }
    }
}

/// The first word of a message: what stands before its first blank.
pub open spec fn first_word(s: Seq<u8>) -> Seq<u8> {
    s.subrange(0, find_from(s, BLANK, 0))
}

/// The second word of a message: what stands between its first blank and
/// the next; nothing where the message has no blank.
pub open spec fn second_word(s: Seq<u8>) -> Seq<u8> {
    let start = if find_from(s, BLANK, 0) < s.len() {
        find_from(s, BLANK, 0) + 1
    } else {
        s.len() as int
    };
    s.subrange(start, find_from(s, BLANK, start))
}

/// The text of a failure: what stands behind the first dash, with every
/// further dash turned into a blank and the white space around it taken
/// off; nothing where the message has no dash.
pub open spec fn failure_text(s: Seq<u8>) -> Seq<u8> {
    let dash = find_from(s, DASH, 0);
    if dash >= s.len() {
        Seq::empty()
    } else {
        trimmed(
            s.subrange(dash + 1, s.len() as int).map_values(
                |b: u8|
                    if b == DASH {
                        BLANK
                    } else {
                        b
                    },
            ),
        )
    }
}

/// What the bytes of one read ask for, white space around them aside.
pub open spec fn meaning_of(bytes: Seq<u8>) -> Meaning {
    let message = trimmed(bytes);
    if first_word(message) == "STATUS".spec_bytes() {
        if second_word(message) == "Connected".spec_bytes() {
            Meaning::Status { connected: true }
        } else if second_word(message) == "Disconnected".spec_bytes() {
            Meaning::Status { connected: false }
        } else {
            Meaning::UnknownStatus
        }
    } else if first_word(message) == "FAIL".spec_bytes() {
        Meaning::Failure { text: failure_text(message) }
    } else {
        Meaning::UnknownCommand
    }
}

/// The text of a failure message.
pub fn read_failure_text(message: &[u8]) -> (text: Vec<u8>)
    ensures
        text@ == failure_text(message@),
{
    let dash = find_mark(message, DASH, 0);
    if dash >= message.len() {
        return Vec::new();
    }
    let ghost rest = message@.subrange(dash + 1, message@.len() as int);
    let ghost plain = rest.map_values(
        |b: u8|
            if b == DASH {
                BLANK
            } else {
                b
            },
    );
    let mut words: Vec<u8> = Vec::new();
    let mut i: usize = dash + 1;
    while i < message.len()
        invariant
            dash < i <= message@.len(),
            rest == message@.subrange(dash + 1, message@.len() as int),
            plain == rest.map_values(
                |b: u8|
                    if b == DASH {
                        BLANK
                    } else {
                        b
                    },
            ),
            words@ == plain.subrange(0, i - dash - 1),
        decreases message@.len() - i,
    {
        let b = message[i];
        words.push(
            if b == DASH {
                BLANK
            } else {
                b
            },
        );
        assert(words@ =~= plain.subrange(0, i - dash));
        i += 1;
    }
    assert(words@ =~= plain);
    let (from, to) = trim_bounds(words.as_slice());
    copy_range(words.as_slice(), from, to)
}

/// Reads a message off the bytes of one read.
pub fn parse_notice(bytes: &[u8]) -> (notice: Notice)
    ensures
        notice.meaning() == meaning_of(bytes@),
{
    let (from, to) = trim_bounds(bytes);
    let message = copy_range(bytes, from, to);
    let message = message.as_slice();
    let end = find_mark(message, BLANK, 0);
    if same_bytes(message, 0, end, "STATUS".as_bytes()) {
        let start = if end < message.len() {
            end + 1
        } else {
            end
        };
        let next = find_mark(message, BLANK, start);
        if same_bytes(message, start, next, "Connected".as_bytes()) {
            Notice::Status { connected: true }
        } else if same_bytes(message, start, next, "Disconnected".as_bytes()) {
            Notice::Status { connected: false }
        } else {
            Notice::UnknownStatus
        }
    } else if same_bytes(message, 0, end, "FAIL".as_bytes()) {
        Notice::Failure { text: read_failure_text(message) }
    } else {
        Notice::UnknownCommand
    }
}

/// The headline of a notification of the connection's status.
pub fn status_summary() -> (summary: String)
    ensures
        summary@ == "VPN Status"@,
{
    String::from_str("VPN Status")
}

/// The headline of a notification of a failure.
pub fn failure_summary() -> (summary: String)
    ensures
        summary@ == "VPN Handler Error"@,
{
    String::from_str("VPN Handler Error")
}

/// The icon of every notification.
pub fn icon() -> (name: String)
    ensures
        name@ == "system"@,
{
    String::from_str("system")
}

/// Where the display asks for the public address of the machine.
pub fn address_service() -> (url: String)
    ensures
        url@ == "https://api.ipify.org?format=json"@,
{
    String::from_str("https://api.ipify.org?format=json")
}

/// The body of a notification of the connection's status: the status and
/// the public address.
pub fn status_body(connected: bool, ip: &str) -> (body: String)
    ensures
        body@ == "VPN "@ + (if connected {
            "Connected"@
        } else {
            "Disconnected"@
        }) + ". IP: "@ + ip@,
{
    let mut body = String::from_str("VPN ");
    if connected {
        body.append("Connected");
    } else {
        body.append("Disconnected");
    }
    body.append(". IP: ");
    body.append(ip);
    body
}

} // verus!
