//! Telemetry decoders: the battery-level and serial-number request builders
//! and the parsers for their validated responses.
//!
//! Each decoder owns one request/response exchange: it builds a fixed request,
//! lets the caller perform the transport round trip, validates the raw
//! response against the request, and decodes it.  Any failure — missing
//! response, bad status, bad checksum, header mismatch — yields the sentinel
//! (battery 0, empty serial) rather than an error, so one absent or
//! misbehaving device never aborts a scan.

use vstd::prelude::*;

use crate::message::{
    checksum_spec,
    valid_response,
    zero_message,
    Message,
    CHECKSUM_BYTE,
    MESSAGE_LEN,
};

verus! {

/// The settle delay, in milliseconds, between writing a request and reading
/// the response: the device needs this long to prepare its answer.
pub const QUERY_DELAY_MS: u64 = 5;

/// Offset of the raw battery magnitude in a battery response.
pub const BATTERY_BYTE: usize = 9;

/// First offset of the serial-number text in a serial response.
pub const SERIAL_START: usize = 8;

/// The battery-level request: command selector 0x1f at byte 1, attribute
/// selector 0x02/0x07/0x80 at bytes 5..8, checksum at byte 88.
pub open spec fn battery_request_spec() -> Seq<u8> {
    let base = zero_message().update(1, 0x1fu8).update(5, 0x02u8).update(6, 0x07u8).update(
        7,
        0x80u8,
    );
    base.update(CHECKSUM_BYTE as int, checksum_spec(base))
}

/// The serial-number request: command selector 0x08 at byte 1, attribute
/// selector 0x16/0x82 at bytes 5 and 7, checksum at byte 88.
pub open spec fn serial_request_spec() -> Seq<u8> {
    let base = zero_message().update(1, 0x08u8).update(5, 0x16u8).update(7, 0x82u8);
    base.update(CHECKSUM_BYTE as int, checksum_spec(base))
}

/// Rescales a raw 0-255 battery magnitude to a 0-100 percentage,
/// truncating toward zero.
pub open spec fn scale_spec(raw: u8) -> u8 {
    ((raw as int) * 100 / 255) as u8
}

/// The serial-number characters of a response, read from byte `i` on:
/// each byte becomes one character, up to but excluding the first zero
/// byte (or the end of the buffer).
pub open spec fn serial_chars(s: Seq<u8>, i: int) -> Seq<char>
    decreases MESSAGE_LEN as int - i,
{
    if i < SERIAL_START as int || i >= MESSAGE_LEN as int || s[i] == 0 {
        Seq::empty()
    } else {
        seq![s[i] as char] + serial_chars(s, i + 1)
    }
}

/// What the battery decoder returns for a response that was read in full:
/// the rescaled byte 9 of a valid response, and the sentinel 0 otherwise.
pub open spec fn battery_level_of(resp: Seq<u8>) -> u8 {
    if valid_response(battery_request_spec(), resp) {
        scale_spec(resp[BATTERY_BYTE as int])
    } else {
        0u8
    }
}

/// What the serial decoder returns for a response that was read in full:
/// the zero-terminated text at bytes 8+ of a valid response, and the empty
/// sentinel otherwise.
pub open spec fn serial_of(resp: Seq<u8>) -> Seq<char> {
    if valid_response(serial_request_spec(), resp) {
        serial_chars(resp, SERIAL_START as int)
    } else {
        Seq::empty()
    }
}

/// Builds the battery-level request.
pub fn battery_request() -> (m: Message)
    ensures
        m.wf(),
        m@ == battery_request_spec(),
{
    let mut m = Message::new();
    m.set_byte(1, 0x1f);
    m.set_byte(5, 0x02);
    m.set_byte(6, 0x07);
    m.set_byte(7, 0x80);
    let c = m.checksum();
    m.set_byte(CHECKSUM_BYTE, c);
    m
}

/// Builds the serial-number request.
pub fn serial_request() -> (m: Message)
    ensures
        m.wf(),
        m@ == serial_request_spec(),
{
    let mut m = Message::new();
    m.set_byte(1, 0x08);
    m.set_byte(5, 0x16);
    m.set_byte(7, 0x82);
    let c = m.checksum();
    m.set_byte(CHECKSUM_BYTE, c);
    m
}

/// Rescales a raw 0-255 battery magnitude to 0-100, truncating.
fn scale_battery(raw: u8) -> (p: u8)
    ensures
        p == scale_spec(raw),
{
    (((raw as u32) * 100) / 255) as u8
}

/// Relies on String::push: appends the given character to the end of the
/// string.
#[verifier::external_body]
fn push_char(s: &mut String, c: char)
    ensures
        final(s)@ == old(s)@.push(c),
{
    s.push(c);
}

/// Reads the serial text out of a validated response: bytes from offset 8
/// up to but excluding the first zero byte (or the end of the buffer), each
/// taken as one character.
fn parse_serial(m: &Message) -> (serial: String)
    requires
        m.wf(),
    ensures
        serial@ == serial_chars(m@, SERIAL_START as int),
{
    let mut result = String::new();
    let mut i: usize = SERIAL_START;
    while i < MESSAGE_LEN
        invariant
            m.wf(),
            SERIAL_START <= i <= MESSAGE_LEN,
            forall|j: int| SERIAL_START as int <= j < i ==> m@[j] != 0,
            result@ == Seq::new((i - SERIAL_START) as nat, |k: int| m@[SERIAL_START + k] as char),
        ensures
            SERIAL_START <= i <= MESSAGE_LEN,
            forall|j: int| SERIAL_START as int <= j < i ==> m@[j] != 0,
            result@ == Seq::new((i - SERIAL_START) as nat, |k: int| m@[SERIAL_START + k] as char),
            i == MESSAGE_LEN || m@[i as int] == 0,
        decreases MESSAGE_LEN - i,
    {
        let b = m.byte_at(i);
        if b == 0 {
            break;
        }
        push_char(&mut result, b as char);
        i = i + 1;
        proof {
            assert(result@ =~= Seq::new(
                (i - SERIAL_START) as nat,
                |k: int| m@[SERIAL_START + k] as char,
            ));
        }
    }
    proof {
        lemma_serial_chars_scan(m@, SERIAL_START as int, i as int);
    }
    result
}

/// Where the bytes from `a` up to `i` are all nonzero and `i` is the first
/// zero byte (or the end of the buffer), the serial text is exactly those
/// bytes as characters.
proof fn lemma_serial_chars_scan(s: Seq<u8>, a: int, i: int)
    requires
        SERIAL_START as int <= a <= i <= MESSAGE_LEN as int,
        forall|j: int| a <= j < i ==> s[j] != 0,
        i == MESSAGE_LEN as int || s[i] == 0,
    ensures
        serial_chars(s, a) == Seq::new((i - a) as nat, |k: int| s[a + k] as char),
    decreases i - a,
{
    if a == i {
        assert(serial_chars(s, a) =~= Seq::new((i - a) as nat, |k: int| s[a + k] as char));
    } else {
        lemma_serial_chars_scan(s, a + 1, i);
        assert(seq![s[a] as char] + Seq::new((i - a - 1) as nat, |k: int| s[a + 1 + k] as char)
            =~= Seq::new((i - a) as nat, |k: int| s[a + k] as char));
    }
}

/// Reads the battery level out of one query's raw response, if any came
/// back: validates the response against the battery request and rescales
/// its byte 9 to a 0-100 percentage.  A missing or invalid response yields
/// the sentinel 0, which callers treat as "no data".
pub fn battery_level(response: Option<Message>) -> (level: u8)
    requires
        response matches Some(m) ==> m.wf(),
    ensures
        response matches Some(m) ==> level == battery_level_of(m@),
        response is None ==> level == 0,
{
    match response {
        None => 0,
        Some(raw) => {
            let request = battery_request();
            match request.query(raw) {
                Ok(valid) => {
                    let b = valid.byte_at(BATTERY_BYTE);
                    scale_battery(b)
                },
                Err(_) => 0,
            }
        },
    }
}

/// Reads the serial number out of one query's raw response, if any came
/// back: validates the response against the serial request and decodes the
/// zero-terminated text at bytes 8+.  A missing or invalid response yields
/// the empty sentinel, the caller's sign for "no serial".
pub fn serial_number(response: Option<Message>) -> (serial: String)
    requires
        response matches Some(m) ==> m.wf(),
    ensures
        response matches Some(m) ==> serial@ == serial_of(m@),
        response is None ==> serial@ == Seq::<char>::empty(),
{
    match response {
        None => String::new(),
        Some(raw) => {
            let request = serial_request();
            match request.query(raw) {
                Ok(valid) => parse_serial(&valid),
                Err(_) => String::new(),
            }
        },
    }
}

} // verus!
