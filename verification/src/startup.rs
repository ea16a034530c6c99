//! Where the program keeps its files, and which port it is asked to open.

use vstd::prelude::*;
use vstd::string::*;

use crate::serial::{SerialPortInfo, SerialPortType, UsbPortInfo};
use crate::text::concat3;

verus! {

/// Where the configuration, logs and other files go, unless another place is
/// asked for: next to the program if it is portable, or if a configuration is
/// there already; else where the user's configuration is.
pub fn determine_working_directory(
    portable: bool,
    config_exists: bool,
    program_directory: String,
    user_directory: Option<String>,
) -> (r: Option<String>)
    ensures
        r == (if portable || config_exists {
            Some(program_directory)
        } else {
            user_directory
        }),
{
    if portable || config_exists {
        Some(program_directory)
    } else {
        user_directory
    }
}

/// A path within the directory of the program's files.
pub open spec fn adjacent(directory: Seq<char>, path: Seq<char>) -> Seq<char> {
    if path.len() > 0 && path[0] == '/' {
        path
    } else if directory.len() == 0 {
        path
    } else if directory.last() == '/' {
        directory + path
    } else {
        directory + "/"@ + path
    }
}

/// A path within the directory of the program's files.
pub fn config_adjacent_path(directory: &str, path: &str) -> (r: String)
    ensures
        r@ == adjacent(directory@, path@),
{
    let path_len: usize = path.unicode_len();
    let directory_len: usize = directory.unicode_len();
    if path_len > 0 && path.get_char(0) == '/' {
        return path.to_owned();
    }
    if directory_len == 0 {
        return path.to_owned();
    }
    if directory.get_char(directory_len - 1) == '/' {
        crate::text::concat2(directory, path)
    } else {
        concat3(directory, "/", path)
    }
}

/// How many characters a text has before a colon.
pub open spec fn before_colon(s: Seq<char>) -> int
    decreases s.len(),
{
    if s.len() == 0 || s[0] == ':' {
        0
    } else {
        1 + before_colon(s.skip(1))
    }
}

/// What a hexadecimal number of at most four digits stands for.
pub open spec fn usb_id(s: Seq<char>) -> Option<u16> {
    if 0 < s.len() <= 4 {
        match crate::tui::esp::hex_number(s) {
            Some(n) => Some(n as u16),
            None => None,
        }
    } else {
        None
    }
}

/// The vendor and product ids, and the serial number if there is one, that are
/// asked for, separated by colons.
pub open spec fn usb_query(s: Seq<char>) -> Option<(u16, u16, Option<Seq<char>>)> {
    let first = before_colon(s);
    let rest = s.skip(first + 1);
    let second = before_colon(rest);
    if first >= s.len() {
        None
    } else {
        match (usb_id(s.take(first)), usb_id(rest.take(second))) {
            (Some(vid), Some(pid)) => Some(
                (
                    vid,
                    pid,
                    if second < rest.len() {
                        Some(rest.skip(second + 1))
                    } else {
                        None
                    },
                ),
            ),
            _ => None,
        }
    }
}

fn find_colon(s: &str, from: usize) -> (r: usize)
    requires
        from <= s@.len(),
    ensures
        from <= r <= s@.len(),
        r - from == before_colon(s@.skip(from as int)),
{
    let len: usize = s.unicode_len();
    let mut at: usize = from;
    while at < len && s.get_char(at) != ':'
        invariant
            len == s@.len(),
            from <= at <= len,
            before_colon(s@.skip(from as int)) == (at - from) + before_colon(s@.skip(at as int)),
        decreases len - at,
    {
        assert(s@.skip(at as int).skip(1) =~= s@.skip(at + 1));
        at += 1;
    }
    at
}

fn parse_usb_id(s: &str) -> (r: Option<u16>)
    ensures
        r == usb_id(s@),
{
    let len: usize = s.unicode_len();
    if len == 0 || len > 4 {
        return None;
    }
    let mut value: u32 = 0;
    let mut i: usize = 0;
    assert(s@.take(0) =~= Seq::<char>::empty());
    let ghost mut limit: int = 1;
    while i < len
        invariant
            len == s@.len(),
            0 < len <= 4,
            i <= len,
            crate::tui::esp::hex_number(s@.take(i as int)) == Some(value as int),
            value < limit,
            limit == (if i == 0 {
                1int
            } else if i == 1 {
                16
            } else if i == 2 {
                256
            } else if i == 3 {
                4096
            } else {
                65536
            }),
            forall|j: int|
                0 <= j < i ==> crate::tui::esp::hex_digit_value(#[trigger] s@[j]) is Some,
        decreases len - i,
    {
        let c = s.get_char(i);
        proof {
            assert(s@.take(i + 1).drop_last() =~= s@.take(i as int));
            assert(s@.take(i + 1).last() == c);
        }
        match crate::tui::esp::digit_value(c) {
            Some(d) => {
                value = 16 * value + d as u32;
                proof {
                    limit = 16 * limit;
                }
            },
            None => {
                proof {
                    lemma_bad_digit(s@, i as int);
                }
                return None;
            },
        }
        i += 1;
    }
    assert(s@.take(len as int) =~= s@);
    Some(value as u16)
}

proof fn lemma_bad_digit(s: Seq<char>, at: int)
    requires
        0 <= at < s.len(),
        crate::tui::esp::hex_digit_value(s[at]) is None,
    ensures
        crate::tui::esp::hex_number(s) is None,
    decreases s.len(),
{
    if at < s.len() - 1 {
        lemma_bad_digit(s.drop_last(), at);
    }
}

/// Why a port cannot be opened as asked.
#[derive(Clone, Copy, Debug, PartialEq, Eq, Structural)]
pub struct BadUsbQuery;

/// The port that is asked for: a USB device by its ids if there is a colon, else a
/// port by its name.
pub fn requested_port(port: String) -> (r: Result<SerialPortInfo, BadUsbQuery>)
    ensures
        if before_colon(port@) < port@.len() {
            match usb_query(port@) {
                Some((vid, pid, serial_number)) => r matches Ok(info) && {
                    &&& info.port_name@.len() == 0
                    &&& info.port_type matches SerialPortType::UsbPort(usb) && usb@ == (
                    crate::serial::UsbView {
                        vid,
                        pid,
                        serial_number,
                        manufacturer: None,
                        product: None,
                    })
                },
                None => r == Err::<SerialPortInfo, BadUsbQuery>(BadUsbQuery),
            }
        } else {
            r == Ok::<SerialPortInfo, BadUsbQuery>(
                SerialPortInfo { port_name: port, port_type: SerialPortType::Unknown },
            )
        },
{
    let len: usize = port.as_str().unicode_len();
    let first: usize = find_colon(port.as_str(), 0);
    assert(port@.skip(0) =~= port@);
    if first == len {
        return Ok(SerialPortInfo { port_name: port, port_type: SerialPortType::Unknown });
    }
    let second: usize = find_colon(port.as_str(), first + 1);
    proof {
        let rest = port@.skip(first + 1);
        assert(port@.subrange(0, first as int) =~= port@.take(first as int));
        assert(port@.subrange(first + 1, second as int) =~= rest.take(second - (first + 1)));
        if second < len {
            assert(port@.subrange(second + 1, len as int) =~= rest.skip(second - first));
        }
    }
    let vid = parse_usb_id(port.as_str().substring_char(0, first));
    let pid = parse_usb_id(port.as_str().substring_char(first + 1, second));
    let serial_number = if second < len {
        Some(port.as_str().substring_char(second + 1, len).to_owned())
    } else {
        None
    };
    match (vid, pid) {
        (Some(vid), Some(pid)) => {
            let usb = UsbPortInfo { vid, pid, serial_number, manufacturer: None, product: None };
            Ok(SerialPortInfo { port_name: String::new(), port_type: SerialPortType::UsbPort(usb) })
        },
        _ => Err(BadUsbQuery),
    }
}

} // verus!
