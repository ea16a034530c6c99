//! What holds of line endings, of texts that are shown, and of how ports are named.

use vstd::prelude::*;
use vstd::string::*;
use vstd::utf8::*;

use crate::laws::{value_of_digit, value_of_digits};
use crate::line::{Color, Style};
use crate::serial::{ReconnectType, ReconnectionStrictness, SerialPortInfo, UsbPortInfo};
use crate::settings::Level;
use crate::settings::line_ending::EndingView;

verus! {

/// The common line endings are a line feed, a carriage return, both, and nothing, whether
/// they are written with escapes or not; any other is what its escapes stand for.
pub proof fn law_line_endings(s: Seq<char>)
    ensures
        ({
            let bytes = crate::settings::line_ending::own_bytes(
                crate::settings::line_ending::own_ending(s),
            );
            &&& s == seq!['\n'] || s == seq!['\\', 'n'] ==> bytes == seq![0x0au8]
            &&& s == seq!['\r'] || s == seq!['\\', 'r'] ==> bytes == seq![0x0du8]
            &&& s == seq!['\r', '\n'] || s == seq!['\\', 'r', '\\', 'n'] ==> bytes == seq![
                0x0du8,
                0x0au8,
            ]
            &&& s.len() == 0 ==> bytes.len() == 0
            &&& s.len() > 0 && s != seq!['\n'] && s != seq!['\\', 'n'] && s != seq!['\r'] && s
                != seq!['\\', 'r'] && s != seq!['\r', '\n'] && s != seq!['\\', 'r', '\\', 'n']
                ==> bytes == crate::foreign::unescaped(s)
        }),
{
    let feed = seq!['\n'];
    let ret = seq!['\r'];
    let both = seq!['\r', '\n'];
    assert(is_ascii_chars(feed));
    assert(is_ascii_chars(ret));
    assert(is_ascii_chars(both));
    is_ascii_chars_encode_utf8(feed);
    is_ascii_chars_encode_utf8(ret);
    is_ascii_chars_encode_utf8(both);
    assert(encode_utf8(feed) =~= seq![0x0au8]);
    assert(encode_utf8(ret) =~= seq![0x0du8]);
    assert(encode_utf8(both) =~= seq![0x0du8, 0x0au8]);
    assert(encode_utf8(Seq::<char>::empty()) =~= Seq::<u8>::empty());
    let feed_written = seq!['\\', 'n'];
    let ret_written = seq!['\\', 'r'];
    let both_written = seq!['\\', 'r', '\\', 'n'];
    assert(feed[0] != ret[0]);
    assert(feed_written[1] != ret_written[1]);
    assert(feed_written[0] != both[0]);
    assert(ret_written[0] != both[0]);
    assert(both_written.len() == 4);
}

/// What is sent ends as what is received if the setting asks for that, in any case of its
/// letters; what is sent by a macro may also end as what is typed.
pub proof fn law_inherited_line_endings(s: Seq<char>)
    ensures
        crate::settings::line_ending::tx_ending(s) is InheritRx
            <==> crate::text::same_ignoring_ascii_case(s, "InheritRX"@),
        !(crate::settings::line_ending::tx_ending(s) is InheritTx),
        crate::settings::line_ending::macro_ending(s) is InheritRx
            <==> crate::text::same_ignoring_ascii_case(s, "InheritRX"@),
        crate::text::same_ignoring_ascii_case(s, "InheritTX"@)
            && !crate::text::same_ignoring_ascii_case(s, "InheritRX"@)
            ==> crate::settings::line_ending::macro_ending(s) is InheritTx,
{
}

/// The bytes that end a macro: its own, those of what is received, or those of what is
/// typed, which may be those of what is received.
pub proof fn law_bytes_behind_a_macro(own: EndingView, rx: EndingView, tx: EndingView)
    ensures
        ({
            let bytes = crate::settings::line_ending::macro_bytes(own, rx, tx);
            &&& own matches EndingView::Preset(_, b) ==> bytes == b
            &&& own matches EndingView::Custom(_, b) ==> bytes == b
            &&& own is InheritRx ==> bytes == crate::settings::line_ending::macro_bytes(rx, rx, tx)
                || rx is InheritTx || rx is InheritRx
            &&& own is InheritTx && tx is InheritRx ==> bytes
                == crate::settings::line_ending::macro_bytes(EndingView::InheritRx, rx, tx)
            &&& own is InheritTx ==> (tx matches EndingView::Preset(_, b) ==> bytes == b)
            &&& own is InheritTx ==> (tx matches EndingView::Custom(_, b) ==> bytes == b)
        }),
{
}

/// A character that can be shown stays as it is, and in its style. A tabulator is always
/// shown by its escape; any other control character only if that is asked for, and nothing
/// is left of it otherwise.
pub proof fn law_cleaning(chars: Seq<(char, Style)>, c: char, style: Style, replace: bool)
    ensures
        ({
            let before = crate::line_clean::all_shown(chars, replace);
            let after = crate::line_clean::all_shown(chars.push((c, style)), replace);
            let gray = Style::plain().with_fg(Color::DarkGray);
            let control = c as u32 <= 0x1f || 0x7f <= c as u32 <= 0x9f;
            &&& !control ==> after == before.push((c, style))
            &&& c == '\t' ==> after == before + seq![('\\', gray), ('t', gray)]
            &&& control && c != '\t' && !replace ==> after == before
            &&& replace && c == '\n' ==> after == before + seq![('\\', gray), ('n', gray)]
            &&& replace && c == '\r' ==> after == before + seq![('\\', gray), ('r', gray)]
            &&& replace && c as u32 <= 0x1f && c != '\t' && c != '\n' && c != '\r' ==> {
                let shown = after.skip(before.len() as int);
                &&& after.take(before.len() as int) == before
                &&& shown.len() == 4
                &&& shown[0] == ('\\', gray) && shown[1] == ('x', gray)
                &&& 16 * value_of_digit(shown[2].0) + value_of_digit(shown[3].0) == c as u32
            }
        }),
{
    let before = crate::line_clean::all_shown(chars, replace);
    let after = crate::line_clean::all_shown(chars.push((c, style)), replace);
    let gray = Style::plain().with_fg(Color::DarkGray);
    assert(chars.push((c, style)).drop_last() =~= chars);
    let shown = crate::line_clean::shown((c, style), replace);
    assert(after == before + shown);
    let control = c as u32 <= 0x1f || 0x7f <= c as u32 <= 0x9f;
    if !control {
        assert(after =~= before.push((c, style)));
    } else if c == '\t' {
        assert(shown =~= seq![('\\', gray), ('t', gray)]);
    } else if !replace {
        assert(after =~= before);
    } else if c == '\n' {
        assert(shown =~= seq![('\\', gray), ('n', gray)]);
    } else if c == '\r' {
        assert(shown =~= seq![('\\', gray), ('r', gray)]);
    } else if c as u32 <= 0x1f {
        let one = seq![c];
        assert(is_ascii_chars(one));
        is_ascii_chars_encode_utf8(one);
        let bytes = encode_utf8(one);
        assert(bytes =~= seq![c as u8]);
        reveal_with_fuel(crate::line_clean::hex_escapes, 2);
        assert(bytes.drop_last() =~= Seq::<u8>::empty());
        assert(crate::line_clean::hex_escapes(bytes) =~= seq![
            '\\',
            'x',
            crate::text::digit((c as u8 / 16) as nat),
            crate::text::digit((c as u8 % 16) as nat),
        ]);
        assert(after.skip(before.len() as int) =~= shown);
        assert(after.take(before.len() as int) =~= before);
    }
}

/// The ids of a device are written in four digits, which read as the id.
pub proof fn law_ids_read_back(n: u16)
    ensures
        crate::serial::hex_id(n).len() == 4,
        value_of_digits(crate::serial::hex_id(n), 16) == n,
{
    crate::laws::law_digits_have_the_value(n as nat, 16);
    let digits = crate::text::digits(n as nat, 16);
    lemma_four_digits(n as nat);
    if digits.len() < 4 {
        crate::buffer::shown_laws::lemma_padded_value(digits, (4 - digits.len()) as nat, 16);
    }
}

proof fn lemma_four_digits(n: nat)
    requires
        n < 0x10000,
    ensures
        crate::text::digits(n, 16).len() <= 4,
{
    reveal_with_fuel(crate::text::digits, 5);
}

/// A port is described by its name, then by its rate if that is given, and then by its kind
/// if there is anything to say of it.
pub proof fn law_port_in_one_line(port: SerialPortInfo, baud: u32)
    ensures
        ({
            let plain = crate::serial::port_summary(port, None);
            let rated = crate::serial::port_summary(port, Some(baud));
            let name = port.port_name@;
            &&& plain.take(name.len() as int) == name
            &&& rated.take(name.len() as int) == name
            &&& rated == name + " @ "@ + crate::text::digits(baud as nat, 10) + plain.skip(
                name.len() as int,
            )
            &&& port.port_type is Unknown ==> plain == name
            &&& port.port_type is PciPort ==> plain == name + " | PCI"@
        }),
{
    let plain = crate::serial::port_summary(port, None);
    let rated = crate::serial::port_summary(port, Some(baud));
    let name = port.port_name@;
    reveal_strlit(" | ");
    reveal_strlit("PCI");
    reveal_strlit(" | PCI");
    assert(plain.take(name.len() as int) =~= name);
    assert(rated.take(name.len() as int) =~= name);
    assert(rated =~= name + " @ "@ + crate::text::digits(baud as nat, 10) + plain.skip(
        name.len() as int,
    ));
    if port.port_type is Unknown {
        assert(plain =~= name);
    }
    if port.port_type is PciPort {
        assert(plain =~= name + " | PCI"@);
    }
}

/// A device is the one that is asked for if its ids are; its serial number only counts if one
/// is asked for.
pub proof fn law_device_is_asked_for(device: UsbPortInfo, query: crate::serial::UsbView)
    ensures
        device.answers(query) ==> device.vid == query.vid && device.pid == query.pid,
        query.serial_number is None && device.vid == query.vid && device.pid == query.pid
            ==> device.answers(query),
        query.serial_number is Some && device@.serial_number != query.serial_number
            ==> !device.answers(query),
        query.serial_number is Some && device@.serial_number == query.serial_number && device.vid
            == query.vid && device.pid == query.pid ==> device.answers(query),
{
}

/// The stricter the setting, the fewer ways lead back to a port: none if reconnections are
/// off, the same port or device at first, then one with the same ids, and any of the same
/// name last.
pub proof fn law_strictness(setting: ReconnectionStrictness, kind: ReconnectType)
    ensures
        setting is Disabled ==> !setting.permits(kind),
        setting is High ==> (setting.permits(kind) <==> kind is PerfectMatch || kind is UsbStrict),
        setting is Med ==> (setting.permits(kind) <==> !(kind is LastDitch)),
        setting is Low ==> setting.permits(kind),
{
}

/// The levels are ordered by how severe they are.
pub proof fn law_levels_are_ordered(level: Level)
    ensures
        Level::Trace.severity() < Level::Debug.severity() < Level::Info.severity()
            < Level::Warn.severity() < Level::Error.severity(),
        level.severity() <= Level::Error.severity(),
        level.severity() >= Level::Trace.severity(),
{
}

} // verus!
