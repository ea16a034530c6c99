//! What holds of the profiles for devices, and of what is shown while they are flashed.

use vstd::prelude::*;
use vstd::string::*;

use crate::laws::value_of_digits;
use crate::tui::esp::{
    EspEvent, EspFlashHelper, EspPopup, EspProfile, Field, FieldError, FieldValue, FlashProgress,
    Kind, SegmentAction,
};

verus! {

/// The value of a key is the last that was given for it.
pub proof fn law_last_value_counts(fields: Seq<Field>, key: Seq<char>)
    ensures
        match crate::tui::esp::last_field(fields, fields.len() as int, key) {
            Some(value) => exists|i: int|
                {
                    &&& 0 <= i < fields.len()
                    &&& (#[trigger] fields[i]).key@ == key
                    &&& fields[i].value == value
                    &&& forall|j: int| i < j < fields.len() ==> (#[trigger] fields[j]).key@ != key
                },
            None => forall|j: int| 0 <= j < fields.len() ==> (#[trigger] fields[j]).key@ != key,
        },
{
    lemma_last_field(fields, fields.len() as int, key);
}

proof fn lemma_last_field(fields: Seq<Field>, n: int, key: Seq<char>)
    requires
        0 <= n <= fields.len(),
    ensures
        match crate::tui::esp::last_field(fields, n, key) {
            Some(value) => exists|i: int|
                {
                    &&& 0 <= i < n
                    &&& (#[trigger] fields[i]).key@ == key
                    &&& fields[i].value == value
                    &&& forall|j: int| i < j < n ==> (#[trigger] fields[j]).key@ != key
                },
            None => forall|j: int| 0 <= j < n ==> (#[trigger] fields[j]).key@ != key,
        },
    decreases n,
{
    if n > 0 {
        if fields[n - 1].key@ == key {
            assert(fields[n - 1].value == fields[n - 1].value);
        } else {
            lemma_last_field(fields, n - 1, key);
        }
    }
}

/// Of several things wrong with the fields of a profile the first is told; if nothing is,
/// each field is in order.
pub proof fn law_first_wrong_field_is_told(
    fields: Seq<Field>,
    kind_of: spec_fn(Seq<char>) -> Kind,
)
    requires
        fields.len() <= usize::MAX,
    ensures
        match crate::tui::esp::first_error(fields, kind_of, 0) {
            Some(error) => exists|i: int|
                {
                    &&& 0 <= i < fields.len()
                    &&& crate::tui::esp::field_error(
                        #[trigger] fields[i],
                        kind_of(fields[i].key@),
                        i as usize,
                    ) == Some(error)
                    &&& forall|j: int|
                        0 <= j < i ==> crate::tui::esp::field_error(
                            #[trigger] fields[j],
                            kind_of(fields[j].key@),
                            j as usize,
                        ) is None
                },
            None => forall|j: int|
                0 <= j < fields.len() ==> crate::tui::esp::field_error(
                    #[trigger] fields[j],
                    kind_of(fields[j].key@),
                    j as usize,
                ) is None,
        },
{
    lemma_first_error(fields, kind_of, 0);
}

proof fn lemma_first_error(fields: Seq<Field>, kind_of: spec_fn(Seq<char>) -> Kind, from: int)
    requires
        0 <= from,
    ensures
        match crate::tui::esp::first_error(fields, kind_of, from) {
            Some(error) => exists|i: int|
                {
                    &&& from <= i < fields.len()
                    &&& crate::tui::esp::field_error(
                        #[trigger] fields[i],
                        kind_of(fields[i].key@),
                        i as usize,
                    ) == Some(error)
                    &&& forall|j: int|
                        from <= j < i ==> crate::tui::esp::field_error(
                            #[trigger] fields[j],
                            kind_of(fields[j].key@),
                            j as usize,
                        ) is None
                },
            None => forall|j: int|
                from <= j < fields.len() ==> crate::tui::esp::field_error(
                    #[trigger] fields[j],
                    kind_of(fields[j].key@),
                    j as usize,
                ) is None,
        },
    decreases fields.len() - from,
{
    if from < fields.len() {
        if crate::tui::esp::field_error(
            fields[from],
            kind_of(fields[from].key@),
            from as usize,
        ) is None {
            lemma_first_error(fields, kind_of, from + 1);
        } else {
            assert(fields[from].key@ == fields[from].key@);
        }
    }
}

/// A field is in order if its value is of the kind that its key takes; a chip has to be a
/// known one, or any.
pub proof fn law_fields_in_order(field: Field, at: usize)
    ensures
        crate::tui::esp::field_error(field, Kind::Text, at) is None <==> field.value is Text,
        crate::tui::esp::field_error(field, Kind::Number, at) is None <==> field.value is Number,
        crate::tui::esp::field_error(field, Kind::Flag, at) is None <==> field.value is Flag,
        crate::tui::esp::field_error(field, Kind::Chip, at) is None <==> (
        field.value matches FieldValue::Text(name) && (name@ == "any"@
            || crate::foreign::known_chip(name@))),
        crate::tui::esp::field_error(field, Kind::Ignored, at) is None,
        crate::tui::esp::field_error(field, Kind::Offset, at) is None <==> field.value is Text
            && crate::tui::esp::offset_of(field.key@) is Some,
        !(field.value is Text) ==> crate::tui::esp::field_error(field, Kind::Chip, at) == Some(
            FieldError::WrongType(at),
        ),
{
}

/// An offset is what its hexadecimal digits stand for.
pub proof fn law_offsets_are_read(digits: Seq<char>)
    requires
        0 < digits.len() <= 8,
        forall|i: int|
            0 <= i < digits.len() ==> crate::tui::esp::hex_digit_value(
                #[trigger] digits[i],
            ) is Some,
    ensures
        crate::tui::esp::offset_of(seq!['0', 'x'] + digits) == Some(
            value_of_digits(digits, 16) as u32,
        ),
        0 <= value_of_digits(digits, 16) <= u32::MAX,
{
    let key = seq!['0', 'x'] + digits;
    assert(key.skip(2) =~= digits);
    assert(crate::tui::esp::hex_digit_value('x') is None);
    assert(crate::tui::esp::hex_digit_value('+') is None);
    if digits.len() >= 2 {
        assert(digits[1] != 'x');
    }
    assert(digits[0] != '+');
    assert(crate::tui::esp::without_0x(digits) == digits);
    assert(crate::tui::esp::without_0x(key) == digits);
    crate::laws::lemma_hex_number(digits);
    lemma_value_bound(digits);
    assert(sixteen_to(8) == 0x100000000) by {
        reveal_with_fuel(sixteen_to, 9);
    }
    lemma_sixteen_grows(digits.len() as int, 8);
}

spec fn sixteen_to(n: int) -> int
    decreases n,
{
    if n <= 0 {
        1
    } else {
        16 * sixteen_to(n - 1)
    }
}

proof fn lemma_sixteen_grows(a: int, b: int)
    requires
        0 <= a <= b,
    ensures
        0 < sixteen_to(a) <= sixteen_to(b),
    decreases b,
{
    if a < b {
        lemma_sixteen_grows(a, b - 1);
    } else if b > 0 {
        lemma_sixteen_grows(a - 1, b - 1);
    }
}

proof fn lemma_value_bound(s: Seq<char>)
    requires
        forall|i: int|
            0 <= i < s.len() ==> crate::tui::esp::hex_digit_value(#[trigger] s[i]) is Some,
    ensures
        0 <= value_of_digits(s, 16) < sixteen_to(s.len() as int),
    decreases s.len(),
{
    if s.len() > 0 {
        assert forall|i: int| 0 <= i < s.drop_last().len() implies crate::tui::esp::hex_digit_value(
            #[trigger] s.drop_last()[i],
        ) is Some by {
            assert(s.drop_last()[i] == s[i]);
        }
        lemma_value_bound(s.drop_last());
        assert(crate::tui::esp::hex_digit_value(s[s.len() - 1]) is Some);
    }
}

/// The files of a profile are those under its offsets, in the order they are given in.
pub proof fn law_files_of_a_profile(fields: Seq<Field>, more: Field)
    requires
        crate::tui::esp::field_error(
            more,
            crate::tui::esp::bins_kind(more.key@),
            fields.len() as usize,
        ) is None,
    ensures
        ({
            let before = crate::tui::esp::offset_fields(fields, fields.len() as int);
            let after = crate::tui::esp::offset_fields(
                fields.push(more),
                fields.len() as int + 1,
            );
            if more.key@.len() >= 2 && more.key@[0] == '0' && more.key@[1] == 'x' {
                after == before.push(
                    (crate::tui::esp::offset_of(more.key@)->0, more.value->Text_0@),
                )
            } else {
                after == before
            }
        }),
{
    let all = fields.push(more);
    let n = fields.len() as int;
    assert(all[n] == more);
    lemma_offset_fields(fields, all, n);
    reveal_strlit("name");
    reveal_strlit("defmt_elf_path");
    reveal_strlit("upload_baud");
    reveal_strlit("chip");
    reveal_strlit("no_skip");
    reveal_strlit("no_verify");
    if more.key@.len() >= 2 && more.key@[0] == '0' && more.key@[1] == 'x' {
        assert("name"@[0] != '0' && "defmt_elf_path"@[0] != '0' && "upload_baud"@[0] != '0');
        assert("chip"@[0] != '0' && "no_skip"@[0] != '0' && "no_verify"@[0] != '0');
    }
}

proof fn lemma_offset_fields(a: Seq<Field>, b: Seq<Field>, n: int)
    requires
        0 <= n <= a.len(),
        n <= b.len(),
        forall|i: int| 0 <= i < n ==> #[trigger] a[i] == b[i],
    ensures
        crate::tui::esp::offset_fields(a, n) == crate::tui::esp::offset_fields(b, n),
    decreases n,
{
    if n > 0 {
        assert(a[n - 1] == b[n - 1]);
        lemma_offset_fields(a, b, n - 1);
    }
}

/// The fields of a profile for an ELF file are in order if each value is of the kind that its
/// key takes, and there is a name, a path and a chip.
pub proof fn law_profile_of_an_elf_file(fields: Seq<Field>)
    requires
        fields.len() <= usize::MAX,
        crate::tui::esp::elf_error(fields) is None,
    ensures
        exists|i: int|
            0 <= i < fields.len() && (#[trigger] fields[i]).key@ == "name"@
                && fields[i].value is Text,
        exists|i: int|
            0 <= i < fields.len() && (#[trigger] fields[i]).key@ == "path"@
                && fields[i].value is Text,
        exists|i: int|
            0 <= i < fields.len() && (#[trigger] fields[i]).key@ == "chip"@
                && fields[i].value is Text,
        forall|i: int|
            0 <= i < fields.len() ==> {
                let field = #[trigger] fields[i];
                &&& field.key@ == "chip"@ ==> (field.value matches FieldValue::Text(name) && (name@
                    == "any"@ || crate::foreign::known_chip(name@)))
                &&& field.key@ == "upload_baud"@ ==> field.value is Number
                &&& field.key@ == "ram"@ || field.key@ == "defmt"@ || field.key@ == "no_skip"@
                    || field.key@ == "no_verify"@ ==> field.value is Flag
                &&& field.key@ == "bootloader"@ || field.key@ == "partition_table"@
                    ==> field.value is Text
            },
{
    lemma_keys_differ();
    let kinds = |key: Seq<char>| crate::tui::esp::elf_kind(key);
    law_first_wrong_field_is_told(fields, kinds);
    law_last_value_counts(fields, "name"@);
    law_last_value_counts(fields, "path"@);
    lemma_last_chip(fields, fields.len() as int);
    assert forall|i: int| 0 <= i < fields.len() implies crate::tui::esp::field_error(
        #[trigger] fields[i],
        crate::tui::esp::elf_kind(fields[i].key@),
        i as usize,
    ) is None by {
        assert(kinds(fields[i].key@) == crate::tui::esp::elf_kind(fields[i].key@));
    }
}

/// Those of a profile of binary files are in order if each value is of the kind that its key
/// takes, keys that start like offsets are offsets, and there is a name and a chip.
pub proof fn law_profile_of_binary_files(fields: Seq<Field>)
    requires
        fields.len() <= usize::MAX,
        crate::tui::esp::bins_error(fields) is None,
    ensures
        exists|i: int|
            0 <= i < fields.len() && (#[trigger] fields[i]).key@ == "name"@
                && fields[i].value is Text,
        exists|i: int|
            0 <= i < fields.len() && (#[trigger] fields[i]).key@ == "chip"@
                && fields[i].value is Text,
        forall|i: int|
            0 <= i < fields.len() ==> {
                let field = #[trigger] fields[i];
                &&& field.key@ == "chip"@ ==> (field.value matches FieldValue::Text(name) && (name@
                    == "any"@ || crate::foreign::known_chip(name@)))
                &&& field.key@ == "upload_baud"@ ==> field.value is Number
                &&& field.key@ == "no_skip"@ || field.key@ == "no_verify"@ ==> field.value is Flag
                &&& field.key@.len() >= 2 && field.key@[0] == '0' && field.key@[1] == 'x'
                    ==> field.value is Text && crate::tui::esp::offset_of(field.key@) is Some
            },
{
    lemma_keys_differ();
    reveal_strlit("name");
    reveal_strlit("defmt_elf_path");
    reveal_strlit("upload_baud");
    reveal_strlit("chip");
    reveal_strlit("no_skip");
    reveal_strlit("no_verify");
    assert("defmt_elf_path"@.len() == 14 && "upload_baud"@.len() == 11 && "chip"@.len() == 4);
    assert("no_skip"@.len() == 7 && "no_verify"@.len() == 9);
    assert("name"@[0] != '0' && "defmt_elf_path"@[0] != '0' && "upload_baud"@[0] != '0');
    assert("chip"@[0] != '0' && "no_skip"@[0] != '0' && "no_verify"@[0] != '0');
    let kinds = |key: Seq<char>| crate::tui::esp::bins_kind(key);
    law_first_wrong_field_is_told(fields, kinds);
    law_last_value_counts(fields, "name"@);
    lemma_last_chip(fields, fields.len() as int);
    assert forall|i: int| 0 <= i < fields.len() implies crate::tui::esp::field_error(
        #[trigger] fields[i],
        crate::tui::esp::bins_kind(fields[i].key@),
        i as usize,
    ) is None by {
        assert(kinds(fields[i].key@) == crate::tui::esp::bins_kind(fields[i].key@));
    }
}

/// The button beside a profile tells whether it is flashed or only loaded.
pub proof fn law_buttons_beside_profiles(helper: EspFlashHelper, index: int)
    requires
        0 <= index < helper.count(),
    ensures
        ({
            let button = helper.profile_flavor(index);
            match helper.profile_at(index) {
                Some(EspProfile::Elf(elf)) => button == (if elf.ram {
                    "Load ELF!"@
                } else {
                    "Flash ELF!"@
                }),
                Some(EspProfile::Bins(_)) => button == "Flash BIN!"@,
                None => false,
            }
        }),
{
}

/// Messages are decoded with a profile's own file where that is asked for.
pub proof fn law_messages_of_a_profile(profile: EspProfile)
    ensures
        profile matches EspProfile::Elf(elf) ==> crate::tui::esp::messages_of(profile) == (
        if elf.defmt {
            Some(elf.path@)
        } else {
            None
        }),
        profile matches EspProfile::Bins(bins) ==> (crate::tui::esp::messages_of(profile) is Some
            <==> bins.defmt_elf_path is Some),
{
}

proof fn lemma_last_chip(fields: Seq<Field>, n: int)
    requires
        0 <= n <= fields.len(),
    ensures
        crate::tui::esp::last_chip(fields, n) matches Some(chip) ==> exists|i: int|
            0 <= i < n && (#[trigger] fields[i]).key@ == "chip"@ && fields[i].value is Text
                && fields[i].value->Text_0@ == chip,
    decreases n,
{
    if n > 0 {
        if fields[n - 1].key@ == "chip"@ && fields[n - 1].value is Text
            && fields[n - 1].value->Text_0@ != "any"@ {
            assert(fields[n - 1].key@ == "chip"@);
        } else {
            lemma_last_chip(fields, n - 1);
        }
    }
}

proof fn lemma_keys_differ()
    ensures
        "chip"@ != "name"@ && "chip"@ != "path"@ && "chip"@ != "partition_table"@ && "chip"@
            != "bootloader"@ && "chip"@ != "upload_baud"@,
        "upload_baud"@ != "name"@ && "upload_baud"@ != "path"@ && "upload_baud"@
            != "partition_table"@ && "upload_baud"@ != "bootloader"@,
        "ram"@ != "name"@ && "ram"@ != "path"@ && "ram"@ != "partition_table"@ && "ram"@
            != "bootloader"@ && "ram"@ != "upload_baud"@ && "ram"@ != "chip"@,
        "defmt"@ != "name"@ && "defmt"@ != "path"@ && "defmt"@ != "partition_table"@ && "defmt"@
            != "bootloader"@ && "defmt"@ != "upload_baud"@ && "defmt"@ != "chip"@,
        "no_skip"@ != "name"@ && "no_skip"@ != "path"@ && "no_skip"@ != "partition_table"@
            && "no_skip"@ != "bootloader"@ && "no_skip"@ != "upload_baud"@ && "no_skip"@ != "chip"@,
        "no_verify"@ != "name"@ && "no_verify"@ != "path"@ && "no_verify"@ != "partition_table"@
            && "no_verify"@ != "bootloader"@ && "no_verify"@ != "upload_baud"@ && "no_verify"@
            != "chip"@,
{
    reveal_strlit("name");
    reveal_strlit("path");
    reveal_strlit("partition_table");
    reveal_strlit("bootloader");
    reveal_strlit("upload_baud");
    reveal_strlit("chip");
    reveal_strlit("ram");
    reveal_strlit("defmt");
    reveal_strlit("no_skip");
    reveal_strlit("no_verify");
    assert("name"@[0] == 'n' && "path"@[0] == 'p' && "chip"@[0] == 'c');
    assert("name"@.len() == 4 && "path"@.len() == 4 && "chip"@.len() == 4);
    assert("partition_table"@.len() == 15 && "bootloader"@.len() == 10);
    assert("upload_baud"@.len() == 11 && "ram"@.len() == 3 && "defmt"@.len() == 5);
    assert("no_skip"@.len() == 7 && "no_verify"@.len() == 9);
}

/// A device is described by its chip in upper case, its features one after the other, and its
/// address in upper case if it is known.
pub proof fn law_description_of_a_device(info: crate::tui::esp::DeviceInfo)
    ensures
        ({
            let rows = crate::tui::esp::device_rows(info);
            &&& rows.len() == 6
            &&& rows[0].1 == crate::text::ascii_upper(info.chip@)
            &&& rows[3].1 == info.flash_size@
            &&& rows[4].1 == crate::text::joined(crate::text::texts(info.features@), ", "@)
            &&& info.mac_address matches Some(mac) ==> rows[5].1 == crate::text::ascii_upper(mac@)
            &&& info.mac_address is None ==> rows[5].1 == "???"@
            &&& info.revision is None ==> rows[1].1 == "???"@
            &&& info.revision matches Some((major, minor)) ==> rows[1].1 == "v"@
                + crate::text::digits(major as nat, 10) + "."@ + crate::text::digits(
                minor as nat,
                10,
            )
        }),
{
}

/// The menu for devices warns where the bootloader is not checked, and asks for the
/// confirmation of an erasure.
pub proof fn law_buttons_for_devices(unchecked: bool, awaiting: bool)
    ensures
        ({
            let rows = crate::tui::esp::button_rows(unchecked, awaiting);
            &&& rows.len() == 4
            &&& rows[1].1 == (if unchecked {
                "Reboot! (Unchecked)"@
            } else {
                "Reboot!"@
            })
            &&& rows[3].1 == (if awaiting {
                "Confirm?"@
            } else {
                "Erase!"@
            })
        }),
{
}

/// What work on a device ended well is told in green, and an attempt that nothing answers in
/// yellow.
pub proof fn law_notices_about_devices(event: EspEvent)
    ensures
        ({
            let notice = crate::tui::esp::event_notice(event);
            &&& event matches EspEvent::EraseSuccess { chip } ==> notice == Some(
                (chip@ + " flash erased!"@, crate::line::Color::Green),
            )
            &&& event matches EspEvent::BootloaderSuccess { chip } ==> notice == Some(
                (chip@ + " successfully reset into bootloader!"@, crate::line::Color::Green),
            )
            &&& event is HardResetAttempt || event is BootloaderAttempt ==> notice is Some && (
            notice->0).1 == crate::line::Color::LightYellow
            &&& event is FlashProgress || event is Connecting || event is PortReturned
                ==> notice is None
        }),
{
}

/// A profile that is found by its name has that name, and is the first that does; ELF files
/// come before the others.
pub proof fn law_profile_is_found(helper: EspFlashHelper, query: Seq<char>)
    ensures
        match helper.index_of_name(query, 0) {
            Some(i) => {
                &&& 0 <= i < helper.count()
                &&& helper.profile_at(i) is Some
                &&& (helper.profile_at(i)->0).title() == query
                &&& forall|j: int|
                    0 <= j < i ==> (#[trigger] helper.profile_at(j)) is Some && (
                    helper.profile_at(j)->0).title() != query
            },
            None => forall|j: int|
                0 <= j < helper.count() ==> (#[trigger] helper.profile_at(j)) is Some && (
                helper.profile_at(j)->0).title() != query,
        },
        forall|j: int|
            0 <= j < helper.elfs@.len() ==> (#[trigger] helper.profile_at(j)) == Some(
                EspProfile::Elf(helper.elfs@[j]),
            ),
{
    lemma_index_of_name(helper, query, 0);
}

proof fn lemma_index_of_name(helper: EspFlashHelper, query: Seq<char>, from: int)
    requires
        0 <= from,
    ensures
        match helper.index_of_name(query, from) {
            Some(i) => {
                &&& from <= i < helper.count()
                &&& helper.profile_at(i) is Some
                &&& (helper.profile_at(i)->0).title() == query
                &&& forall|j: int|
                    from <= j < i ==> (#[trigger] helper.profile_at(j)) is Some && (
                    helper.profile_at(j)->0).title() != query
            },
            None => forall|j: int|
                from <= j < helper.count() ==> (#[trigger] helper.profile_at(j)) is Some && (
                helper.profile_at(j)->0).title() != query,
        },
    decreases helper.count() - from,
{
    let names = crate::tui::esp::profile_names(helper.elfs@, helper.bins@);
    if from < helper.count() {
        assert((helper.profile_at(from)->0).title() == names[from]);
        lemma_index_of_name(helper, query, from + 1);
    }
}

/// While a file is flashed only its progress changes, and once it is done the bar is full. A
/// segment begins at nothing. When the port comes back, nothing but a description stays.
pub proof fn law_progress_is_shown(popup: Option<EspPopup>, event: EspEvent, new: Option<EspPopup>)
    requires
        crate::tui::esp::event_fits(popup, event),
        crate::tui::esp::popup_after(popup, event, new),
    ensures
        event matches EspEvent::FlashProgress(FlashProgress::SegmentInit { addr, size, .. }) ==> {
            &&& new matches Some(EspPopup::Flashing(now)) && now.current_progress == 0
                && now.current_file_addr == addr && now.current_file_len == size
                && now.current_action == SegmentAction::Flashing
        },
        event matches EspEvent::FlashProgress(FlashProgress::Progress(n)) ==> {
            &&& popup matches Some(EspPopup::Flashing(before)) && new matches Some(
                EspPopup::Flashing(now),
            ) && now.current_progress == n && now.current_file_len == before.current_file_len
                && now.current_file_addr == before.current_file_addr && now.current_file_name
                == before.current_file_name && now.current_action == before.current_action
        },
        event matches EspEvent::FlashProgress(FlashProgress::SegmentFinished { skipped }) ==> {
            &&& new matches Some(EspPopup::Flashing(now)) && now.current_progress
                == now.current_file_len && now.current_action == (if skipped {
                SegmentAction::Skipped
            } else {
                SegmentAction::Finished
            })
        },
        event is PortReturned ==> (new is Some <==> popup is Some && popup->0 is DeviceInfo),
        event is Connecting ==> new == Some(EspPopup::Connecting),
{
}

} // verus!
