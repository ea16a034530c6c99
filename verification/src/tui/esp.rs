//! Flashing Espressif devices: profiles, and the progress that is shown.

use vstd::prelude::*;
use vstd::string::*;

use crate::foreign::is_known_chip;
use crate::line::Color;
use crate::text::{concat3, join, number, padded, str_eq, to_ascii_upper};
use crate::traits::LastIndex;

verus! {

/// Binary files and where they go.
#[derive(Debug)]
pub struct EspBins {
    pub name: String,
    pub bins: Vec<(u32, String)>,
    pub upload_baud: Option<u32>,
    pub expected_chip: Option<String>,
    pub no_skip: bool,
    pub skip_verify: bool,
    pub defmt_elf_path: Option<String>,
}

/// An ELF file and what goes with it.
#[derive(Debug)]
pub struct EspElf {
    pub name: String,
    pub path: String,
    pub upload_baud: Option<u32>,
    pub expected_chip: Option<String>,
    pub partition_table: Option<String>,
    pub bootloader: Option<String>,
    pub no_skip: bool,
    pub skip_verify: bool,
    pub ram: bool,
    pub defmt: bool,
}

/// Something to flash.
#[derive(Debug)]
pub enum EspProfile {
    Bins(EspBins),
    Elf(EspElf),
}

fn copy_text(a: &Option<String>) -> (r: Option<String>)
    ensures
        r == *a,
{
    match a {
        Some(s) => Some(s.clone()),
        None => None,
    }
}

/// Whether two sets of binary files are the same.
pub open spec fn same_bins(a: EspBins, b: EspBins) -> bool {
    &&& a.bins@ == b.bins@
    &&& a == (EspBins { bins: a.bins, ..b })
}

/// Whether two profiles are the same.
pub open spec fn same_profile(a: EspProfile, b: EspProfile) -> bool {
    match (a, b) {
        (EspProfile::Bins(a), EspProfile::Bins(b)) => same_bins(a, b),
        (EspProfile::Elf(a), EspProfile::Elf(b)) => a == b,
        _ => false,
    }
}

impl EspBins {
    /// The same profile again.
    pub fn duplicate(&self) -> (r: EspBins)
        ensures
            same_bins(r, *self),
    {
        let mut bins: Vec<(u32, String)> = Vec::new();
        let mut i: usize = 0;
        while i < self.bins.len()
            invariant
                i <= self.bins.len(),
                bins@ =~= self.bins@.take(i as int),
            decreases self.bins.len() - i,
        {
            bins.push((self.bins[i].0, self.bins[i].1.clone()));
            i += 1;
        }
        assert(bins@ =~= self.bins@);
        EspBins {
            name: self.name.clone(),
            bins,
            upload_baud: self.upload_baud,
            expected_chip: copy_text(&self.expected_chip),
            no_skip: self.no_skip,
            skip_verify: self.skip_verify,
            defmt_elf_path: copy_text(&self.defmt_elf_path),
        }
    }
}

impl EspElf {
    /// The same profile again.
    pub fn duplicate(&self) -> (r: EspElf)
        ensures
            r == *self,
    {
        EspElf {
            name: self.name.clone(),
            path: self.path.clone(),
            upload_baud: self.upload_baud,
            expected_chip: copy_text(&self.expected_chip),
            partition_table: copy_text(&self.partition_table),
            bootloader: copy_text(&self.bootloader),
            no_skip: self.no_skip,
            skip_verify: self.skip_verify,
            ram: self.ram,
            defmt: self.defmt,
        }
    }
}

/// The ELF file to decode the log messages of a profile with, if there is one.
pub open spec fn messages_of(profile: EspProfile) -> Option<Seq<char>> {
    match profile {
        EspProfile::Bins(bins) => opt_view(bins.defmt_elf_path),
        EspProfile::Elf(elf) => if elf.defmt {
            Some(elf.path@)
        } else {
            None
        },
    }
}

impl EspProfile {
    /// The ELF file to decode log messages with, if there is one.
    pub fn defmt_elf_path(&self) -> (r: Option<String>)
        ensures
            opt_view(r) == messages_of(*self),
    {
        match self {
            EspProfile::Bins(bins) => copy_text(&bins.defmt_elf_path),
            EspProfile::Elf(elf) => if elf.defmt {
                Some(elf.path.clone())
            } else {
                None
            },
        }
    }

    /// The name of the profile.
    pub open spec fn title(&self) -> Seq<char> {
        match self {
            EspProfile::Bins(bins) => bins.name@,
            EspProfile::Elf(elf) => elf.name@,
        }
    }

    /// The name of the profile.
    pub fn name(&self) -> (r: &str)
        ensures
            r@ == self.title(),
    {
        match self {
            EspProfile::Bins(bins) => bins.name.as_str(),
            EspProfile::Elf(elf) => elf.name.as_str(),
        }
    }
}

/// The value of a field of a profile.
#[derive(Debug)]
pub enum FieldValue {
    Text(String),
    Number(u32),
    Flag(bool),
    Other,
}

/// A field of a profile as it was read: its key, and its value.
#[derive(Debug)]
pub struct Field {
    pub key: String,
    pub value: FieldValue,
}

/// Why a profile is not valid.
#[derive(Clone, Copy, Debug, PartialEq, Eq, Structural)]
pub enum FieldError {
    /// A field has a value of the wrong kind; the position is given.
    WrongType(usize),
    /// The chip is not known.
    InvalidChip,
    /// A key that looks like an offset is none; the position is given.
    InvalidOffset(usize),
    MissingName,
    MissingPath,
    MissingChip,
}

/// What is known of the chip while a profile is read.
#[derive(Debug)]
pub struct ChipChoice {
    pub any_chip: bool,
    pub expected: Option<String>,
}

/// The last value of the fields with a key, among the first `n`.
pub open spec fn last_field(fields: Seq<Field>, n: int, key: Seq<char>) -> Option<FieldValue>
    decreases n,
{
    if n <= 0 {
        None
    } else if fields[n - 1].key@ == key {
        Some(fields[n - 1].value)
    } else {
        last_field(fields, n - 1, key)
    }
}

/// Whether any of the first `n` fields names a chip, other than to allow any, and
/// the last one that does.
pub open spec fn last_chip(fields: Seq<Field>, n: int) -> Option<Seq<char>>
    decreases n,
{
    if n <= 0 {
        None
    } else if fields[n - 1].key@ == "chip"@ && fields[n - 1].value is Text
        && fields[n - 1].value->Text_0@ != "any"@ {
        Some(fields[n - 1].value->Text_0@)
    } else {
        last_chip(fields, n - 1)
    }
}

/// Whether any of the first `n` fields allows any chip.
pub open spec fn allows_any_chip(fields: Seq<Field>, n: int) -> bool {
    exists|i: int|
        0 <= i < n && (#[trigger] fields[i]).key@ == "chip"@ && fields[i].value is Text
            && fields[i].value->Text_0@ == "any"@
}

/// The kind of value that a key of an ELF profile takes.
pub enum Kind {
    Text,
    Number,
    Flag,
    Chip,
    Offset,
    Ignored,
}

/// The kind of value that a key of an ELF profile takes.
pub open spec fn elf_kind(key: Seq<char>) -> Kind {
    if key == "name"@ || key == "path"@ || key == "partition_table"@ || key == "bootloader"@ {
        Kind::Text
    } else if key == "upload_baud"@ {
        Kind::Number
    } else if key == "chip"@ {
        Kind::Chip
    } else if key == "no_skip"@ || key == "no_verify"@ || key == "ram"@ || key == "defmt"@ {
        Kind::Flag
    } else {
        Kind::Ignored
    }
}

/// The kind of value that a key of a profile of binary files takes.
pub open spec fn bins_kind(key: Seq<char>) -> Kind {
    if key == "name"@ || key == "defmt_elf_path"@ {
        Kind::Text
    } else if key == "upload_baud"@ {
        Kind::Number
    } else if key == "chip"@ {
        Kind::Chip
    } else if key == "no_skip"@ || key == "no_verify"@ {
        Kind::Flag
    } else if key.len() >= 2 && key[0] == '0' && key[1] == 'x' {
        Kind::Offset
    } else {
        Kind::Ignored
    }
}

/// A text without the prefixes `0x` that it starts with.
pub open spec fn without_0x(s: Seq<char>) -> Seq<char>
    decreases s.len(),
{
    if s.len() >= 2 && s[0] == '0' && s[1] == 'x' {
        without_0x(s.skip(2))
    } else {
        s
    }
}

/// The value of a hexadecimal digit.
pub open spec fn hex_digit_value(c: char) -> Option<int> {
    let v = c as u32;
    if 0x30 <= v <= 0x39 {
        Some(v - 0x30)
    } else if 0x41 <= v <= 0x46 {
        Some(v - 0x37)
    } else if 0x61 <= v <= 0x66 {
        Some(v - 0x57)
    } else {
        None
    }
}

/// The number that some hexadecimal digits stand for; `None` if one is none.
pub open spec fn hex_number(s: Seq<char>) -> Option<int>
    decreases s.len(),
{
    if s.len() == 0 {
        Some(0)
    } else {
        match (hex_number(s.drop_last()), hex_digit_value(s.last())) {
            (Some(high), Some(low)) => Some(16 * high + low),
            _ => None,
        }
    }
}

/// The offset that a key stands for.
pub open spec fn offset_of(key: Seq<char>) -> Option<u32> {
    let digits = without_0x(key);
    let digits = if digits.len() > 0 && digits[0] == '+' {
        digits.skip(1)
    } else {
        digits
    };
    if digits.len() == 0 {
        None
    } else {
        match hex_number(digits) {
            Some(n) => if n <= u32::MAX {
                Some(n as u32)
            } else {
                None
            },
            None => None,
        }
    }
}

/// Whether a field is in order; otherwise why not.
pub open spec fn field_error(field: Field, kind: Kind, at: usize) -> Option<FieldError> {
    match kind {
        Kind::Text => if field.value is Text {
            None
        } else {
            Some(FieldError::WrongType(at))
        },
        Kind::Number => if field.value is Number {
            None
        } else {
            Some(FieldError::WrongType(at))
        },
        Kind::Flag => if field.value is Flag {
            None
        } else {
            Some(FieldError::WrongType(at))
        },
        Kind::Chip => match field.value {
            FieldValue::Text(name) => if name@ == "any"@ || crate::foreign::known_chip(name@) {
                None
            } else {
                Some(FieldError::InvalidChip)
            },
            _ => Some(FieldError::WrongType(at)),
        },
        Kind::Offset => if offset_of(field.key@) is None {
            Some(FieldError::InvalidOffset(at))
        } else if field.value is Text {
            None
        } else {
            Some(FieldError::WrongType(at))
        },
        Kind::Ignored => None,
    }
}

/// The first error among the fields from `from` on.
pub open spec fn first_error(
    fields: Seq<Field>,
    kind_of: spec_fn(Seq<char>) -> Kind,
    from: int,
) -> Option<FieldError>
    decreases fields.len() - from,
{
    if from < 0 || from >= fields.len() {
        None
    } else {
        match field_error(fields[from], kind_of(fields[from].key@), from as usize) {
            Some(e) => Some(e),
            None => first_error(fields, kind_of, from + 1),
        }
    }
}


/// Looks up the last value with a key.
fn find_last<'a>(fields: &'a Vec<Field>, key: &str) -> (r: Option<&'a FieldValue>)
    ensures
        match r {
            Some(value) => last_field(fields@, fields@.len() as int, key@) == Some(*value),
            None => last_field(fields@, fields@.len() as int, key@) is None,
        },
{
    let mut n: usize = fields.len();
    while n > 0
        invariant
            n <= fields@.len(),
            last_field(fields@, fields@.len() as int, key@) == last_field(fields@, n as int, key@),
        decreases n,
    {
        if str_eq(fields[n - 1].key.as_str(), key) {
            return Some(&fields[n - 1].value);
        }
        n -= 1;
    }
    None
}

/// The last text with a key.
pub open spec fn text_field(fields: Seq<Field>, key: Seq<char>) -> Option<Seq<char>> {
    match last_field(fields, fields.len() as int, key) {
        Some(FieldValue::Text(s)) => Some(s@),
        _ => None,
    }
}

/// The last number with a key.
pub open spec fn number_field(fields: Seq<Field>, key: Seq<char>) -> Option<u32> {
    match last_field(fields, fields.len() as int, key) {
        Some(FieldValue::Number(n)) => Some(n),
        _ => None,
    }
}

/// Whether the last flag with a key is set.
pub open spec fn flag_field(fields: Seq<Field>, key: Seq<char>) -> bool {
    match last_field(fields, fields.len() as int, key) {
        Some(FieldValue::Flag(b)) => b,
        _ => false,
    }
}

/// The text of an optional string.
pub open spec fn opt_view(s: Option<String>) -> Option<Seq<char>> {
    match s {
        Some(s) => Some(s@),
        None => None,
    }
}

fn get_text(fields: &Vec<Field>, key: &str) -> (r: Option<String>)
    ensures
        opt_view(r) == text_field(fields@, key@),
{
    match find_last(fields, key) {
        Some(FieldValue::Text(s)) => Some(s.clone()),
        _ => None,
    }
}

fn get_number(fields: &Vec<Field>, key: &str) -> (r: Option<u32>)
    ensures
        r == number_field(fields@, key@),
{
    match find_last(fields, key) {
        Some(FieldValue::Number(n)) => Some(*n),
        _ => None,
    }
}

fn get_flag(fields: &Vec<Field>, key: &str) -> (r: bool)
    ensures
        r == flag_field(fields@, key@),
{
    match find_last(fields, key) {
        Some(FieldValue::Flag(b)) => *b,
        _ => false,
    }
}

/// What the fields say of the chip: whether any will do, and the last one named.
fn get_chip(fields: &Vec<Field>) -> (r: ChipChoice)
    ensures
        r.any_chip == allows_any_chip(fields@, fields@.len() as int),
        opt_view(r.expected) == last_chip(fields@, fields@.len() as int),
{
    let mut any_chip = false;
    let mut expected: Option<String> = None;
    let mut i: usize = 0;
    while i < fields.len()
        invariant
            i <= fields@.len(),
            any_chip == allows_any_chip(fields@, i as int),
            opt_view(expected) == last_chip(fields@, i as int),
        decreases fields@.len() - i,
    {
        if str_eq(fields[i].key.as_str(), "chip") {
            match &fields[i].value {
                FieldValue::Text(name) => {
                    if str_eq(name.as_str(), "any") {
                        any_chip = true;
                        assert(fields@[i as int].value->Text_0@ == "any"@);
                    } else {
                        expected = Some(name.clone());
                    }
                },
                _ => (),
            }
        }
        i += 1;
    }
    ChipChoice { any_chip, expected }
}

pub(crate) fn digit_value(c: char) -> (r: Option<u8>)
    ensures
        match hex_digit_value(c) {
            Some(d) => r is Some && r->0 == d && 0 <= d < 16,
            None => r is None,
        },
{
    let v: u32 = c as u32;
    if 0x30 <= v && v <= 0x39 {
        Some((v - 0x30) as u8)
    } else if 0x41 <= v && v <= 0x46 {
        Some((v - 0x37) as u8)
    } else if 0x61 <= v && v <= 0x66 {
        Some((v - 0x57) as u8)
    } else {
        None
    }
}

proof fn lemma_hex_number_grows(s: Seq<char>, n: int)
    requires
        0 <= n <= s.len(),
    ensures
        hex_number(s.take(n)) is None ==> hex_number(s) is None,
        hex_number(s) is Some ==> hex_number(s.take(n)) is Some && 0 <= hex_number(s.take(n))->0
            <= hex_number(s)->0,
    decreases s.len() - n,
{
    if n < s.len() {
        lemma_hex_number_grows(s, n + 1);
        assert(s.take(n + 1).drop_last() =~= s.take(n));
        if hex_number(s.take(n + 1)) is Some {
            lemma_hex_number_nonnegative(s.take(n));
        }
    } else {
        assert(s.take(n) =~= s);
        lemma_hex_number_nonnegative(s);
    }
}

proof fn lemma_hex_number_nonnegative(s: Seq<char>)
    ensures
        hex_number(s) is Some ==> hex_number(s)->0 >= 0,
    decreases s.len(),
{
    if s.len() > 0 {
        lemma_hex_number_nonnegative(s.drop_last());
    }
}

/// The offset that a key stands for.
pub fn parse_offset(key: &str) -> (r: Option<u32>)
    ensures
        r == offset_of(key@),
{
    let len: usize = key.unicode_len();
    let mut start: usize = 0;
    assert(key@.skip(0) =~= key@);
    while start < len && len - start >= 2 && key.get_char(start) == '0' && key.get_char(start + 1)
        == 'x'
        invariant
            len == key@.len(),
            start <= len,
            without_0x(key@) == without_0x(key@.skip(start as int)),
        decreases len - start,
    {
        proof {
            let rest = key@.skip(start as int);
            assert(rest[0] == key@[start as int] && rest[1] == key@[start + 1]);
            assert(rest.skip(2) =~= key@.skip(start + 2));
        }
        start += 2;
    }
    proof {
        let rest = key@.skip(start as int);
        if rest.len() >= 2 {
            assert(rest[0] == key@[start as int] && rest[1] == key@[start + 1]);
        }
        assert(without_0x(key@) == rest);
    }
    if start < len && key.get_char(start) == '+' {
        assert(key@.skip(start as int).skip(1) =~= key@.skip(start + 1));
        start += 1;
    }
    let ghost digits = key@.skip(start as int);
    if start == len {
        return None;
    }
    let mut value: u64 = 0;
    let mut i: usize = start;
    assert(digits.take(0) =~= Seq::<char>::empty());
    while i < len
        invariant
            len == key@.len(),
            start <= i <= len,
            digits == key@.skip(start as int),
            digits.len() > 0,
            offset_of(key@) == (match hex_number(digits) {
                Some(n) => if n <= u32::MAX {
                    Some(n as u32)
                } else {
                    None
                },
                None => None,
            }),
            hex_number(digits.take(i - start)) == Some(value as int),
            value <= u32::MAX,
        decreases len - i,
    {
        let c = key.get_char(i);
        proof {
            assert(digits[i - start] == c);
            assert(digits.take(i - start + 1).drop_last() =~= digits.take(i - start));
            assert(digits.take(i - start + 1).last() == c);
            lemma_hex_number_grows(digits, i - start + 1);
        }
        match digit_value(c) {
            Some(d) => {
                value = 16 * value + d as u64;
                if value > u32::MAX as u64 {
                    return None;
                }
            },
            None => {
                return None;
            },
        }
        i += 1;
    }
    assert(digits.take(i - start) =~= digits);
    Some(value as u32)
}

/// The kind of value that a key of an ELF profile takes.
fn kind_of_elf_key(key: &str) -> (r: Kind)
    ensures
        r == elf_kind(key@),
{
    if str_eq(key, "name") || str_eq(key, "path") || str_eq(key, "partition_table") || str_eq(
        key,
        "bootloader",
    ) {
        Kind::Text
    } else if str_eq(key, "upload_baud") {
        Kind::Number
    } else if str_eq(key, "chip") {
        Kind::Chip
    } else if str_eq(key, "no_skip") || str_eq(key, "no_verify") || str_eq(key, "ram") || str_eq(
        key,
        "defmt",
    ) {
        Kind::Flag
    } else {
        Kind::Ignored
    }
}

/// The kind of value that a key of a profile of binary files takes.
fn kind_of_bins_key(key: &str) -> (r: Kind)
    ensures
        r == bins_kind(key@),
{
    if str_eq(key, "name") || str_eq(key, "defmt_elf_path") {
        Kind::Text
    } else if str_eq(key, "upload_baud") {
        Kind::Number
    } else if str_eq(key, "chip") {
        Kind::Chip
    } else if str_eq(key, "no_skip") || str_eq(key, "no_verify") {
        Kind::Flag
    } else if key.unicode_len() >= 2 && key.get_char(0) == '0' && key.get_char(1) == 'x' {
        Kind::Offset
    } else {
        Kind::Ignored
    }
}

fn check_field(field: &Field, kind: Kind, at: usize) -> (r: Option<FieldError>)
    ensures
        r == field_error(*field, kind, at),
{
    match kind {
        Kind::Text => match &field.value {
            FieldValue::Text(_) => None,
            _ => Some(FieldError::WrongType(at)),
        },
        Kind::Number => match &field.value {
            FieldValue::Number(_) => None,
            _ => Some(FieldError::WrongType(at)),
        },
        Kind::Flag => match &field.value {
            FieldValue::Flag(_) => None,
            _ => Some(FieldError::WrongType(at)),
        },
        Kind::Chip => match &field.value {
            FieldValue::Text(name) => if str_eq(name.as_str(), "any") || is_known_chip(
                name.as_str(),
            ) {
                None
            } else {
                Some(FieldError::InvalidChip)
            },
            _ => Some(FieldError::WrongType(at)),
        },
        Kind::Offset => {
            if parse_offset(field.key.as_str()).is_none() {
                Some(FieldError::InvalidOffset(at))
            } else {
                match &field.value {
                    FieldValue::Text(_) => None,
                    _ => Some(FieldError::WrongType(at)),
                }
            }
        },
        Kind::Ignored => None,
    }
}

/// Why the fields of an ELF profile are not valid, if they are not.
pub open spec fn elf_error(fields: Seq<Field>) -> Option<FieldError> {
    match first_error(fields, |key: Seq<char>| elf_kind(key), 0) {
        Some(e) => Some(e),
        None => if text_field(fields, "name"@) is None {
            Some(FieldError::MissingName)
        } else if text_field(fields, "path"@) is None {
            Some(FieldError::MissingPath)
        } else if !allows_any_chip(fields, fields.len() as int) && last_chip(
            fields,
            fields.len() as int,
        ) is None {
            Some(FieldError::MissingChip)
        } else {
            None
        },
    }
}

/// Why the fields of a profile of binary files are not valid, if they are not.
pub open spec fn bins_error(fields: Seq<Field>) -> Option<FieldError> {
    match first_error(fields, |key: Seq<char>| bins_kind(key), 0) {
        Some(e) => Some(e),
        None => if text_field(fields, "name"@) is None {
            Some(FieldError::MissingName)
        } else if !allows_any_chip(fields, fields.len() as int) && last_chip(
            fields,
            fields.len() as int,
        ) is None {
            Some(FieldError::MissingChip)
        } else {
            None
        },
    }
}

/// The files and their offsets, among the first `n` fields.
pub open spec fn offset_fields(fields: Seq<Field>, n: int) -> Seq<(u32, Seq<char>)>
    decreases n,
{
    if n <= 0 {
        Seq::empty()
    } else if bins_kind(fields[n - 1].key@) is Offset && offset_of(fields[n - 1].key@) is Some
        && fields[n - 1].value is Text {
        offset_fields(fields, n - 1).push(
            (offset_of(fields[n - 1].key@)->0, fields[n - 1].value->Text_0@),
        )
    } else {
        offset_fields(fields, n - 1)
    }
}

/// Files and their offsets as plain values.
pub open spec fn bin_views(bins: Seq<(u32, String)>) -> Seq<(u32, Seq<char>)> {
    bins.map_values(|b: (u32, String)| (b.0, b.1@))
}

impl EspElf {
    /// Reads a profile from its fields. The chip has to be named, if only to allow any.
    pub fn from_fields(fields: &Vec<Field>) -> (r: Result<EspElf, FieldError>)
        ensures
            match r {
                Err(e) => elf_error(fields@) == Some(e),
                Ok(elf) => {
                    &&& elf_error(fields@) is None
                    &&& text_field(fields@, "name"@) == Some(elf.name@)
                    &&& text_field(fields@, "path"@) == Some(elf.path@)
                    &&& elf.upload_baud == number_field(fields@, "upload_baud"@)
                    &&& opt_view(elf.expected_chip) == last_chip(fields@, fields@.len() as int)
                    &&& opt_view(elf.partition_table) == text_field(fields@, "partition_table"@)
                    &&& opt_view(elf.bootloader) == text_field(fields@, "bootloader"@)
                    &&& elf.no_skip == flag_field(fields@, "no_skip"@)
                    &&& elf.skip_verify == flag_field(fields@, "no_verify"@)
                    &&& elf.ram == flag_field(fields@, "ram"@)
                    &&& elf.defmt == flag_field(fields@, "defmt"@)
                },
            },
    {
        let ghost kinds = |key: Seq<char>| elf_kind(key);
        let mut i: usize = 0;
        while i < fields.len()
            invariant
                i <= fields@.len(),
                kinds == (|key: Seq<char>| elf_kind(key)),
                first_error(fields@, kinds, 0) == first_error(fields@, kinds, i as int),
            decreases fields@.len() - i,
        {
            let kind = kind_of_elf_key(fields[i].key.as_str());
            assert(kind == kinds(fields@[i as int].key@));
            match check_field(&fields[i], kind, i) {
                Some(e) => {
                    assert(first_error(fields@, kinds, i as int) == Some(e));
                    return Err(e);
                },
                None => (),
            }
            i += 1;
        }
        assert(first_error(fields@, kinds, 0) is None);
        let name = match get_text(fields, "name") {
            Some(name) => name,
            None => {
                return Err(FieldError::MissingName);
            },
        };
        let path = match get_text(fields, "path") {
            Some(path) => path,
            None => {
                return Err(FieldError::MissingPath);
            },
        };
        let chip = get_chip(fields);
        if !chip.any_chip && chip.expected.is_none() {
            return Err(FieldError::MissingChip);
        }
        Ok(
            EspElf {
                name,
                path,
                upload_baud: get_number(fields, "upload_baud"),
                expected_chip: chip.expected,
                partition_table: get_text(fields, "partition_table"),
                bootloader: get_text(fields, "bootloader"),
                no_skip: get_flag(fields, "no_skip"),
                skip_verify: get_flag(fields, "no_verify"),
                ram: get_flag(fields, "ram"),
                defmt: get_flag(fields, "defmt"),
            },
        )
    }
}

impl EspBins {
    /// Reads a profile from its fields. A key that starts with `0x` is the offset
    /// of a file.
    pub fn from_fields(fields: &Vec<Field>) -> (r: Result<EspBins, FieldError>)
        ensures
            match r {
                Err(e) => bins_error(fields@) == Some(e),
                Ok(bins) => {
                    &&& bins_error(fields@) is None
                    &&& text_field(fields@, "name"@) == Some(bins.name@)
                    &&& bin_views(bins.bins@) == offset_fields(fields@, fields@.len() as int)
                    &&& bins.upload_baud == number_field(fields@, "upload_baud"@)
                    &&& opt_view(bins.expected_chip) == last_chip(fields@, fields@.len() as int)
                    &&& bins.no_skip == flag_field(fields@, "no_skip"@)
                    &&& bins.skip_verify == flag_field(fields@, "no_verify"@)
                    &&& opt_view(bins.defmt_elf_path) == text_field(fields@, "defmt_elf_path"@)
                },
            },
    {
        let ghost kinds = |key: Seq<char>| bins_kind(key);
        let mut bins: Vec<(u32, String)> = Vec::new();
        let mut i: usize = 0;
        assert(bin_views(bins@) =~= offset_fields(fields@, 0));
        while i < fields.len()
            invariant
                i <= fields@.len(),
                kinds == (|key: Seq<char>| bins_kind(key)),
                first_error(fields@, kinds, 0) == first_error(fields@, kinds, i as int),
                bin_views(bins@) == offset_fields(fields@, i as int),
            decreases fields@.len() - i,
        {
            let kind = kind_of_bins_key(fields[i].key.as_str());
            assert(kind == kinds(fields@[i as int].key@));
            let is_offset = match &kind {
                Kind::Offset => true,
                _ => false,
            };
            match check_field(&fields[i], kind, i) {
                Some(e) => {
                    assert(first_error(fields@, kinds, i as int) == Some(e));
                    return Err(e);
                },
                None => (),
            }
            if is_offset {
                match (parse_offset(fields[i].key.as_str()), &fields[i].value) {
                    (Some(offset), FieldValue::Text(path)) => {
                        let ghost before = bins@;
                        bins.push((offset, path.clone()));
                        assert(bin_views(bins@) =~= bin_views(before).push((offset, path@)));
                    },
                    _ => (),
                }
            }
            i += 1;
        }
        assert(first_error(fields@, kinds, 0) is None);
        let name = match get_text(fields, "name") {
            Some(name) => name,
            None => {
                return Err(FieldError::MissingName);
            },
        };
        let chip = get_chip(fields);
        if !chip.any_chip && chip.expected.is_none() {
            return Err(FieldError::MissingChip);
        }
        Ok(
            EspBins {
                name,
                bins,
                upload_baud: get_number(fields, "upload_baud"),
                expected_chip: chip.expected,
                no_skip: get_flag(fields, "no_skip"),
                skip_verify: get_flag(fields, "no_verify"),
                defmt_elf_path: get_text(fields, "defmt_elf_path"),
            },
        )
    }
}


/// All profiles that were read.
#[derive(Debug)]
pub struct SerializedEspFiles {
    pub elfs: Vec<EspElf>,
    pub bins: Vec<EspBins>,
}

/// Two profiles have the same name.
#[derive(Debug)]
pub struct DuplicateProfileName(pub String);

/// The names of the profiles in order: ELF files first.
pub open spec fn profile_names(elfs: Seq<EspElf>, bins: Seq<EspBins>) -> Seq<Seq<char>> {
    elfs.map_values(|e: EspElf| e.name@) + bins.map_values(|b: EspBins| b.name@)
}

/// The first name that already occurred before, from position `from` on.
pub open spec fn first_repeated(names: Seq<Seq<char>>, from: int) -> Option<Seq<char>>
    decreases names.len() - from,
{
    if from < 0 || from >= names.len() {
        None
    } else if names.take(from).contains(names[from]) {
        Some(names[from])
    } else {
        first_repeated(names, from + 1)
    }
}

impl SerializedEspFiles {
    fn name_at(&self, i: usize) -> (r: &str)
        requires
            i < self.elfs@.len() + self.bins@.len(),
        ensures
            r@ == profile_names(self.elfs@, self.bins@)[i as int],
    {
        if i < self.elfs.len() {
            self.elfs[i].name.as_str()
        } else {
            self.bins[i - self.elfs.len()].name.as_str()
        }
    }

    /// Whether all profiles have names of their own.
    pub fn check_for_duplicate_names(&self) -> (r: Result<(), DuplicateProfileName>)
        requires
            self.elfs@.len() + self.bins@.len() <= usize::MAX,
        ensures
            match first_repeated(profile_names(self.elfs@, self.bins@), 0) {
                Some(name) => r is Err && (r->Err_0).0@ == name,
                None => r is Ok,
            },
    {
        let ghost names = profile_names(self.elfs@, self.bins@);
        let total: usize = self.elfs.len() + self.bins.len();
        let mut i: usize = 0;
        while i < total
            invariant
                names == profile_names(self.elfs@, self.bins@),
                total == self.elfs@.len() + self.bins@.len(),
                i <= total,
                first_repeated(names, 0) == first_repeated(names, i as int),
            decreases total - i,
        {
            let name = self.name_at(i);
            let mut j: usize = 0;
            while j < i
                invariant
                    names == profile_names(self.elfs@, self.bins@),
                    total == self.elfs@.len() + self.bins@.len(),
                    j <= i < total,
                    name@ == names[i as int],
                    first_repeated(names, 0) == first_repeated(names, i as int),
                    forall|k: int| 0 <= k < j ==> names[k] != name@,
                decreases i - j,
            {
                if str_eq(self.name_at(j), name) {
                    assert(names.take(i as int)[j as int] == names[i as int]);
                    assert(names.take(i as int).contains(names[i as int]));
                    return Err(DuplicateProfileName(name.to_owned()));
                }
                j += 1;
            }
            assert(!names.take(i as int).contains(names[i as int]));
            i += 1;
        }
        Ok(())
    }
}

/// Profiles pass the check exactly if no two have the same name.
pub proof fn law_check_finds_every_duplicate(names: Seq<Seq<char>>)
    ensures
        first_repeated(names, 0) is None <==> names.no_duplicates(),
{
    lemma_first_repeated(names, 0);
}

proof fn lemma_first_repeated(names: Seq<Seq<char>>, from: int)
    requires
        0 <= from <= names.len(),
        names.take(from).no_duplicates(),
    ensures
        first_repeated(names, from) is None <==> names.no_duplicates(),
    decreases names.len() - from,
{
    if from == names.len() {
        assert(names.take(from) =~= names);
    } else if names.take(from).contains(names[from]) {
        let k = choose|k: int| 0 <= k < from && names.take(from)[k] == names[from];
        assert(names[k] == names[from]);
    } else {
        let more = names.take(from + 1);
        assert forall|i: int, j: int| 0 <= i < more.len() && 0 <= j < more.len() && i != j implies more[i]
            != more[j] by {
            if i == from {
                assert(names.take(from)[j] == more[j]);
            } else if j == from {
                assert(names.take(from)[i] == more[i]);
            } else {
                assert(names.take(from)[i] == more[i] && names.take(from)[j] == more[j]);
            }
        }
        lemma_first_repeated(names, from + 1);
    }
}

/// What is being done with a segment.
#[derive(Clone, Copy, Debug, PartialEq, Eq, Structural)]
pub enum SegmentAction {
    Flashing,
    Verifying,
    Skipped,
    Finished,
}

/// How far flashing has come.
#[derive(Debug)]
pub struct Flashing {
    pub current_file_name: Option<String>,
    pub chip: String,
    pub current_file_addr: u32,
    pub current_file_len: usize,
    pub current_progress: usize,
    pub current_action: SegmentAction,
}

/// What is shown while a device is worked on.
#[derive(Debug)]
pub enum EspPopup {
    Connecting,
    Connected { chip: String },
    /// Labels and values.
    DeviceInfo(Vec<(String, String)>),
    Flashing(Flashing),
    Erasing { chip: String },
}

/// What a device says of itself.
#[derive(Debug)]
pub struct DeviceInfo {
    pub chip: String,
    pub revision: Option<(u32, u32)>,
    pub crystal_frequency: String,
    pub flash_size: String,
    pub features: Vec<String>,
    pub mac_address: Option<String>,
}

/// A step of flashing.
#[derive(Debug)]
pub enum FlashProgress {
    SegmentInit { chip: String, addr: u32, size: usize, file_name: Option<String> },
    Progress(usize),
    Verifying,
    SegmentFinished { skipped: bool },
}

/// What happens while a device is worked on.
#[derive(Debug)]
pub enum EspEvent {
    BootloaderSuccess { chip: String },
    EraseSuccess { chip: String },
    BootloaderAttempt,
    HardResetAttempt,
    DeviceInfo(DeviceInfo),
    FlashProgress(FlashProgress),
    Connecting,
    Connected { chip: String },
    EraseStart { chip: String },
    PortReturned,
    Error(String),
}

/// The flashing profiles, and what is shown of the work on a device.
#[derive(Debug)]
pub struct EspFlashHelper {
    pub popup: Option<EspPopup>,
    pub bins: Vec<EspBins>,
    pub elfs: Vec<EspElf>,
    /// When the user first asked to erase the flash, in milliseconds.
    pub first_erase_press: Option<u64>,
    pub unchecked_bootloader: bool,
}

/// How long erasing the flash has to be confirmed within.
pub const ERASE_FLASH_CONFIRM_PERIOD_MS: u64 = 1500;

/// The number of buttons above the profiles.
pub const ESPFLASH_BUTTON_COUNT: usize = 4;

/// What follows from an event besides what is shown: a notification, and whether an
/// interrupt that may have been held back is to be acknowledged.
#[derive(Debug)]
pub struct EspReaction {
    pub notification: Option<(String, Color)>,
    pub acknowledge_interrupt: bool,
}

/// The label and value of each line of a device's description.
pub open spec fn device_rows(info: DeviceInfo) -> Seq<(Seq<char>, Seq<char>)> {
    seq![
        ("Chip:"@, crate::text::ascii_upper(info.chip@)),
        (
            "Revision:"@,
            match info.revision {
                Some((major, minor)) => "v"@ + crate::text::digits(major as nat, 10) + "."@
                    + crate::text::digits(minor as nat, 10),
                None => "???"@,
            },
        ),
        ("Crystal Osc. Frequency:"@, info.crystal_frequency@),
        ("Flash Size:"@, info.flash_size@),
        ("Features:"@, crate::text::joined(crate::text::texts(info.features@), ", "@)),
        (
            "MAC Address:"@,
            match info.mac_address {
                Some(mac) => crate::text::ascii_upper(mac@),
                None => "???"@,
            },
        ),
    ]
}

/// Labels and values as plain texts.
pub open spec fn row_views(rows: Seq<(String, String)>) -> Seq<(Seq<char>, Seq<char>)> {
    rows.map_values(|r: (String, String)| (r.0@, r.1@))
}

fn push_row(rows: &mut Vec<(String, String)>, label: &str, value: String)
    ensures
        row_views(final(rows)@) == row_views(old(rows)@).push((label@, value@)),
{
    let ghost before = rows@;
    rows.push((label.to_owned(), value));
    assert(row_views(rows@) =~= row_views(before).push((label@, value@)));
}

/// Describes a device.
pub fn describe_device(info: &DeviceInfo) -> (r: Vec<(String, String)>)
    ensures
        row_views(r@) == device_rows(*info),
{
    let mac_address = match &info.mac_address {
        Some(mac) => to_ascii_upper(mac.as_str()),
        None => "???".to_owned(),
    };
    let revision = match info.revision {
        Some((major, minor)) => {
            let mut s = "v".to_owned();
            s.append(number(major as u64, 10).as_str());
            s.append(".");
            s.append(number(minor as u64, 10).as_str());
            s
        },
        None => "???".to_owned(),
    };
    let mut rows: Vec<(String, String)> = Vec::new();
    assert(row_views(rows@) =~= Seq::empty());
    push_row(&mut rows, "Chip:", to_ascii_upper(info.chip.as_str()));
    push_row(&mut rows, "Revision:", revision);
    push_row(&mut rows, "Crystal Osc. Frequency:", info.crystal_frequency.clone());
    push_row(&mut rows, "Flash Size:", info.flash_size.clone());
    push_row(&mut rows, "Features:", join(&info.features, ", "));
    push_row(&mut rows, "MAC Address:", mac_address);
    assert(row_views(rows@) =~= device_rows(*info));
    rows
}

/// The notification that an event gives rise to.
pub open spec fn event_notice(event: EspEvent) -> Option<(Seq<char>, Color)> {
    match event {
        EspEvent::BootloaderSuccess { chip } => Some(
            (chip@ + " successfully reset into bootloader!"@, Color::Green),
        ),
        EspEvent::EraseSuccess { chip } => Some((chip@ + " flash erased!"@, Color::Green)),
        EspEvent::BootloaderAttempt => Some(
            ("Attempted ESP reset into bootloader! (Unchecked)"@, Color::LightYellow),
        ),
        EspEvent::HardResetAttempt => Some(("Attempted ESP hard reset!"@, Color::LightYellow)),
        _ => None,
    }
}

/// What is shown after an event.
pub open spec fn popup_after(popup: Option<EspPopup>, event: EspEvent, new: Option<EspPopup>) -> bool {
    match event {
        EspEvent::DeviceInfo(info) => new matches Some(EspPopup::DeviceInfo(rows)) && row_views(
            rows@,
        ) == device_rows(info),
        EspEvent::FlashProgress(progress) => match progress {
            FlashProgress::SegmentInit { chip, addr, size, file_name } => new == Some(
                EspPopup::Flashing(
                    Flashing {
                        chip,
                        current_file_addr: addr,
                        current_file_len: size,
                        current_progress: 0,
                        current_file_name: file_name,
                        current_action: SegmentAction::Flashing,
                    },
                ),
            ),
            FlashProgress::Progress(n) => new == Some(
                EspPopup::Flashing(Flashing { current_progress: n, ..flashing_of(popup) }),
            ),
            FlashProgress::Verifying => new == Some(
                EspPopup::Flashing(
                    Flashing { current_action: SegmentAction::Verifying, ..flashing_of(popup) },
                ),
            ),
            FlashProgress::SegmentFinished { skipped } => new == Some(
                EspPopup::Flashing(
                    Flashing {
                        current_progress: flashing_of(popup).current_file_len,
                        current_action: if skipped {
                            SegmentAction::Skipped
                        } else {
                            SegmentAction::Finished
                        },
                        ..flashing_of(popup)
                    },
                ),
            ),
        },
        EspEvent::Connecting => new == Some(EspPopup::Connecting),
        EspEvent::Connected { chip } => new == Some(EspPopup::Connected { chip }),
        EspEvent::EraseStart { chip } => new == Some(EspPopup::Erasing { chip }),
        EspEvent::PortReturned => new == (if popup is Some && popup->0 is DeviceInfo {
            popup
        } else {
            None
        }),
        _ => new == popup,
    }
}

/// The progress that is shown.
pub open spec fn flashing_of(popup: Option<EspPopup>) -> Flashing {
    match popup {
        Some(EspPopup::Flashing(flashing)) => flashing,
        _ => arbitrary(),
    }
}

/// Whether an event can come while something is shown: progress is only made on
/// a segment that was begun, and errors are dealt with elsewhere.
pub open spec fn event_fits(popup: Option<EspPopup>, event: EspEvent) -> bool {
    match event {
        EspEvent::FlashProgress(FlashProgress::SegmentInit { .. }) => true,
        EspEvent::FlashProgress(_) => popup is Some && popup->0 is Flashing,
        EspEvent::Error(_) => false,
        _ => true,
    }
}

impl EspFlashHelper {
    /// No profiles.
    pub fn new(elfs: Vec<EspElf>, bins: Vec<EspBins>) -> (r: EspFlashHelper)
        ensures
            r == (EspFlashHelper {
                popup: None,
                bins,
                elfs,
                first_erase_press: None,
                unchecked_bootloader: false,
            }),
    {
        EspFlashHelper {
            popup: None,
            bins,
            elfs,
            first_erase_press: None,
            unchecked_bootloader: false,
        }
    }

    /// Whether an event can follow what is shown: progress comes only with something
    /// being flashed.
    pub fn accepts(&self, event: &EspEvent) -> (r: bool)
        ensures
            r == event_fits(self.popup, *event),
    {
        match event {
            EspEvent::FlashProgress(FlashProgress::SegmentInit { .. }) => true,
            EspEvent::FlashProgress(_) => match &self.popup {
                Some(EspPopup::Flashing(_)) => true,
                _ => false,
            },
            EspEvent::Error(_) => false,
            _ => true,
        }
    }

    /// Updates what is shown.
    pub fn consume_event(&mut self, event: EspEvent) -> (r: EspReaction)
        requires
            event_fits(old(self).popup, event),
        ensures
            popup_after(old(self).popup, event, final(self).popup),
            *final(self) == (EspFlashHelper { popup: final(self).popup, ..*old(self) }),
            (match r.notification {
                Some((text, color)) => Some((text@, color)),
                None => None,
            }) == event_notice(event),
            r.acknowledge_interrupt == (event is PortReturned),
    {
        let mut notification: Option<(String, Color)> = None;
        let mut acknowledge_interrupt = false;
        match event {
            EspEvent::BootloaderSuccess { chip } => {
                let text = concat3(chip.as_str(), " successfully reset into bootloader!", "");
                proof {
                    reveal_strlit("");
                    assert(text@ =~= chip@ + " successfully reset into bootloader!"@);
                }
                notification = Some((text, Color::Green));
            },
            EspEvent::EraseSuccess { chip } => {
                let text = concat3(chip.as_str(), " flash erased!", "");
                proof {
                    reveal_strlit("");
                    assert(text@ =~= chip@ + " flash erased!"@);
                }
                notification = Some((text, Color::Green));
            },
            EspEvent::BootloaderAttempt => {
                notification = Some(
                    (
                        "Attempted ESP reset into bootloader! (Unchecked)".to_owned(),
                        Color::LightYellow,
                    ),
                );
            },
            EspEvent::HardResetAttempt => {
                notification = Some(("Attempted ESP hard reset!".to_owned(), Color::LightYellow));
            },
            EspEvent::DeviceInfo(info) => {
                self.popup = Some(EspPopup::DeviceInfo(describe_device(&info)));
            },
            EspEvent::FlashProgress(progress) => match progress {
                FlashProgress::SegmentInit { chip, addr, size, file_name } => {
                    self.popup = Some(
                        EspPopup::Flashing(
                            Flashing {
                                chip,
                                current_file_addr: addr,
                                current_file_len: size,
                                current_progress: 0,
                                current_file_name: file_name,
                                current_action: SegmentAction::Flashing,
                            },
                        ),
                    );
                },
                FlashProgress::Progress(n) => {
                    match self.popup.take() {
                        Some(EspPopup::Flashing(flashing)) => {
                            let mut flashing = flashing;
                            flashing.current_progress = n;
                            self.popup = Some(EspPopup::Flashing(flashing));
                        },
                        _ => (),
                    }
                },
                FlashProgress::Verifying => {
                    match self.popup.take() {
                        Some(EspPopup::Flashing(flashing)) => {
                            let mut flashing = flashing;
                            flashing.current_action = SegmentAction::Verifying;
                            self.popup = Some(EspPopup::Flashing(flashing));
                        },
                        _ => (),
                    }
                },
                FlashProgress::SegmentFinished { skipped } => {
                    match self.popup.take() {
                        Some(EspPopup::Flashing(flashing)) => {
                            let mut flashing = flashing;
                            flashing.current_progress = flashing.current_file_len;
                            flashing.current_action = if skipped {
                                SegmentAction::Skipped
                            } else {
                                SegmentAction::Finished
                            };
                            self.popup = Some(EspPopup::Flashing(flashing));
                        },
                        _ => (),
                    }
                },
            },
            EspEvent::Connecting => {
                self.popup = Some(EspPopup::Connecting);
            },
            EspEvent::Connected { chip } => {
                self.popup = Some(EspPopup::Connected { chip });
            },
            EspEvent::EraseStart { chip } => {
                self.popup = Some(EspPopup::Erasing { chip });
            },
            EspEvent::PortReturned => {
                if !self.device_info_shown() {
                    self.popup = None;
                }
                acknowledge_interrupt = true;
            },
            EspEvent::Error(_) => (),
        }
        EspReaction { notification, acknowledge_interrupt }
    }

    /// Shows nothing.
    pub fn reset_popup(&mut self)
        ensures
            *final(self) == (EspFlashHelper { popup: None, ..*old(self) }),
    {
        self.popup = None;
    }

    /// Whether anything is shown.
    pub fn popup_active(&self) -> (r: bool)
        ensures
            r == (self.popup is Some),
    {
        self.popup.is_some()
    }

    /// Whether a device's description is shown.
    pub fn device_info_shown(&self) -> (r: bool)
        ensures
            r == (self.popup is Some && self.popup->0 is DeviceInfo),
    {
        match &self.popup {
            Some(EspPopup::DeviceInfo(_)) => true,
            _ => false,
        }
    }

    /// The number of profiles.
    pub open spec fn count(&self) -> nat {
        self.elfs@.len() + self.bins@.len()
    }

    /// Whether there are no profiles.
    pub fn is_empty(&self) -> (r: bool)
        ensures
            r == (self.count() == 0),
    {
        self.elfs.len() == 0 && self.bins.len() == 0
    }

    /// The number of profiles.
    pub fn len(&self) -> (r: usize)
        requires
            self.count() <= usize::MAX,
        ensures
            r == self.count(),
    {
        self.elfs.len() + self.bins.len()
    }

    /// The position of the first profile with a name: ELF files come first.
    pub open spec fn index_of_name(&self, query: Seq<char>, from: int) -> Option<int>
        decreases self.count() - from,
    {
        let names = profile_names(self.elfs@, self.bins@);
        if from < 0 || from >= self.count() {
            None
        } else if names[from] == query {
            Some(from)
        } else {
            self.index_of_name(query, from + 1)
        }
    }

    /// The profile at a position.
    pub open spec fn profile_at(&self, index: int) -> Option<EspProfile> {
        if 0 <= index < self.elfs@.len() {
            Some(EspProfile::Elf(self.elfs@[index]))
        } else if self.elfs@.len() <= index < self.count() {
            Some(EspProfile::Bins(self.bins@[index - self.elfs@.len()]))
        } else {
            None
        }
    }

    /// The position of the profile with a name.
    pub fn index_from_name(&self, query: &str) -> (r: Option<usize>)
        requires
            self.count() <= usize::MAX,
        ensures
            match self.index_of_name(query@, 0) {
                Some(i) => r is Some && r->0 == i && 0 <= i < self.count(),
                None => r is None,
            },
    {
        let ghost names = profile_names(self.elfs@, self.bins@);
        let elf_len: usize = self.elfs.len();
        let count: usize = self.len();
        let mut i: usize = 0;
        while i < count
            invariant
                names == profile_names(self.elfs@, self.bins@),
                elf_len == self.elfs@.len(),
                count == self.count(),
                i <= count,
                self.index_of_name(query@, 0) == self.index_of_name(query@, i as int),
            decreases count - i,
        {
            let same = if i < elf_len {
                assert(names[i as int] == self.elfs@[i as int].name@);
                str_eq(self.elfs[i].name.as_str(), query)
            } else {
                assert(names[i as int] == self.bins@[i - elf_len].name@);
                str_eq(self.bins[i - elf_len].name.as_str(), query)
            };
            if same {
                return Some(i);
            }
            i += 1;
        }
        None
    }

    /// The profile with a name.
    pub fn profile_from_name(&self, query: &str) -> (r: Option<EspProfile>)
        ensures
            match self.index_of_name(query@, 0) {
                Some(i) => r is Some && self.profile_at(i) is Some && same_profile(
                    r->0,
                    self.profile_at(i)->0,
                ) && r->0.title() == query@,
                None => r is None,
            },
    {
        let ghost names = profile_names(self.elfs@, self.bins@);
        let mut i: usize = 0;
        while i < self.elfs.len()
            invariant
                names == profile_names(self.elfs@, self.bins@),
                i <= self.elfs@.len(),
                self.index_of_name(query@, 0) == self.index_of_name(query@, i as int),
            decreases self.elfs@.len() - i,
        {
            assert(names[i as int] == self.elfs@[i as int].name@);
            if str_eq(self.elfs[i].name.as_str(), query) {
                return Some(EspProfile::Elf(self.elfs[i].duplicate()));
            }
            i += 1;
        }
        let mut j: usize = 0;
        while j < self.bins.len()
            invariant
                names == profile_names(self.elfs@, self.bins@),
                j <= self.bins@.len(),
                self.index_of_name(query@, 0) == self.index_of_name(
                    query@,
                    (self.elfs@.len() + j) as int,
                ),
            decreases self.bins@.len() - j,
        {
            assert(names[self.elfs@.len() + j] == self.bins@[j as int].name@);
            if str_eq(self.bins[j].name.as_str(), query) {
                return Some(EspProfile::Bins(self.bins[j].duplicate()));
            }
            j += 1;
        }
        None
    }

    /// The profile at a position: ELF files come first.
    pub fn profile_from_index(&self, index: usize) -> (r: Option<EspProfile>)
        ensures
            r is Some <==> self.profile_at(index as int) is Some,
            r is Some ==> same_profile(r->0, self.profile_at(index as int)->0),
    {
        let elf_len: usize = self.elfs.len();
        if index < elf_len {
            Some(EspProfile::Elf(self.elfs[index].duplicate()))
        } else {
            let bin_index: usize = index - elf_len;
            if bin_index < self.bins.len() {
                Some(EspProfile::Bins(self.bins[bin_index].duplicate()))
            } else {
                None
            }
        }
    }

    /// The button beside the profile at a position.
    pub open spec fn profile_flavor(&self, index: int) -> Seq<char> {
        if index < self.elfs@.len() {
            if self.elfs@[index].ram {
                "Load ELF!"@
            } else {
                "Flash ELF!"@
            }
        } else {
            "Flash BIN!"@
        }
    }

    /// The name of each profile, whether it is an ELF file, and whether that goes into
    /// the memory of the device only.
    pub fn profiles(&self) -> (r: Vec<(&str, bool, bool)>)
        ensures
            r@.len() == self.count(),
            forall|i: int|
                0 <= i < r@.len() ==> (#[trigger] r@[i]).0@ == profile_names(
                    self.elfs@,
                    self.bins@,
                )[i] && r@[i].1 == (i < self.elfs@.len()) && r@[i].2 == (i < self.elfs@.len()
                    && self.elfs@[i].ram),
    {
        let mut rows: Vec<(&str, bool, bool)> = Vec::new();
        let mut i: usize = 0;
        let ghost names = profile_names(self.elfs@, self.bins@);
        while i < self.elfs.len()
            invariant
                names == profile_names(self.elfs@, self.bins@),
                i <= self.elfs@.len(),
                rows@.len() == i,
                forall|k: int|
                    0 <= k < i ==> (#[trigger] rows@[k]).0@ == names[k] && rows@[k].1
                        && rows@[k].2 == self.elfs@[k].ram,
            decreases self.elfs@.len() - i,
        {
            rows.push((self.elfs[i].name.as_str(), true, self.elfs[i].ram));
            i += 1;
        }
        let mut j: usize = 0;
        while j < self.bins.len()
            invariant
                names == profile_names(self.elfs@, self.bins@),
                j <= self.bins@.len(),
                rows@.len() == self.elfs@.len() + j,
                forall|k: int|
                    0 <= k < rows@.len() ==> (#[trigger] rows@[k]).0@ == names[k] && rows@[k].1
                        == (k < self.elfs@.len()) && rows@[k].2 == (k < self.elfs@.len()
                        && self.elfs@[k].ram),
            decreases self.bins@.len() - j,
        {
            rows.push((self.bins[j].name.as_str(), false, false));
            j += 1;
        }
        rows
    }

    /// The name of each profile, and the button beside it.
    pub fn profiles_table(&self) -> (r: Vec<(String, String)>)
        ensures
            r@.len() == self.count(),
            forall|i: int|
                0 <= i < r@.len() ==> (#[trigger] r@[i]).0@ == profile_names(
                    self.elfs@,
                    self.bins@,
                )[i] + " "@ && r@[i].1@ == self.profile_flavor(i),
    {
        let profiles = self.profiles();
        let mut rows: Vec<(String, String)> = Vec::new();
        let mut i: usize = 0;
        let ghost names = profile_names(self.elfs@, self.bins@);
        while i < profiles.len()
            invariant
                names == profile_names(self.elfs@, self.bins@),
                profiles@.len() == self.count(),
                i <= profiles@.len(),
                rows@.len() == i,
                forall|k: int|
                    0 <= k < profiles@.len() ==> (#[trigger] profiles@[k]).0@ == names[k]
                        && profiles@[k].1 == (k < self.elfs@.len()) && profiles@[k].2 == (k
                        < self.elfs@.len() && self.elfs@[k].ram),
                forall|k: int|
                    0 <= k < i ==> (#[trigger] rows@[k]).0@ == names[k] + " "@ && rows@[k].1@
                        == self.profile_flavor(k),
            decreases profiles@.len() - i,
        {
            let (profile, is_elf, is_elf_ram) = profiles[i];
            let mut name = profile.to_owned();
            name.append(" ");
            let flavor = if is_elf_ram {
                "Load ELF!"
            } else if is_elf {
                "Flash ELF!"
            } else {
                "Flash BIN!"
            };
            rows.push((name, flavor.to_owned()));
            i += 1;
        }
        rows
    }
}

impl LastIndex for EspFlashHelper {
    open spec fn element_count(&self) -> nat {
        capped_count(self.count())
    }

    fn last_index_checked(&self) -> (r: Option<usize>) {
        let total: usize = self.elfs.len().saturating_add(self.bins.len());
        if total == 0 {
            None
        } else {
            Some(total - 1)
        }
    }
}

/// A count, or the largest machine number if that is smaller.
pub open spec fn capped_count(n: nat) -> nat {
    if n <= usize::MAX {
        n
    } else {
        usize::MAX as nat
    }
}

/// What is written beside each button.
pub open spec fn button_rows(unchecked_bootloader: bool, awaiting_erase_confirm: bool) -> Seq<
    (Seq<char>, Seq<char>),
> {
    seq![
        ("ESP->User Code  "@, "Reboot!"@),
        (
            "ESP->Bootloader "@,
            if unchecked_bootloader {
                "Reboot! (Unchecked)"@
            } else {
                "Reboot!"@
            },
        ),
        ("ESP->Device Info"@, "Get!"@),
        (
            "ESP->Erase Flash"@,
            if awaiting_erase_confirm {
                "Confirm?"@
            } else {
                "Erase!"@
            },
        ),
    ]
}

/// The buttons above the profiles.
pub fn espflash_buttons(unchecked_bootloader: bool, awaiting_erase_confirm: bool) -> (r: Vec<
    (String, String),
>)
    ensures
        row_views(r@) == button_rows(unchecked_bootloader, awaiting_erase_confirm),
{
    let mut rows: Vec<(String, String)> = Vec::new();
    assert(row_views(rows@) =~= Seq::empty());
    push_row(&mut rows, "ESP->User Code  ", "Reboot!".to_owned());
    push_row(
        &mut rows,
        "ESP->Bootloader ",
        if unchecked_bootloader {
            "Reboot! (Unchecked)".to_owned()
        } else {
            "Reboot!".to_owned()
        },
    );
    push_row(&mut rows, "ESP->Device Info", "Get!".to_owned());
    push_row(
        &mut rows,
        "ESP->Erase Flash",
        if awaiting_erase_confirm {
            "Confirm?".to_owned()
        } else {
            "Erase!".to_owned()
        },
    );
    assert(row_views(rows@) =~= button_rows(unchecked_bootloader, awaiting_erase_confirm));
    rows
}

impl EspPopup {
    /// The colour of the border.
    pub open spec fn color(&self) -> Color {
        match self {
            EspPopup::Connected { .. } => Color::Green,
            EspPopup::Connecting => Color::Cyan,
            EspPopup::DeviceInfo(_) => Color::LightGreen,
            EspPopup::Erasing { .. } => Color::Yellow,
            EspPopup::Flashing(_) => Color::Blue,
        }
    }

    /// The title in the border.
    pub open spec fn title(&self) -> Seq<char> {
        match self {
            EspPopup::DeviceInfo(_) => " Retrieved ESP Info "@,
            EspPopup::Flashing(flashing) => " Flashing "@ + flashing.chip@ + "... "@,
            _ => Seq::empty(),
        }
    }

    /// The colour of the border.
    pub fn border_color(&self) -> (r: Color)
        ensures
            r == self.color(),
    {
        match self {
            EspPopup::Connected { .. } => Color::Green,
            EspPopup::Connecting => Color::Cyan,
            EspPopup::DeviceInfo(_) => Color::LightGreen,
            EspPopup::Erasing { .. } => Color::Yellow,
            EspPopup::Flashing(_) => Color::Blue,
        }
    }

    /// The title in the border.
    pub fn block_title(&self) -> (r: String)
        ensures
            r@ == self.title(),
    {
        match self {
            EspPopup::DeviceInfo(_) => " Retrieved ESP Info ".to_owned(),
            EspPopup::Flashing(flashing) => concat3(" Flashing ", flashing.chip.as_str(), "... "),
            _ => String::new(),
        }
    }
}

impl Flashing {
    /// Which file goes where.
    pub open spec fn target(&self) -> Seq<char> {
        (match self.current_file_name {
            Some(name) => name@ + " "@,
            None => Seq::empty(),
        }) + "@ 0x"@ + crate::text::pad_left(
            crate::text::digits(self.current_file_addr as nat, 16),
            6,
            '0',
        )
    }

    /// Which file goes where.
    pub fn target_text(&self) -> (r: String)
        ensures
            r@ == self.target(),
    {
        let mut s = String::new();
        match &self.current_file_name {
            Some(name) => {
                s.append(name.as_str());
                s.append(" ");
            },
            None => (),
        }
        s.append("@ 0x");
        s.append(padded(number(self.current_file_addr as u64, 16).as_str(), 6, '0').as_str());
        assert(s@ =~= self.target());
        s
    }

    /// How many chunks of how many are done.
    pub open spec fn chunks(&self) -> Seq<char> {
        crate::text::digits(self.current_progress as nat, 10) + " / "@ + crate::text::digits(
            self.current_file_len as nat,
            10,
        )
    }

    /// How many chunks of how many are done.
    pub fn chunks_text(&self) -> (r: String)
        ensures
            r@ == self.chunks(),
    {
        let mut s = number(self.current_progress as u64, 10);
        s.append(" / ");
        s.append(number(self.current_file_len as u64, 10).as_str());
        s
    }

    /// What is written on the bar, where it is not the share that is done.
    pub fn fixed_label(&self) -> (r: Option<&'static str>)
        ensures
            (match r {
                Some(s) => Some(s@),
                None => None,
            }) == (match self.current_action {
                SegmentAction::Flashing => None,
                SegmentAction::Verifying => Some("Verifying..."@),
                SegmentAction::Skipped => Some("Skipped! (checksum matches)"@),
                SegmentAction::Finished => Some("Segment flashed successfully!"@),
            }),
    {
        match self.current_action {
            SegmentAction::Flashing => None,
            SegmentAction::Verifying => Some("Verifying..."),
            SegmentAction::Skipped => Some("Skipped! (checksum matches)"),
            SegmentAction::Finished => Some("Segment flashed successfully!"),
        }
    }

    /// The colour of the bar.
    pub open spec fn bar_color(&self) -> Color {
        match self.current_action {
            SegmentAction::Flashing => Color::Green,
            SegmentAction::Verifying => Color::LightMagenta,
            SegmentAction::Skipped => Color::LightBlue,
            SegmentAction::Finished => Color::LightGreen,
        }
    }

    /// The colour of the bar.
    pub fn gauge_color(&self) -> (r: Color)
        ensures
            r == self.bar_color(),
    {
        match self.current_action {
            SegmentAction::Flashing => Color::Green,
            SegmentAction::Verifying => Color::LightMagenta,
            SegmentAction::Skipped => Color::LightBlue,
            SegmentAction::Finished => Color::LightGreen,
        }
    }
}

/// A profile that is listed is found again by its name.
pub proof fn law_listed_profile_is_found(helper: EspFlashHelper, index: int)
    requires
        0 <= index < helper.count(),
        profile_names(helper.elfs@, helper.bins@).no_duplicates(),
    ensures
        helper.index_of_name(profile_names(helper.elfs@, helper.bins@)[index], 0) == Some(index),
{
    lemma_index_of_name(helper, index, 0);
}

proof fn lemma_index_of_name(helper: EspFlashHelper, index: int, from: int)
    requires
        0 <= from <= index < helper.count(),
        profile_names(helper.elfs@, helper.bins@).no_duplicates(),
    ensures
        helper.index_of_name(profile_names(helper.elfs@, helper.bins@)[index], from) == Some(index),
    decreases index - from,
{
    if from < index {
        lemma_index_of_name(helper, index, from + 1);
    }
}

} // verus!
