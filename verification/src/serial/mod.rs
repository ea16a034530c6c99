//! Serial ports: what they are called, what they report, and how they are kept
//! connected.

pub mod esp;
pub mod handle;
pub mod laws;
pub mod port_status;
pub mod supervisor;
pub mod worker;

use vstd::prelude::*;
use vstd::string::*;

use crate::text::{number, padded, str_eq};

verus! {

/// What a USB device says of itself.
#[derive(Debug, PartialEq, Eq)]
pub struct UsbPortInfo {
    pub vid: u16,
    pub pid: u16,
    pub serial_number: Option<String>,
    pub manufacturer: Option<String>,
    pub product: Option<String>,
}

/// What kind of port a port is.
#[derive(Debug, PartialEq, Eq)]
pub enum SerialPortType {
    UsbPort(UsbPortInfo),
    PciPort,
    BluetoothPort,
    Unknown,
}

/// A serial port of this machine.
#[derive(Debug, PartialEq, Eq)]
pub struct SerialPortInfo {
    pub port_name: String,
    pub port_type: SerialPortType,
}

/// What is known of a USB device.
#[verifier::ext_equal]
pub struct UsbView {
    pub vid: u16,
    pub pid: u16,
    pub serial_number: Option<Seq<char>>,
    pub manufacturer: Option<Seq<char>>,
    pub product: Option<Seq<char>>,
}

/// What is known of the kind of a port.
#[verifier::ext_equal]
pub enum PortTypeView {
    UsbPort(UsbView),
    PciPort,
    BluetoothPort,
    Unknown,
}

/// What is known of a port.
#[verifier::ext_equal]
pub struct PortView {
    pub name: Seq<char>,
    pub kind: PortTypeView,
}

/// The text of an optional string.
pub open spec fn opt_text(s: Option<String>) -> Option<Seq<char>> {
    match s {
        Some(s) => Some(s@),
        None => None,
    }
}

impl View for UsbPortInfo {
    type V = UsbView;

    open spec fn view(&self) -> UsbView {
        UsbView {
            vid: self.vid,
            pid: self.pid,
            serial_number: opt_text(self.serial_number),
            manufacturer: opt_text(self.manufacturer),
            product: opt_text(self.product),
        }
    }
}

impl View for SerialPortType {
    type V = PortTypeView;

    open spec fn view(&self) -> PortTypeView {
        match self {
            SerialPortType::UsbPort(usb) => PortTypeView::UsbPort(usb@),
            SerialPortType::PciPort => PortTypeView::PciPort,
            SerialPortType::BluetoothPort => PortTypeView::BluetoothPort,
            SerialPortType::Unknown => PortTypeView::Unknown,
        }
    }
}

impl View for SerialPortInfo {
    type V = PortView;

    open spec fn view(&self) -> PortView {
        PortView { name: self.port_name@, kind: self.port_type@ }
    }
}

/// What is known of some ports.
pub open spec fn port_views(ports: Seq<SerialPortInfo>) -> Seq<PortView> {
    ports.map_values(|p: SerialPortInfo| p@)
}

fn same_text(a: &Option<String>, b: &Option<String>) -> (r: bool)
    ensures
        r == (opt_text(*a) == opt_text(*b)),
{
    match (a, b) {
        (Some(a), Some(b)) => str_eq(a.as_str(), b.as_str()),
        (None, None) => true,
        _ => false,
    }
}

fn copy_text(a: &Option<String>) -> (r: Option<String>)
    ensures
        r == *a,
{
    match a {
        Some(s) => Some(s.clone()),
        None => None,
    }
}

impl UsbPortInfo {
    /// Whether two devices say the same of themselves.
    pub fn same(&self, other: &UsbPortInfo) -> (r: bool)
        ensures
            r == (self@ == other@),
    {
        self.vid == other.vid && self.pid == other.pid && same_text(
            &self.serial_number,
            &other.serial_number,
        ) && same_text(&self.manufacturer, &other.manufacturer) && same_text(
            &self.product,
            &other.product,
        )
    }

    /// Whether this device is the one that is asked for: its ids fit, and its
    /// serial number if one is given.
    pub open spec fn answers(self, query: UsbView) -> bool {
        &&& self.vid == query.vid
        &&& self.pid == query.pid
        &&& query.serial_number is Some ==> opt_text(self.serial_number) == query.serial_number
    }

    /// Whether this device is the one that is asked for.
    pub fn matches_query(&self, query: &UsbPortInfo) -> (r: bool)
        ensures
            r == self.answers(query@),
    {
        if self.pid != query.pid || self.vid != query.vid {
            return false;
        }
        match &query.serial_number {
            Some(_) => same_text(&self.serial_number, &query.serial_number),
            None => true,
        }
    }

    /// The same device again.
    pub fn duplicate(&self) -> (r: UsbPortInfo)
        ensures
            r == *self,
    {
        UsbPortInfo {
            vid: self.vid,
            pid: self.pid,
            serial_number: copy_text(&self.serial_number),
            manufacturer: copy_text(&self.manufacturer),
            product: copy_text(&self.product),
        }
    }

    /// What stands in for the device behind a port that is not a USB port.
    pub fn unknown() -> (r: UsbPortInfo)
        ensures
            r == (UsbPortInfo {
                vid: 0,
                pid: 0,
                serial_number: None,
                manufacturer: None,
                product: None,
            }),
    {
        UsbPortInfo { vid: 0, pid: 0, serial_number: None, manufacturer: None, product: None }
    }
}

impl SerialPortType {
    /// Whether two kinds are the same.
    pub fn same(&self, other: &SerialPortType) -> (r: bool)
        ensures
            r == (self@ == other@),
    {
        match (self, other) {
            (SerialPortType::UsbPort(a), SerialPortType::UsbPort(b)) => a.same(b),
            (SerialPortType::PciPort, SerialPortType::PciPort) => true,
            (SerialPortType::BluetoothPort, SerialPortType::BluetoothPort) => true,
            (SerialPortType::Unknown, SerialPortType::Unknown) => true,
            _ => false,
        }
    }

    /// The same kind again.
    pub fn duplicate(&self) -> (r: SerialPortType)
        ensures
            r == *self,
    {
        match self {
            SerialPortType::UsbPort(usb) => SerialPortType::UsbPort(usb.duplicate()),
            SerialPortType::PciPort => SerialPortType::PciPort,
            SerialPortType::BluetoothPort => SerialPortType::BluetoothPort,
            SerialPortType::Unknown => SerialPortType::Unknown,
        }
    }
}

impl SerialPortInfo {
    /// Whether two ports have the same name and kind.
    pub fn same(&self, other: &SerialPortInfo) -> (r: bool)
        ensures
            r == (self@ == other@),
    {
        str_eq(self.port_name.as_str(), other.port_name.as_str()) && self.port_type.same(
            &other.port_type,
        )
    }

    /// The same port again.
    pub fn duplicate(&self) -> (r: SerialPortInfo)
        ensures
            r == *self,
    {
        SerialPortInfo {
            port_name: self.port_name.clone(),
            port_type: self.port_type.duplicate(),
        }
    }
}

/// Copies a list of ports.
pub fn duplicate_ports(ports: &Vec<SerialPortInfo>) -> (r: Vec<SerialPortInfo>)
    ensures
        r@ == ports@,
{
    let mut copy: Vec<SerialPortInfo> = Vec::new();
    let mut i: usize = 0;
    while i < ports.len()
        invariant
            i <= ports.len(),
            copy@ =~= ports@.take(i as int),
        decreases ports.len() - i,
    {
        copy.push(ports[i].duplicate());
        i += 1;
    }
    copy
}

/// How a port was found again after its connection was lost.
#[derive(Clone, Copy, Debug, PartialEq, Eq, Structural)]
pub enum ReconnectType {
    /// A port with the name and kind of the last one.
    PerfectMatch,
    /// A USB device with all characteristics of the last one.
    UsbStrict,
    /// A USB device with the product and vendor ids of the last one.
    UsbLoose,
    /// A port with the name of the last one.
    LastDitch,
}

/// Why a connection ended.
#[derive(Debug)]
pub enum SerialDisconnectReason {
    /// The user went back to the selection of ports.
    Intentional,
    /// The user broke the connection but stays in the terminal.
    UserBrokeConnection,
    /// An error occurred.
    Error(String),
}

/// How far a reconnection may stray from the port that was lost.
#[derive(Clone, Copy, Debug, PartialEq, Eq, Structural)]
pub enum ReconnectionStrictness {
    /// No reconnections.
    Disabled,
    /// Only to the same port, or to a USB device with all the same characteristics.
    High,
    /// Also to a USB device with the same product and vendor ids.
    Med,
    /// Also to any port of the same name.
    Low,
}

impl ReconnectionStrictness {
    /// Whether a reconnection may happen in a given way.
    pub open spec fn permits(self, kind: ReconnectType) -> bool {
        match kind {
            ReconnectType::PerfectMatch => !(self is Disabled),
            ReconnectType::UsbStrict => !(self is Disabled),
            ReconnectType::UsbLoose => self is Med || self is Low,
            ReconnectType::LastDitch => self is Low,
        }
    }

    /// Whether reconnections may happen at all.
    pub fn allowed(&self) -> (r: bool)
        ensures
            r == !(self is Disabled),
    {
        match self {
            ReconnectionStrictness::Disabled => false,
            _ => true,
        }
    }

    /// Whether a USB device that only has the same ids will do.
    pub fn allows_loose(&self) -> (r: bool)
        ensures
            r == self.permits(ReconnectType::UsbLoose),
    {
        match self {
            ReconnectionStrictness::Med => true,
            ReconnectionStrictness::Low => true,
            _ => false,
        }
    }

    /// Whether any port of the same name will do.
    pub fn allows_last_ditch(&self) -> (r: bool)
        ensures
            r == self.permits(ReconnectType::LastDitch),
    {
        match self {
            ReconnectionStrictness::Low => true,
            _ => false,
        }
    }
}

/// Four digits in base sixteen.
pub open spec fn hex_id(n: u16) -> Seq<char> {
    crate::text::pad_left(crate::text::digits(n as nat, 16), 4, '0')
}

/// Four digits in base sixteen.
pub fn hex_id_string(n: u16) -> (r: String)
    ensures
        r@ == hex_id(n),
{
    padded(number(n as u64, 16).as_str(), 4, '0')
}

/// What is said of a kind of port beside its name.
pub open spec fn extra_info(kind: SerialPortType) -> Seq<char> {
    match kind {
        SerialPortType::UsbPort(usb) => "VID: 0x"@ + hex_id(usb.vid) + ", PID: 0x"@ + hex_id(
            usb.pid,
        ),
        SerialPortType::Unknown => Seq::empty(),
        SerialPortType::PciPort => "PCI"@,
        SerialPortType::BluetoothPort => "Bluetooth"@,
    }
}

/// A port in one line.
pub open spec fn port_summary(port: SerialPortInfo, baud_rate: Option<u32>) -> Seq<char> {
    port.port_name@ + (match baud_rate {
        Some(baud) => " @ "@ + crate::text::digits(baud as nat, 10),
        None => Seq::empty(),
    }) + (if extra_info(port.port_type).len() == 0 {
        Seq::empty()
    } else {
        " | "@ + extra_info(port.port_type)
    })
}

/// Describing a port in one line.
pub trait PrintablePortInfo {
    /// The description.
    spec fn summary(&self, baud_rate: Option<u32>) -> Seq<char>;

    /// Name, baud rate and kind of a port in one line.
    fn info_as_string(&self, baud_rate: Option<u32>) -> (r: String)
        ensures
            r@ == self.summary(baud_rate),
    ;
}

fn extra_info_string(kind: &SerialPortType) -> (r: String)
    ensures
        r@ == extra_info(*kind),
{
    match kind {
        SerialPortType::UsbPort(usb) => {
            let mut s = "VID: 0x".to_owned();
            s.append(hex_id_string(usb.vid).as_str());
            s.append(", PID: 0x");
            s.append(hex_id_string(usb.pid).as_str());
            s
        },
        SerialPortType::Unknown => String::new(),
        SerialPortType::PciPort => "PCI".to_owned(),
        SerialPortType::BluetoothPort => "Bluetooth".to_owned(),
    }
}

impl PrintablePortInfo for SerialPortInfo {
    open spec fn summary(&self, baud_rate: Option<u32>) -> Seq<char> {
        port_summary(*self, baud_rate)
    }

    fn info_as_string(&self, baud_rate: Option<u32>) -> (r: String) {
        let extra = extra_info_string(&self.port_type);
        let mut s = self.port_name.clone();
        match baud_rate {
            Some(baud) => {
                s.append(" @ ");
                s.append(number(baud as u64, 10).as_str());
            },
            None => (),
        }
        if !extra.as_str().is_empty() {
            s.append(" | ");
            s.append(extra.as_str());
        }
        assert(s@ =~= port_summary(*self, baud_rate));
        s
    }
}

/// The lines of a port beside its data.
#[derive(Clone, Copy, Debug, PartialEq, Eq, Structural)]
pub struct SerialSignals {
    /// Request to send; ours.
    pub rts: bool,
    /// Data terminal ready; ours.
    pub dtr: bool,
    /// Clear to send.
    pub cts: bool,
    /// Data set ready.
    pub dsr: bool,
    /// Ring indicator.
    pub ri: bool,
    /// Carrier detect.
    pub cd: bool,
}

/// The lines that the other end controls, as they were read.
#[derive(Clone, Copy, Debug, PartialEq, Eq, Structural)]
pub struct SlaveSignals {
    pub cts: bool,
    pub dsr: bool,
    pub ri: bool,
    pub cd: bool,
}

impl SerialSignals {
    /// With the lines of the other end as they were read.
    pub open spec fn with_slave(self, slave: SlaveSignals) -> SerialSignals {
        SerialSignals { cts: slave.cts, dsr: slave.dsr, ri: slave.ri, cd: slave.cd, ..self }
    }

    /// Takes over the lines of the other end, and tells whether any changed.
    pub fn update_slave_signals(&mut self, slave: SlaveSignals) -> (changed: bool)
        ensures
            *final(self) == old(self).with_slave(slave),
            changed == (*final(self) != *old(self)),
    {
        let changed = self.cts != slave.cts || self.dsr != slave.dsr || self.ri != slave.ri
            || self.cd != slave.cd;
        self.cts = slave.cts;
        self.dsr = slave.dsr;
        self.ri = slave.ri;
        self.cd = slave.cd;
        changed
    }
}

/// What happens to one of our lines on connecting.
#[derive(Clone, Copy, Debug, PartialEq, Eq, Structural)]
pub enum SignalAssertion {
    /// It is set to the given level.
    Bool(bool),
    /// It is left alone.
    Untouched,
    /// On reconnecting: as on connecting.
    InheritConnect,
}

impl SignalAssertion {
    /// A fixed level.
    pub fn from_bool(value: bool) -> (r: SignalAssertion)
        ensures
            r == SignalAssertion::Bool(value),
    {
        SignalAssertion::Bool(value)
    }

    /// The level, if there is a fixed one; otherwise low.
    pub fn into_bool(self) -> (r: bool)
        ensures
            r == (self == SignalAssertion::Bool(true)),
    {
        match self {
            SignalAssertion::Bool(b) => b,
            _ => false,
        }
    }

    /// How the choice is written where it is not a fixed level.
    pub fn as_text(&self) -> (r: Option<&'static str>)
        ensures
            (match r {
                Some(s) => Some(s@),
                None => None,
            }) == (match self {
                SignalAssertion::Bool(_) => None,
                SignalAssertion::Untouched => Some("Untouched"@),
                SignalAssertion::InheritConnect => Some("InheritConnect"@),
            }),
    {
        match self {
            SignalAssertion::Bool(_) => None,
            SignalAssertion::Untouched => Some("Untouched"),
            SignalAssertion::InheritConnect => Some("InheritConnect"),
        }
    }
}

} // verus!
