//! Keeping a port connected: which ports are offered, which one is connected to
//! again, and how data is passed on.

use vstd::prelude::*;
use vstd::string::*;

use crate::serial::{
    PortTypeView, PortView, ReconnectType, ReconnectionStrictness, SerialPortInfo, SerialPortType,
    SerialSignals, UsbPortInfo, UsbView,
};
use crate::text::str_eq;

verus! {

/// The name of the port that sends back what it is sent.
pub const MOCK_PORT_NAME: &'static str = "lorem-ipsum";

/// The bytes that the looped port starts with: each byte once.
pub fn mock_data() -> (r: Vec<u8>)
    ensures
        r@ == Seq::new(256, |i: int| i as u8),
{
    let mut data: Vec<u8> = Vec::new();
    let mut i: u16 = 0;
    while i < 256
        invariant
            i <= 256,
            data@ =~= Seq::new(i as nat, |j: int| j as u8),
        decreases 256 - i,
    {
        data.push(i as u8);
        i += 1;
    }
    data
}

/// The devices that are not offered.
#[derive(Debug)]
pub struct Ignored {
    pub name: Vec<String>,
    pub usb: Vec<UsbPortInfo>,
    pub show_ttys_ports: bool,
    pub hide_loopback_port: bool,
}

/// Whether a device is ignored by its USB characteristics: its ids fit, and its
/// serial number if one is listed.
pub open spec fn usb_ignored(ignored: Seq<UsbPortInfo>, usb: UsbPortInfo) -> bool {
    exists|i: int| 0 <= i < ignored.len() && usb.answers((#[trigger] ignored[i])@)
}

/// Whether a name is listed.
pub open spec fn name_listed(names: Seq<String>, name: Seq<char>) -> bool {
    exists|i: int| 0 <= i < names.len() && (#[trigger] names[i])@ == name
}

/// Whether a text starts with another.
pub open spec fn starts_with(s: Seq<char>, prefix: Seq<char>) -> bool {
    prefix.len() <= s.len() && s.take(prefix.len() as int) == prefix
}

/// Whether a port is offered.
pub open spec fn offered(port: SerialPortInfo, ignored: Ignored) -> bool {
    &&& !name_listed(ignored.name@, port.port_name@)
    &&& ignored.show_ttys_ports || !starts_with(port.port_name@, "/dev/ttyS"@)
    &&& match port.port_type {
        SerialPortType::UsbPort(usb) => !usb_ignored(ignored.usb@, usb),
        _ => true,
    }
}

/// The port that sends back what it is sent.
pub open spec fn mock_port() -> PortView {
    PortView { name: MOCK_PORT_NAME@, kind: PortTypeView::Unknown }
}

/// The ports that are offered out of those that were found.
pub open spec fn offered_ports(found: Seq<SerialPortInfo>, ignored: Ignored) -> Seq<PortView> {
    crate::serial::port_views(found.filter(|p: SerialPortInfo| offered(p, ignored))) + (
    if ignored.hide_loopback_port {
        Seq::empty()
    } else {
        seq![mock_port()]
    })
}

fn is_name_listed(names: &Vec<String>, name: &str) -> (r: bool)
    ensures
        r == name_listed(names@, name@),
{
    let mut i: usize = 0;
    while i < names.len()
        invariant
            i <= names.len(),
            forall|j: int| 0 <= j < i ==> (#[trigger] names@[j])@ != name@,
        decreases names.len() - i,
    {
        if str_eq(names[i].as_str(), name) {
            assert(names@[i as int]@ == name@);
            return true;
        }
        i += 1;
    }
    false
}

fn is_usb_ignored(ignored: &Vec<UsbPortInfo>, usb: &UsbPortInfo) -> (r: bool)
    ensures
        r == usb_ignored(ignored@, *usb),
{
    let mut i: usize = 0;
    while i < ignored.len()
        invariant
            i <= ignored.len(),
            forall|j: int| 0 <= j < i ==> !usb.answers((#[trigger] ignored@[j])@),
        decreases ignored.len() - i,
    {
        if usb.matches_query(&ignored[i]) {
            assert(usb.answers(ignored@[i as int]@));
            return true;
        }
        i += 1;
    }
    false
}

fn has_prefix(s: &str, prefix: &str) -> (r: bool)
    ensures
        r == starts_with(s@, prefix@),
{
    let len: usize = prefix.unicode_len();
    if s.unicode_len() < len {
        return false;
    }
    let head = s.substring_char(0, len);
    assert(head@ =~= s@.take(prefix@.len() as int));
    str_eq(head, prefix)
}

fn is_offered(port: &SerialPortInfo, ignored: &Ignored) -> (r: bool)
    ensures
        r == offered(*port, *ignored),
{
    if is_name_listed(&ignored.name, port.port_name.as_str()) {
        return false;
    }
    if !ignored.show_ttys_ports && has_prefix(port.port_name.as_str(), "/dev/ttyS") {
        return false;
    }
    match &port.port_type {
        SerialPortType::UsbPort(usb) => !is_usb_ignored(&ignored.usb, usb),
        _ => true,
    }
}

/// The ports that are offered out of those that were found, with the looped port
/// behind them unless it is hidden.
pub fn filter_ports(found: &Vec<SerialPortInfo>, ignored: &Ignored) -> (r: Vec<SerialPortInfo>)
    ensures
        crate::serial::port_views(r@) == offered_ports(found@, *ignored),
{
    let ghost keep = |p: SerialPortInfo| offered(p, *ignored);
    let mut ports: Vec<SerialPortInfo> = Vec::new();
    let mut i: usize = 0;
    assert(found@.take(0).filter(keep) =~= Seq::<SerialPortInfo>::empty()) by {
        reveal(Seq::filter);
    }
    while i < found.len()
        invariant
            i <= found.len(),
            keep == (|p: SerialPortInfo| offered(p, *ignored)),
            ports@ == found@.take(i as int).filter(keep),
        decreases found.len() - i,
    {
        proof {
            assert(found@.take(i + 1).drop_last() =~= found@.take(i as int));
            reveal(Seq::filter);
        }
        if is_offered(&found[i], ignored) {
            ports.push(found[i].duplicate());
        }
        i += 1;
    }
    assert(found@.take(i as int) =~= found@);
    if !ignored.hide_loopback_port {
        let ghost before = ports@;
        let mock = SerialPortInfo {
            port_name: MOCK_PORT_NAME.to_owned(),
            port_type: SerialPortType::Unknown,
        };
        ports.push(mock);
        assert(crate::serial::port_views(ports@) =~= crate::serial::port_views(before).push(mock@));
    }
    assert(crate::serial::port_views(ports@) =~= offered_ports(found@, *ignored));
    ports
}

/// Nothing that is ignored is ever offered.
pub proof fn law_ignored_is_never_offered(found: Seq<SerialPortInfo>, ignored: Ignored, i: int)
    requires
        0 <= i < offered_ports(found, ignored).len(),
    ensures
        offered_ports(found, ignored)[i] == mock_port() || exists|j: int|
            0 <= j < found.len() && offered(#[trigger] found[j], ignored) && found[j]@
                == offered_ports(found, ignored)[i],
{
    let keep = |p: SerialPortInfo| offered(p, ignored);
    let kept = found.filter(keep);
    if i < kept.len() {
        lemma_filtered_from(found, keep, i);
        assert(offered_ports(found, ignored)[i] == kept[i]@);
    }
}

pub proof fn lemma_filtered_from(found: Seq<SerialPortInfo>, keep: spec_fn(SerialPortInfo) -> bool, i: int)
    requires
        0 <= i < found.filter(keep).len(),
    ensures
        exists|j: int|
            0 <= j < found.len() && keep(found[j]) && #[trigger] found[j] == found.filter(keep)[i],
    decreases found.len(),
{
    reveal(Seq::filter);
    if found.len() > 0 {
        let init = found.drop_last();
        if i < init.filter(keep).len() {
            lemma_filtered_from(init, keep, i);
            let j = choose|j: int|
                0 <= j < init.len() && keep(init[j]) && #[trigger] init[j] == init.filter(keep)[i];
            assert(found[j] == found.filter(keep)[i]);
        } else {
            assert(found[found.len() - 1] == found.filter(keep)[i]);
        }
    }
}


/// Which port is held.
#[derive(Clone, Copy, Debug, PartialEq, Eq, Structural)]
pub enum HeldPort {
    /// None: not connected, or the connection was lost or broken.
    Missing,
    /// It is lent out and expected back.
    Borrowed,
    /// A port of this machine.
    Native,
    /// The port that sends back what it is sent.
    Loopback,
}

impl HeldPort {
    /// Whether a port is held or lent out.
    pub open spec fn is_held(self) -> bool {
        !(self is Missing)
    }

    /// Whether a port can be read and written.
    pub open spec fn can_transfer(self) -> bool {
        self is Native || self is Loopback
    }

    /// Whether a port is held or lent out.
    pub fn is_some(self) -> (r: bool)
        ensures
            r == self.is_held(),
    {
        match self {
            HeldPort::Missing => false,
            _ => true,
        }
    }

    /// Whether a port can be read and written.
    pub fn is_available(self) -> (r: bool)
        ensures
            r == self.can_transfer(),
    {
        match self {
            HeldPort::Native => true,
            HeldPort::Loopback => true,
            _ => false,
        }
    }

    /// How long to wait for a command before the port is looked at again, in
    /// milliseconds.
    pub fn poll_interval(self) -> (r: u64)
        ensures
            r == (if self is Missing {
                100u64
            } else {
                10u64
            }),
    {
        if self.is_some() {
            10
        } else {
            100
        }
    }
}

/// The first port that satisfies a condition, from position `from` on.
pub open spec fn first_port(
    ports: Seq<SerialPortInfo>,
    wanted: spec_fn(PortView) -> bool,
    from: int,
) -> Option<int>
    decreases ports.len() - from,
{
    if from < 0 || from >= ports.len() {
        None
    } else if wanted(ports[from]@) {
        Some(from)
    } else {
        first_port(ports, wanted, from + 1)
    }
}

pub proof fn lemma_first_port(
    ports: Seq<SerialPortInfo>,
    wanted: spec_fn(PortView) -> bool,
    from: int,
)
    requires
        0 <= from,
    ensures
        first_port(ports, wanted, from) matches Some(i) ==> from <= i < ports.len() && wanted(
            ports[i]@,
        ),
        first_port(ports, wanted, from) is None ==> forall|i: int|
            from <= i < ports.len() ==> !wanted((#[trigger] ports[i])@),
    decreases ports.len() - from,
{
    if from < ports.len() && !wanted(ports[from]@) {
        lemma_first_port(ports, wanted, from + 1);
    }
}

/// A port that answers a query by USB characteristics.
pub open spec fn usb_answer(query: UsbView) -> spec_fn(PortView) -> bool {
    |p: PortView|
        match p.kind {
            PortTypeView::UsbPort(usb) => usb.vid == query.vid && usb.pid == query.pid && (
            query.serial_number is Some ==> usb.serial_number == query.serial_number),
            _ => false,
        }
}

/// Looks for a device with the requested characteristics.
pub fn find_usb(ports: &Vec<SerialPortInfo>, query: &UsbPortInfo) -> (r: Option<usize>)
    ensures
        match first_port(ports@, usb_answer(query@), 0) {
            Some(i) => r is Some && r->0 == i && 0 <= i < ports@.len(),
            None => r is None,
        },
{
    let ghost wanted = usb_answer(query@);
    let mut i: usize = 0;
    while i < ports.len()
        invariant
            i <= ports@.len(),
            wanted == usb_answer(query@),
            first_port(ports@, wanted, 0) == first_port(ports@, wanted, i as int),
        decreases ports@.len() - i,
    {
        let fits = match &ports[i].port_type {
            SerialPortType::UsbPort(usb) => usb.matches_query(query),
            _ => false,
        };
        assert(fits == wanted(ports@[i as int]@));
        if fits {
            return Some(i);
        }
        i += 1;
    }
    None
}

/// Whether a port is among those of a list.
pub open spec fn listed(ports: Seq<SerialPortInfo>, port: PortView) -> bool {
    exists|i: int| 0 <= i < ports.len() && (#[trigger] ports[i])@ == port
}

fn is_listed(ports: &Vec<SerialPortInfo>, port: &SerialPortInfo) -> (r: bool)
    ensures
        r == listed(ports@, port@),
{
    let mut i: usize = 0;
    while i < ports.len()
        invariant
            i <= ports.len(),
            forall|j: int| 0 <= j < i ==> (#[trigger] ports@[j])@ != port@,
        decreases ports.len() - i,
    {
        if ports[i].same(port) {
            assert(ports@[i as int]@ == port@);
            return true;
        }
        i += 1;
    }
    false
}

/// Whether a port will do in place of the one that was lost.
pub open spec fn replaces(
    kind: ReconnectType,
    desired: PortView,
    snapshot: Seq<SerialPortInfo>,
) -> spec_fn(PortView) -> bool {
    |p: PortView|
        match kind {
            ReconnectType::PerfectMatch => p == desired,
            ReconnectType::UsbStrict => desired.kind is UsbPort && !listed(snapshot, p) && p.kind
                == desired.kind,
            ReconnectType::UsbLoose => {
                &&& desired.kind is UsbPort
                &&& !listed(snapshot, p)
                &&& p.kind is UsbPort
                &&& p.kind->UsbPort_0.vid == desired.kind->UsbPort_0.vid
                &&& p.kind->UsbPort_0.pid == desired.kind->UsbPort_0.pid
            },
            ReconnectType::LastDitch => p.name == desired.name,
        }
}

/// The port to reconnect to, and why: the strictest reason that is allowed and
/// that some port satisfies, and of those ports the first.
pub open spec fn reconnect_choice(
    ports: Seq<SerialPortInfo>,
    desired: PortView,
    snapshot: Seq<SerialPortInfo>,
    strictness: ReconnectionStrictness,
) -> Option<(int, ReconnectType)> {
    let perfect = first_port(ports, replaces(ReconnectType::PerfectMatch, desired, snapshot), 0);
    let strict = first_port(ports, replaces(ReconnectType::UsbStrict, desired, snapshot), 0);
    let loose = first_port(ports, replaces(ReconnectType::UsbLoose, desired, snapshot), 0);
    let last = first_port(ports, replaces(ReconnectType::LastDitch, desired, snapshot), 0);
    if strictness is Disabled {
        None
    } else if perfect is Some {
        Some((perfect->0, ReconnectType::PerfectMatch))
    } else if strict is Some {
        Some((strict->0, ReconnectType::UsbStrict))
    } else if strictness.permits(ReconnectType::UsbLoose) && loose is Some {
        Some((loose->0, ReconnectType::UsbLoose))
    } else if strictness.permits(ReconnectType::LastDitch) && last is Some {
        Some((last->0, ReconnectType::LastDitch))
    } else {
        None
    }
}

fn find_replacement(
    kind: ReconnectType,
    ports: &Vec<SerialPortInfo>,
    desired: &SerialPortInfo,
    snapshot: &Vec<SerialPortInfo>,
) -> (r: Option<usize>)
    ensures
        match first_port(ports@, replaces(kind, desired@, snapshot@), 0) {
            Some(i) => r is Some && r->0 == i && 0 <= i < ports@.len(),
            None => r is None,
        },
{
    let ghost wanted = replaces(kind, desired@, snapshot@);
    let mut i: usize = 0;
    while i < ports.len()
        invariant
            i <= ports@.len(),
            wanted == replaces(kind, desired@, snapshot@),
            first_port(ports@, wanted, 0) == first_port(ports@, wanted, i as int),
        decreases ports@.len() - i,
    {
        let port = &ports[i];
        let fits = match kind {
            ReconnectType::PerfectMatch => port.same(desired),
            ReconnectType::UsbStrict => match &desired.port_type {
                SerialPortType::UsbPort(_) => !is_listed(snapshot, port) && port.port_type.same(
                    &desired.port_type,
                ),
                _ => false,
            },
            ReconnectType::UsbLoose => match (&desired.port_type, &port.port_type) {
                (SerialPortType::UsbPort(old_usb), SerialPortType::UsbPort(usb)) => !is_listed(
                    snapshot,
                    port,
                ) && usb.vid == old_usb.vid && usb.pid == old_usb.pid,
                _ => false,
            },
            ReconnectType::LastDitch => str_eq(port.port_name.as_str(), desired.port_name.as_str()),
        };
        assert(fits == wanted(ports@[i as int]@));
        if fits {
            return Some(i);
        }
        i += 1;
    }
    None
}

/// Chooses the port to reconnect to.
///
/// `ports` are those that are offered now, `snapshot` those that were when the
/// connection was lost: a similar device that was there all along is left alone.
pub fn choose_reconnect(
    ports: &Vec<SerialPortInfo>,
    desired: &SerialPortInfo,
    snapshot: &Vec<SerialPortInfo>,
    strictness: ReconnectionStrictness,
) -> (r: Option<(usize, ReconnectType)>)
    ensures
        match reconnect_choice(ports@, desired@, snapshot@, strictness) {
            Some((i, kind)) => r is Some && (r->0).0 == i && (r->0).1 == kind && 0 <= i < ports@.len(),
            None => r is None,
        },
        r matches Some((i, kind)) ==> (kind is UsbStrict || kind is UsbLoose) ==> forall|j: int|
            0 <= j < snapshot@.len() ==> (#[trigger] snapshot@[j])@ != ports@[i as int]@,
{
    proof {
        law_reconnect_is_permitted(ports@, desired@, snapshot@, strictness);
    }
    if !strictness.allowed() {
        return None;
    }
    match find_replacement(ReconnectType::PerfectMatch, ports, desired, snapshot) {
        Some(i) => {
            return Some((i, ReconnectType::PerfectMatch));
        },
        None => (),
    }
    match find_replacement(ReconnectType::UsbStrict, ports, desired, snapshot) {
        Some(i) => {
            return Some((i, ReconnectType::UsbStrict));
        },
        None => (),
    }
    if strictness.allows_loose() {
        match find_replacement(ReconnectType::UsbLoose, ports, desired, snapshot) {
            Some(i) => {
                return Some((i, ReconnectType::UsbLoose));
            },
            None => (),
        }
    }
    if strictness.allows_last_ditch() {
        match find_replacement(ReconnectType::LastDitch, ports, desired, snapshot) {
            Some(i) => {
                return Some((i, ReconnectType::LastDitch));
            },
            None => (),
        }
    }
    None
}

/// A reconnection only ever happens in a way that is permitted, to a port that is
/// offered and satisfies it.
pub proof fn law_reconnect_is_permitted(
    ports: Seq<SerialPortInfo>,
    desired: PortView,
    snapshot: Seq<SerialPortInfo>,
    strictness: ReconnectionStrictness,
)
    ensures
        reconnect_choice(ports, desired, snapshot, strictness) matches Some((i, kind)) ==> {
            &&& strictness.permits(kind)
            &&& 0 <= i < ports.len()
            &&& replaces(kind, desired, snapshot)(ports[i]@)
        },
{
    lemma_first_port(ports, replaces(ReconnectType::PerfectMatch, desired, snapshot), 0);
    lemma_first_port(ports, replaces(ReconnectType::UsbStrict, desired, snapshot), 0);
    lemma_first_port(ports, replaces(ReconnectType::UsbLoose, desired, snapshot), 0);
    lemma_first_port(ports, replaces(ReconnectType::LastDitch, desired, snapshot), 0);
}

/// If the very port that was lost is offered again, it is the one that is taken.
pub proof fn law_same_port_is_preferred(
    ports: Seq<SerialPortInfo>,
    desired: PortView,
    snapshot: Seq<SerialPortInfo>,
    strictness: ReconnectionStrictness,
)
    requires
        !(strictness is Disabled),
        listed(ports, desired),
    ensures
        reconnect_choice(ports, desired, snapshot, strictness) is Some,
        ports[(reconnect_choice(ports, desired, snapshot, strictness)->0).0]@ == desired,
{
    let wanted = replaces(ReconnectType::PerfectMatch, desired, snapshot);
    lemma_first_port(ports, wanted, 0);
    let i = choose|i: int| 0 <= i < ports.len() && (#[trigger] ports[i])@ == desired;
    assert(wanted(ports[i]@));
}

/// A laxer setting finds a port wherever a stricter one does, and the same one.
pub proof fn law_laxer_settings_find_more(
    ports: Seq<SerialPortInfo>,
    desired: PortView,
    snapshot: Seq<SerialPortInfo>,
)
    ensures
        reconnect_choice(ports, desired, snapshot, ReconnectionStrictness::High) is Some
            ==> reconnect_choice(ports, desired, snapshot, ReconnectionStrictness::Med)
            == reconnect_choice(ports, desired, snapshot, ReconnectionStrictness::High),
        reconnect_choice(ports, desired, snapshot, ReconnectionStrictness::Med) is Some
            ==> reconnect_choice(ports, desired, snapshot, ReconnectionStrictness::Low)
            == reconnect_choice(ports, desired, snapshot, ReconnectionStrictness::Med),
{
}

/// A port that equals another.
pub open spec fn same_as(lost: PortView) -> spec_fn(PortView) -> bool {
    |p: PortView| p == lost
}

/// The ports to remember when a connection was lost: those that are still there,
/// without the first that is the lost one.
pub open spec fn snapshot_without(ports: Seq<SerialPortInfo>, lost: PortView) -> Seq<
    SerialPortInfo,
> {
    match first_port(ports, same_as(lost), 0) {
        Some(i) => ports.remove(i),
        None => ports,
    }
}

/// The ports to remember when a connection was lost.
pub fn snapshot_at_disconnect(found: Vec<SerialPortInfo>, lost: &SerialPortInfo) -> (r: Vec<
    SerialPortInfo,
>)
    ensures
        r@ == snapshot_without(found@, lost@),
{
    let mut ports = found;
    let ghost before = found@;
    let ghost wanted = same_as(lost@);
    let mut i: usize = 0;
    while i < ports.len()
        invariant
            i <= ports@.len(),
            ports@ == before,
            before == found@,
            wanted == same_as(lost@),
            first_port(before, wanted, 0) == first_port(before, wanted, i as int),
        decreases ports@.len() - i,
    {
        if ports[i].same(lost) {
            assert(wanted(before[i as int]@));
            let _gone = ports.remove(i);
            return ports;
        }
        assert(!wanted(before[i as int]@));
        i += 1;
    }
    ports
}

/// Sending a buffer piece by piece.
#[derive(Debug)]
pub struct TxProgress {
    data: Vec<u8>,
    sent: usize,
}

/// The most bytes that are written at once while the speed is limited.
pub const SLOW_WRITE_SIZE: usize = 8;

impl TxProgress {
    /// What is to be sent.
    pub closed spec fn data(&self) -> Seq<u8> {
        self.data@
    }

    /// How much of it has been.
    pub closed spec fn sent(&self) -> int {
        self.sent as int
    }

    /// No more has been sent than there is.
    pub open spec fn wf(&self) -> bool {
        0 <= self.sent() <= self.data().len()
    }

    /// Nothing has been sent yet.
    pub fn new(data: Vec<u8>) -> (r: TxProgress)
        ensures
            r.data() == data@,
            r.sent() == 0,
            r.wf(),
    {
        TxProgress { data, sent: 0 }
    }

    /// The next piece to write; `None` when all is sent.
    pub fn next_chunk(&self, slow_writes: bool) -> (r: Option<&[u8]>)
        requires
            self.wf(),
        ensures
            ({
                let left = self.data().len() - self.sent();
                let size = if slow_writes && left > SLOW_WRITE_SIZE {
                    SLOW_WRITE_SIZE as int
                } else {
                    left
                };
                match r {
                    Some(chunk) => left > 0 && chunk@ == self.data().subrange(
                        self.sent(),
                        self.sent() + size,
                    ),
                    None => left == 0,
                }
            }),
    {
        if self.sent == self.data.len() {
            return None;
        }
        let left: usize = self.data.len() - self.sent;
        let size: usize = if slow_writes && left > SLOW_WRITE_SIZE {
            SLOW_WRITE_SIZE
        } else {
            left
        };
        Some(&self.data.as_slice()[self.sent..self.sent + size])
    }

    /// Notes that the port took `n` bytes of the last piece. Taking none is an
    /// unexpected end.
    pub fn wrote(&mut self, n: usize) -> (r: Result<(), WriteEnded>)
        requires
            old(self).wf(),
            n <= old(self).data().len() - old(self).sent(),
        ensures
            final(self).data() == old(self).data(),
            final(self).sent() == old(self).sent() + n,
            final(self).wf(),
            r is Err <==> n == 0,
    {
        if n == 0 {
            return Err(WriteEnded);
        }
        assert(self.data.len() == self.data@.len());
        self.sent = self.sent + n;
        Ok(())
    }

    /// All that was to be sent, whatever was.
    pub fn into_data(self) -> (r: Vec<u8>)
        ensures
            r@ == self.data(),
    {
        self.data
    }
}

/// The port took nothing.
#[derive(Clone, Copy, Debug, PartialEq, Eq, Structural)]
pub struct WriteEnded;

/// The lines after some of ours were set.
pub open spec fn signals_written(
    signals: SerialSignals,
    dtr: Option<bool>,
    rts: Option<bool>,
) -> SerialSignals {
    SerialSignals {
        dtr: match dtr {
            Some(level) => level,
            None => signals.dtr,
        },
        rts: match rts {
            Some(level) => level,
            None => signals.rts,
        },
        ..signals
    }
}

/// Sets some of our lines.
pub fn write_signals(signals: SerialSignals, dtr: Option<bool>, rts: Option<bool>) -> (r:
    SerialSignals)
    ensures
        r == signals_written(signals, dtr, rts),
{
    let mut signals = signals;
    match dtr {
        Some(level) => {
            signals.dtr = level;
        },
        None => (),
    }
    match rts {
        Some(level) => {
            signals.rts = level;
        },
        None => (),
    }
    signals
}

/// The lines after some of ours were flipped.
pub open spec fn signals_toggled(signals: SerialSignals, dtr: bool, rts: bool) -> SerialSignals {
    SerialSignals {
        dtr: if dtr {
            !signals.dtr
        } else {
            signals.dtr
        },
        rts: if rts {
            !signals.rts
        } else {
            signals.rts
        },
        ..signals
    }
}

/// Flips some of our lines.
pub fn toggle_signals(signals: SerialSignals, dtr: bool, rts: bool) -> (r: SerialSignals)
    ensures
        r == signals_toggled(signals, dtr, rts),
{
    let mut signals = signals;
    if dtr {
        signals.dtr = !signals.dtr;
    }
    if rts {
        signals.rts = !signals.rts;
    }
    signals
}

/// Flipping the same lines twice changes nothing.
pub proof fn law_toggling_twice_is_nothing(signals: SerialSignals, dtr: bool, rts: bool)
    ensures
        signals_toggled(signals_toggled(signals, dtr, rts), dtr, rts) == signals,
{
}

} // verus!
