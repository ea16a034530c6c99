//! The state of the connection.

use vstd::prelude::*;

use crate::serial::{SerialPortInfo, SerialSignals, SlaveSignals};
use crate::settings::PortSettings;

verus! {

/// Whether and since when the port is ours. Times are in milliseconds.
#[derive(Clone, Copy, Debug, PartialEq, Eq, Structural)]
pub enum InnerPortStatus {
    /// No connection has been made.
    Idle,
    /// The port was lost unexpectedly.
    PrematureDisconnect,
    /// The port is lent to a flashing tool.
    LentOut { initial_connection_at: u64, lent_out_at: u64 },
    /// The port is ours.
    Connected { connected_at: u64 },
}

impl InnerPortStatus {
    /// Whether the port is lent out.
    pub fn is_lent_out(&self) -> (r: bool)
        ensures
            r == (self is LentOut),
    {
        match self {
            InnerPortStatus::LentOut { .. } => true,
            _ => false,
        }
    }

    /// Whether the port is ours.
    pub fn is_connected(&self) -> (r: bool)
        ensures
            r == (self is Connected),
    {
        match self {
            InnerPortStatus::Connected { .. } => true,
            _ => false,
        }
    }

    /// Whether there is no connection.
    pub fn is_idle(&self) -> (r: bool)
        ensures
            r == (self is Idle),
    {
        match self {
            InnerPortStatus::Idle => true,
            _ => false,
        }
    }

    /// Whether the port was lost.
    pub fn is_premature_disconnect(&self) -> (r: bool)
        ensures
            r == (self is PrematureDisconnect),
    {
        match self {
            InnerPortStatus::PrematureDisconnect => true,
            _ => false,
        }
    }
}

/// The state of the connection.
#[derive(Debug)]
pub struct PortStatus {
    pub inner: InnerPortStatus,
    /// The port that is connected or was last; also the one to reconnect to.
    pub current_port: Option<SerialPortInfo>,
    pub signals: SerialSignals,
}

/// The lines as they are before a connection is made.
pub open spec fn initial_signals(settings: PortSettings) -> SerialSignals {
    SerialSignals {
        rts: settings.rts_on_connect,
        dtr: settings.dtr_on_connect,
        cts: false,
        dsr: false,
        ri: false,
        cd: false,
    }
}

/// The lines to set on a port.
#[derive(Clone, Copy, Debug, PartialEq, Eq, Structural)]
pub struct SignalLevels {
    pub dtr: bool,
    pub rts: bool,
}

impl PortStatus {
    /// A port that is not connected has no port to reconnect to only if it was
    /// never connected or was left on purpose.
    pub open spec fn wf(&self) -> bool {
        !(self.inner is Idle) ==> self.current_port is Some
    }

    /// Lent to a flashing tool.
    pub open spec fn lent(self, lent_out_at: u64) -> PortStatus {
        PortStatus {
            inner: InnerPortStatus::LentOut {
                initial_connection_at: self.inner->connected_at,
                lent_out_at,
            },
            ..self
        }
    }

    /// Back from a flashing tool.
    pub open spec fn returned(self, settings: PortSettings) -> PortStatus {
        PortStatus {
            inner: InnerPortStatus::Connected { connected_at: self.inner->initial_connection_at },
            signals: initial_signals(settings),
            ..self
        }
    }

    fn fresh_signals(settings: &PortSettings) -> (r: SerialSignals)
        ensures
            r == initial_signals(*settings),
    {
        SerialSignals {
            rts: settings.rts_on_connect,
            dtr: settings.dtr_on_connect,
            cts: false,
            dsr: false,
            ri: false,
            cd: false,
        }
    }

    /// No connection yet.
    pub fn new_idle(settings: &PortSettings) -> (r: PortStatus)
        ensures
            r == (PortStatus {
                inner: InnerPortStatus::Idle,
                current_port: None,
                signals: initial_signals(*settings),
            }),
            r.wf(),
    {
        PortStatus {
            inner: InnerPortStatus::Idle,
            current_port: None,
            signals: PortStatus::fresh_signals(settings),
        }
    }

    /// The connection was lost without the user's intent.
    pub fn into_unhealthy(self) -> (r: PortStatus)
        ensures
            r == (PortStatus { inner: InnerPortStatus::PrematureDisconnect, ..self }),
    {
        PortStatus {
            inner: InnerPortStatus::PrematureDisconnect,
            current_port: self.current_port,
            signals: self.signals,
        }
    }

    /// The user disconnected.
    pub fn into_idle(self, settings: &PortSettings) -> (r: PortStatus)
        ensures
            r == (PortStatus {
                inner: InnerPortStatus::Idle,
                current_port: None,
                signals: initial_signals(*settings),
            }),
            r.wf(),
    {
        PortStatus::new_idle(settings)
    }

    /// The port is lent to a flashing tool.
    pub fn into_lent_out(self, lent_out_at: u64) -> (r: PortStatus)
        requires
            self.inner is Connected,
        ensures
            r == self.lent(lent_out_at),
    {
        let initial_connection_at: u64 = match self.inner {
            InnerPortStatus::Connected { connected_at } => connected_at,
            _ => 0,
        };
        PortStatus {
            inner: InnerPortStatus::LentOut { initial_connection_at, lent_out_at },
            current_port: self.current_port,
            signals: self.signals,
        }
    }

    /// The port came back from a flashing tool. The lines to set on it are those
    /// from before.
    pub fn returning_lent_port(self, settings: &PortSettings) -> (r: (PortStatus, SignalLevels))
        requires
            self.inner is LentOut,
        ensures
            r.0 == self.returned(*settings),
            r.1 == (SignalLevels { dtr: self.signals.dtr, rts: self.signals.rts }),
    {
        let connected_at: u64 = match self.inner {
            InnerPortStatus::LentOut { initial_connection_at, .. } => initial_connection_at,
            _ => 0,
        };
        let levels = SignalLevels { dtr: self.signals.dtr, rts: self.signals.rts };
        let status = PortStatus {
            inner: InnerPortStatus::Connected { connected_at },
            current_port: self.current_port,
            signals: PortStatus::fresh_signals(settings),
        };
        (status, levels)
    }

    /// A connection was made. Both of our lines follow the setting for DTR.
    pub fn into_connected(
        self,
        slave: SlaveSignals,
        port_info: SerialPortInfo,
        connected_at: u64,
        settings: &PortSettings,
    ) -> (r: PortStatus)
        ensures
            r == (PortStatus {
                inner: InnerPortStatus::Connected { connected_at },
                current_port: Some(port_info),
                signals: SerialSignals {
                    rts: settings.dtr_on_connect,
                    dtr: settings.dtr_on_connect,
                    ..self.signals.with_slave(slave)
                },
            }),
            r.wf(),
    {
        let mut signals = self.signals;
        let _changed = signals.update_slave_signals(slave);
        signals.rts = settings.dtr_on_connect;
        signals.dtr = settings.dtr_on_connect;
        PortStatus {
            inner: InnerPortStatus::Connected { connected_at },
            current_port: Some(port_info),
            signals,
        }
    }

    /// The port that is connected or was last.
    pub fn current_port(&self) -> (r: Option<&SerialPortInfo>)
        ensures
            match r {
                Some(port) => self.current_port == Some(*port),
                None => self.current_port is None,
            },
    {
        match &self.current_port {
            Some(port) => Some(port),
            None => None,
        }
    }

    /// Whether and since when the port is ours.
    pub fn status(&self) -> (r: InnerPortStatus)
        ensures
            r == self.inner,
    {
        self.inner
    }

    /// The lines of the port.
    pub fn signals(&self) -> (r: &SerialSignals)
        ensures
            *r == self.signals,
    {
        &self.signals
    }
}

/// A port that was lent out and came back has been connected since it first was,
/// and is the same port.
pub proof fn law_lending_keeps_the_connection(
    status: PortStatus,
    lent_out_at: u64,
    settings: PortSettings,
)
    requires
        status.inner is Connected,
    ensures
        status.lent(lent_out_at).returned(settings).inner == status.inner,
        status.lent(lent_out_at).returned(settings).current_port == status.current_port,
{
}

} // verus!
