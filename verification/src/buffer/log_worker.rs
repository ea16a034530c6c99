//! The worker that keeps the log files: which are open, and what goes into them.

use defmt_decoder::Table;
use vstd::prelude::*;
use vstd::string::*;
use vstd::utf8::*;

use crate::buffer::defmt::DefmtSupport;
use crate::buffer::defmt_table::DefmtTable;
use crate::buffer::log_defmt::{DecodeOutcome, MessageState, Taken, TakenView};
use crate::buffer::logging::{
    event_text, header_text, timestamp_prefix, write_buffer, LogLineType, Logging, LoggingEvent,
    TxPayload,
};
use crate::buffer::LineEnding;
use crate::serial::SerialPortInfo;
use crate::time::Timestamp;

verus! {

/// The name of a log of raw bytes.
pub const RAW_LOG_NAME: &'static str = "yap-%Y-%m-%d_%H-%M-%S.bin";

/// The name of a log of text.
pub const TEXT_LOG_NAME: &'static str = "yap-%Y-%m-%d_%H-%M-%S.txt";

/// What is to be done with the log files.
#[derive(Debug)]
pub enum LogAction {
    /// Make sure that there is a place for logs.
    EnsureDirectory,
    /// Open a log of raw bytes under this name.
    OpenRaw(String),
    /// Flush and close the log of raw bytes.
    CloseRaw,
    /// Open a text log under this name, and write its header.
    OpenText(String, String),
    /// Flush and close the text log.
    CloseText,
    /// Empty the log of raw bytes.
    RestartRaw,
    /// Empty the text log, and write its header.
    RestartText(String),
    WriteRaw(Vec<u8>),
    WriteText(Vec<u8>),
    /// Decode a message; `message_decoded` takes the outcome.
    Decode(Vec<u8>),
    /// Flush what is open.
    Flush { ignore_errors: bool },
    Report(LoggingEvent),
}

/// What an action does, with its texts and bytes as plain values.
#[verifier::ext_equal]
pub enum LogActionView {
    EnsureDirectory,
    OpenRaw(Seq<char>),
    CloseRaw,
    OpenText(Seq<char>, Seq<char>),
    CloseText,
    RestartRaw,
    RestartText(Seq<char>),
    WriteRaw(Seq<u8>),
    WriteText(Seq<u8>),
    Decode(Seq<u8>),
    Flush { ignore_errors: bool },
    ReportFinished,
    ReportError(Seq<char>),
}

impl View for LogAction {
    type V = LogActionView;

    open spec fn view(&self) -> LogActionView {
        match self {
            LogAction::EnsureDirectory => LogActionView::EnsureDirectory,
            LogAction::OpenRaw(name) => LogActionView::OpenRaw(name@),
            LogAction::CloseRaw => LogActionView::CloseRaw,
            LogAction::OpenText(name, header) => LogActionView::OpenText(name@, header@),
            LogAction::CloseText => LogActionView::CloseText,
            LogAction::RestartRaw => LogActionView::RestartRaw,
            LogAction::RestartText(header) => LogActionView::RestartText(header@),
            LogAction::WriteRaw(bytes) => LogActionView::WriteRaw(bytes@),
            LogAction::WriteText(bytes) => LogActionView::WriteText(bytes@),
            LogAction::Decode(bytes) => LogActionView::Decode(bytes@),
            LogAction::Flush { ignore_errors } => LogActionView::Flush {
                ignore_errors: *ignore_errors,
            },
            LogAction::Report(LoggingEvent::FinishedReconsumption) => LogActionView::ReportFinished,
            LogAction::Report(LoggingEvent::Error(text)) => LogActionView::ReportError(text@),
        }
    }
}

/// What some actions do.
pub open spec fn log_views(actions: Seq<LogAction>) -> Seq<LogActionView> {
    actions.map_values(|a: LogAction| a@)
}

fn push_action(actions: &mut Vec<LogAction>, action: LogAction)
    ensures
        log_views(final(actions)@) == log_views(old(actions)@).push(action@),
{
    let ghost before = actions@;
    actions.push(action);
    assert(log_views(actions@) =~= log_views(before).push(action@));
}

/// What is to be done once bytes that were put aside have been taken up.
pub open spec fn taken_actions(taken: TakenView) -> Seq<LogActionView> {
    seq![LogActionView::WriteText(taken.written)] + (match taken.asked {
        Some(message) => seq![LogActionView::Decode(message)],
        None => Seq::empty(),
    })
}

fn push_taken(actions: &mut Vec<LogAction>, taken: Taken)
    ensures
        log_views(final(actions)@) == log_views(old(actions)@) + seq![
            LogActionView::WriteText(taken.written@),
        ] + (match taken.asked {
            Some(message) => seq![LogActionView::Decode(message@)],
            None => Seq::empty(),
        }),
{
    push_action(actions, LogAction::WriteText(taken.written));
    match taken.asked {
        Some(message) => {
            push_action(actions, LogAction::Decode(message));
        },
        None => (),
    }
}

/// The worker's view of its files.
#[derive(Debug)]
pub struct LoggingWorker {
    pub text_open: bool,
    pub raw_open: bool,
    pub settings: Logging,
    pub line_ending: LineEnding,
    /// Whether what is received next starts a new line of the text log.
    pub last_rx_completed: bool,
    pub current_port: Option<SerialPortInfo>,
    pub defmt_parsing: DefmtSupport,
    /// Received bytes that do not make up a whole message yet, and when they began
    /// to arrive.
    pub unconsumed: Option<(Timestamp, Vec<u8>)>,
    /// Whether uncompressed messages could not be decoded; they are then given up.
    pub raw_malformed: bool,
}

/// A name made of a time; the format itself where the time cannot be written.
pub open spec fn timed_name(timestamp: Timestamp, format: Seq<char>) -> Seq<char> {
    match timestamp.formatted(format) {
        Some(name) => name,
        None => format,
    }
}

fn name_for(timestamp: Timestamp, format: &str) -> (r: String)
    ensures
        r@ == timed_name(timestamp, format@),
{
    match timestamp.format(format) {
        Some(name) => name,
        None => format.to_owned(),
    }
}

impl LoggingWorker {
    /// A worker without files.
    pub fn new(line_ending: LineEnding, settings: Logging, defmt_parsing: DefmtSupport) -> (r:
        LoggingWorker)
        ensures
            r == (LoggingWorker {
                text_open: false,
                raw_open: false,
                settings,
                line_ending,
                last_rx_completed: true,
                current_port: None,
                defmt_parsing,
                unconsumed: None,
                raw_malformed: false,
            }),
    {
        LoggingWorker {
            text_open: false,
            raw_open: false,
            settings,
            line_ending,
            last_rx_completed: true,
            current_port: None,
            defmt_parsing,
            unconsumed: None,
            raw_malformed: false,
        }
    }

    /// What a connection event adds to the text log.
    pub open spec fn event_output(&self, timestamp: Timestamp, port: Option<Seq<char>>) -> Seq<
        LogActionView,
    > {
        if self.settings.log_connection_events && self.text_open {
            seq![
                LogActionView::WriteText(
                    (if self.last_rx_completed {
                        Seq::empty()
                    } else {
                        seq![0x0au8]
                    }) + encode_utf8(
                        crate::buffer::logging::event_line(
                            timestamp,
                            self.settings.timestamp@,
                            port,
                        ),
                    ),
                ),
            ]
        } else {
            Seq::empty()
        }
    }

    /// Whether the last line is complete after a connection event.
    pub open spec fn completed_after_event(&self) -> bool {
        self.last_rx_completed || (self.settings.log_connection_events && self.text_open)
    }

    fn log_connection_event(
        &mut self,
        actions: &mut Vec<LogAction>,
        timestamp: Timestamp,
        connected_to: Option<&SerialPortInfo>,
    )
        ensures
            log_views(final(actions)@) == log_views(old(actions)@) + old(self).event_output(
                timestamp,
                match connected_to {
                    Some(port) => Some(port.port_name@),
                    None => None,
                },
            ),
            *final(self) == (LoggingWorker {
                last_rx_completed: old(self).completed_after_event(),
                ..*old(self)
            }),
    {
        if !self.settings.log_connection_events || !self.text_open {
            assert(log_views(actions@) =~= log_views(old(actions)@) + Seq::empty());
            return ;
        }
        let mut bytes: Vec<u8> = Vec::new();
        if !self.last_rx_completed {
            bytes.push(0x0a);
            self.last_rx_completed = true;
        }
        let text = event_text(timestamp, self.settings.timestamp.as_str(), connected_to);
        bytes.extend_from_slice(text.as_str().as_bytes());
        assert(bytes@ =~= (if old(self).last_rx_completed {
            Seq::empty()
        } else {
            seq![0x0au8]
        }) + encode_utf8(text@));
        push_action(actions, LogAction::WriteText(bytes));
        assert(log_views(actions@) =~= log_views(old(actions)@) + old(self).event_output(
            timestamp,
            match connected_to {
                Some(port) => Some(port.port_name@),
                None => None,
            },
        ));
    }

    /// What it takes for the open files to be those that the settings ask for.
    pub open spec fn file_actions(&self, started_at: Timestamp, port: SerialPortInfo) -> Seq<
        LogActionView,
    > {
        seq![LogActionView::EnsureDirectory] + (if self.settings.log_raw_input_to_file
            && !self.raw_open {
            seq![LogActionView::OpenRaw(timed_name(started_at, RAW_LOG_NAME@))]
        } else if !self.settings.log_raw_input_to_file && self.raw_open {
            seq![LogActionView::CloseRaw]
        } else {
            Seq::empty()
        }) + (if self.settings.log_text_to_file && !self.text_open {
            seq![
                LogActionView::OpenText(
                    timed_name(started_at, TEXT_LOG_NAME@),
                    crate::buffer::logging::log_header(port),
                ),
            ]
        } else if !self.settings.log_text_to_file && self.text_open {
            seq![LogActionView::CloseText]
        } else {
            Seq::empty()
        })
    }

    /// The worker with those files open that the settings ask for.
    pub open spec fn with_files(self) -> LoggingWorker {
        LoggingWorker {
            text_open: self.settings.log_text_to_file,
            raw_open: self.settings.log_raw_input_to_file,
            last_rx_completed: self.last_rx_completed || !self.text_open,
            ..self
        }
    }

    fn create_and_close_log_files(
        &mut self,
        actions: &mut Vec<LogAction>,
        started_at: Timestamp,
        port: &SerialPortInfo,
    )
        ensures
            log_views(final(actions)@) == log_views(old(actions)@) + old(self).file_actions(
                started_at,
                *port,
            ),
            *final(self) == old(self).with_files(),
    {
        push_action(actions, LogAction::EnsureDirectory);
        if !self.text_open {
            self.last_rx_completed = true;
        }
        if self.settings.log_raw_input_to_file && !self.raw_open {
            push_action(actions, LogAction::OpenRaw(name_for(started_at, RAW_LOG_NAME)));
            self.raw_open = true;
        } else if !self.settings.log_raw_input_to_file && self.raw_open {
            push_action(actions, LogAction::CloseRaw);
            self.raw_open = false;
        }
        if self.settings.log_text_to_file && !self.text_open {
            push_action(
                actions,
                LogAction::OpenText(name_for(started_at, TEXT_LOG_NAME), header_text(port)),
            );
            self.text_open = true;
        } else if !self.settings.log_text_to_file && self.text_open {
            push_action(actions, LogAction::CloseText);
            self.text_open = false;
        }
        assert(log_views(actions@) =~= log_views(old(actions)@) + old(self).file_actions(
            started_at,
            *port,
        ));
    }

    /// A port was connected.
    pub fn port_connected(&mut self, timestamp: Timestamp, port: SerialPortInfo) -> (r: Vec<
        LogAction,
    >)
        ensures
            log_views(r@) == old(self).file_actions(timestamp, port)
                + old(self).with_files().event_output(timestamp, Some(port.port_name@)),
            *final(self) == (LoggingWorker {
                last_rx_completed: old(self).with_files().completed_after_event(),
                current_port: Some(port),
                ..old(self).with_files()
            }),
    {
        let mut actions: Vec<LogAction> = Vec::new();
        assert(log_views(actions@) =~= Seq::empty());
        self.create_and_close_log_files(&mut actions, timestamp, &port);
        self.log_connection_event(&mut actions, timestamp, Some(&port));
        self.current_port = Some(port);
        assert(log_views(actions@) =~= old(self).file_actions(timestamp, port)
            + old(self).with_files().event_output(timestamp, Some(port.port_name@)));
        actions
    }

    /// The port was disconnected. The files are closed if the user went back to the
    /// selection of ports.
    pub fn port_disconnected(&mut self, timestamp: Timestamp, back_to_port_selection: bool) -> (r:
        Vec<LogAction>)
        ensures
            !old(self).raw_open && !old(self).text_open ==> log_views(r@) == Seq::<
                LogActionView,
            >::empty() && *final(self) == *old(self),
            old(self).raw_open || old(self).text_open ==> log_views(r@) == old(self).event_output(
                timestamp,
                None,
            ) + (if back_to_port_selection {
                old(self).close_actions(false)
            } else {
                seq![LogActionView::Flush { ignore_errors: false }]
            }) && *final(self) == (if back_to_port_selection {
                old(self).closed()
            } else {
                *old(self)
            }).with_completed(old(self).completed_after_event()),
    {
        let mut actions: Vec<LogAction> = Vec::new();
        assert(log_views(actions@) =~= Seq::empty());
        if !self.raw_open && !self.text_open {
            return actions;
        }
        self.log_connection_event(&mut actions, timestamp, None);
        if back_to_port_selection {
            self.close_into(&mut actions, false);
        } else {
            push_action(&mut actions, LogAction::Flush { ignore_errors: false });
        }
        assert(log_views(actions@) =~= old(self).event_output(timestamp, None) + (
        if back_to_port_selection {
            old(self).close_actions(false)
        } else {
            seq![LogActionView::Flush { ignore_errors: false }]
        }));
        actions
    }

    /// With the given state of the last line.
    pub open spec fn with_completed(self, completed: bool) -> LoggingWorker {
        LoggingWorker { last_rx_completed: completed, ..self }
    }

    /// What closing all files takes.
    pub open spec fn close_actions(&self, ignore_errors: bool) -> Seq<LogActionView> {
        seq![LogActionView::Flush { ignore_errors }] + (if self.raw_open {
            seq![LogActionView::CloseRaw]
        } else {
            Seq::empty()
        }) + (if self.text_open {
            seq![LogActionView::CloseText]
        } else {
            Seq::empty()
        })
    }

    /// The worker with all files closed and its port forgotten.
    pub open spec fn closed(self) -> LoggingWorker {
        LoggingWorker { text_open: false, raw_open: false, current_port: None, ..self }
    }

    fn close_into(&mut self, actions: &mut Vec<LogAction>, ignore_errors: bool)
        ensures
            log_views(final(actions)@) == log_views(old(actions)@) + old(self).close_actions(
                ignore_errors,
            ),
            *final(self) == old(self).closed(),
    {
        push_action(actions, LogAction::Flush { ignore_errors });
        if self.raw_open {
            push_action(actions, LogAction::CloseRaw);
        }
        if self.text_open {
            push_action(actions, LogAction::CloseText);
        }
        self.raw_open = false;
        self.text_open = false;
        self.current_port = None;
        assert(log_views(actions@) =~= log_views(old(actions)@) + old(self).close_actions(
            ignore_errors,
        ));
    }

    /// Closes all files.
    pub fn close_files(&mut self, ignore_errors: bool) -> (r: Vec<LogAction>)
        ensures
            log_views(r@) == old(self).close_actions(ignore_errors),
            *final(self) == old(self).closed(),
    {
        let mut actions: Vec<LogAction> = Vec::new();
        self.close_into(&mut actions, ignore_errors);
        assert(log_views(actions@) =~= old(self).close_actions(ignore_errors));
        actions
    }

    /// What something that was sent adds to the text log; `None` if it is not logged.
    pub open spec fn tx_output(&self, payload: TxPayload) -> Option<(Seq<u8>, bool)> {
        if self.text_open && self.settings.log_user_input {
            Some(
                crate::buffer::logging::lines_output(
                    crate::buffer::split::lines_of(payload.bytes@, self.line_ending@),
                    self.last_rx_completed,
                    crate::buffer::logging::time_prefix(
                        payload.timestamp,
                        self.settings.timestamp@,
                    ),
                    self.line_ending,
                    LogLineType::Tx { line_ending: payload.line_ending },
                ),
            )
        } else {
            None
        }
    }

    /// Something was sent. Nothing is returned if it is not logged.
    pub fn tx_bytes(&mut self, payload: TxPayload) -> (r: Option<LogAction>)
        ensures
            match old(self).tx_output(payload) {
                Some((bytes, completed)) => r is Some && r->0@ == LogActionView::WriteText(bytes)
                    && *final(self) == old(self).with_completed(completed),
                None => r is None && *final(self) == *old(self),
            },
    {
        if !self.text_open || !self.settings.log_user_input {
            return None;
        }
        let prefix = timestamp_prefix(payload.timestamp, self.settings.timestamp.as_str());
        let kind = LogLineType::Tx { line_ending: payload.line_ending };
        let (bytes, completed) = write_buffer(
            &prefix,
            payload.bytes.as_slice(),
            self.last_rx_completed,
            &self.line_ending,
            &kind,
        );
        self.last_rx_completed = completed;
        Some(LogAction::WriteText(bytes))
    }

    /// What received bytes add to the text log while there are no log messages in
    /// them.
    pub open spec fn rx_output(&self, timestamp: Timestamp, bytes: Seq<u8>) -> (Seq<u8>, bool) {
        crate::buffer::logging::lines_output(
            crate::buffer::split::lines_of(bytes, self.line_ending@),
            self.last_rx_completed,
            crate::buffer::logging::time_prefix(timestamp, self.settings.timestamp@),
            self.line_ending,
            LogLineType::Rx,
        )
    }

    /// The bytes that do not make up a whole message yet.
    pub open spec fn pending(&self) -> Option<(Timestamp, Seq<u8>)> {
        match self.unconsumed {
            Some((timestamp, bytes)) => Some((timestamp, bytes@)),
            None => None,
        }
    }

    /// What received bytes add to the text log, and what is then left of them.
    pub open spec fn received(
        &self,
        timestamp: Timestamp,
        bytes: Seq<u8>,
        table: Option<Table>,
    ) -> TakenView {
        let state = self.messages(table is Some);
        if self.defmt_parsing is Disabled {
            let (written, completed) = self.rx_output(timestamp, bytes);
            TakenView { written, state: MessageState { completed, ..state }, asked: None }
        } else {
            MessageState {
                pending: match state.pending {
                    Some((began, held)) => Some((began, held + bytes)),
                    None => Some((timestamp, bytes)),
                },
                ..state
            }.taken_up(table)
        }
    }

    fn put_aside(&mut self, timestamp: Timestamp, bytes: Vec<u8>)
        ensures
            final(self).pending() == (match old(self).pending() {
                Some((began, held)) => Some((began, held + bytes@)),
                None => Some((timestamp, bytes@)),
            }),
            *final(self) == (LoggingWorker { unconsumed: final(self).unconsumed, ..*old(self) }),
    {
        match self.unconsumed.take() {
            Some((began, held)) => {
                let mut held = held;
                let ghost before = held@;
                held.extend_from_slice(bytes.as_slice());
                assert(held@ =~= before + bytes@);
                self.unconsumed = Some((began, held));
            },
            None => {
                self.unconsumed = Some((timestamp, bytes));
            },
        }
    }

    /// Writes received bytes to the text log. Those that may be part of a log message
    /// are put aside first, and taken up as far as they make up whole messages.
    fn consume_bytes_for_text_file(
        &mut self,
        timestamp: Timestamp,
        bytes: Vec<u8>,
        table: Option<&DefmtTable>,
    ) -> (r: Taken)
        ensures
            ({
                let table = crate::buffer::log_defmt::table_of(table);
                let received = old(self).received(timestamp, bytes@, table);
                &&& r.written@ == received.written
                &&& crate::buffer::log_defmt::asked_of(r) == received.asked
                &&& final(self).messages(table is Some) == received.state
            }),
            *final(self) == (LoggingWorker {
                unconsumed: final(self).unconsumed,
                last_rx_completed: final(self).last_rx_completed,
                raw_malformed: final(self).raw_malformed,
                ..*old(self)
            }),
    {
        match self.defmt_parsing {
            DefmtSupport::Disabled => {
                let prefix = timestamp_prefix(timestamp, self.settings.timestamp.as_str());
                let (out, completed) = write_buffer(
                    &prefix,
                    bytes.as_slice(),
                    self.last_rx_completed,
                    &self.line_ending,
                    &LogLineType::Rx,
                );
                self.last_rx_completed = completed;
                Taken { written: out, asked: None }
            },
            _ => {
                self.put_aside(timestamp, bytes);
                self.consume_with_defmt(table)
            },
        }
    }

    /// Some bytes were received; `table` is what log messages among them are decoded
    /// with.
    pub fn rx_bytes(
        &mut self,
        timestamp: Timestamp,
        bytes: Vec<u8>,
        table: Option<&DefmtTable>,
    ) -> (r: Vec<LogAction>)
        ensures
            ({
                let table = crate::buffer::log_defmt::table_of(table);
                let received = old(self).received(timestamp, bytes@, table);
                &&& log_views(r@) == (if old(self).raw_open {
                    seq![LogActionView::WriteRaw(bytes@)]
                } else {
                    Seq::empty()
                }) + (if old(self).text_open {
                    taken_actions(received)
                } else {
                    Seq::empty()
                })
                &&& final(self).messages(table is Some) == (if old(self).text_open {
                    received.state
                } else {
                    old(self).messages(table is Some)
                })
            }),
            *final(self) == (LoggingWorker {
                unconsumed: final(self).unconsumed,
                last_rx_completed: final(self).last_rx_completed,
                raw_malformed: final(self).raw_malformed,
                ..*old(self)
            }),
    {
        let mut actions: Vec<LogAction> = Vec::new();
        assert(log_views(actions@) =~= Seq::empty());
        let ghost raw = if old(self).raw_open {
            seq![LogActionView::WriteRaw(bytes@)]
        } else {
            Seq::empty()
        };
        if self.raw_open {
            let mut copy: Vec<u8> = Vec::new();
            copy.extend_from_slice(bytes.as_slice());
            assert(copy@ =~= bytes@);
            push_action(&mut actions, LogAction::WriteRaw(copy));
        }
        assert(log_views(actions@) =~= raw);
        if self.text_open {
            let taken = self.consume_bytes_for_text_file(timestamp, bytes, table);
            push_taken(&mut actions, taken);
        } else {
            assert(log_views(actions@) =~= raw + Seq::empty());
        }
        actions
    }

    /// Takes the outcome of decoding the message that was handed out, and goes on with
    /// what was received.
    pub fn message_decoded(&mut self, outcome: DecodeOutcome, table: Option<&DefmtTable>) -> (r:
        Vec<LogAction>)
        requires
            old(self).pending() is Some,
            old(self).defmt_parsing is Raw && outcome is Frame ==> outcome->consumed
                <= (old(self).pending()->0).1.len(),
        ensures
            ({
                let table = crate::buffer::log_defmt::table_of(table);
                let resumed = old(self).messages(table is Some).resumed(outcome@, table);
                &&& log_views(r@) == taken_actions(resumed)
                &&& final(self).messages(table is Some) == resumed.state
            }),
            *final(self) == (LoggingWorker {
                unconsumed: final(self).unconsumed,
                last_rx_completed: final(self).last_rx_completed,
                raw_malformed: final(self).raw_malformed,
                ..*old(self)
            }),
    {
        let mut actions: Vec<LogAction> = Vec::new();
        assert(log_views(actions@) =~= Seq::empty());
        let taken = self.resume_with_defmt(outcome, table);
        push_taken(&mut actions, taken);
        assert(log_views(actions@) =~= taken_actions(
            old(self).messages(table is Some).resumed(
                outcome@,
                crate::buffer::log_defmt::table_of(table),
            ),
        ));
        actions
    }

    /// The separator between lines changed.
    pub fn line_ending_changed(&mut self, line_ending: LineEnding)
        ensures
            *final(self) == (LoggingWorker { line_ending, ..*old(self) }),
    {
        self.line_ending = line_ending;
    }

    /// The settings changed: files are opened and closed accordingly while a port is
    /// known.
    pub fn settings_changed(&mut self, settings: Logging, now: Timestamp) -> (r: Vec<LogAction>)
        ensures
            ({
                let changed = LoggingWorker { settings, ..*old(self) };
                match old(self).current_port {
                    Some(port) => log_views(r@) == changed.file_actions(now, port) && *final(self)
                        == changed.with_files(),
                    None => log_views(r@) == Seq::<LogActionView>::empty() && *final(self)
                        == changed,
                }
            }),
    {
        self.settings = settings;
        let mut actions: Vec<LogAction> = Vec::new();
        assert(log_views(actions@) =~= Seq::empty());
        match self.current_port.take() {
            Some(port) => {
                let ghost before = *self;
                self.create_and_close_log_files(&mut actions, now, &port);
                self.current_port = Some(port);
                assert(log_views(actions@) =~= (LoggingWorker {
                    settings,
                    ..*old(self)
                }).file_actions(now, port));
            },
            None => (),
        }
        actions
    }

    /// Log messages arrive differently from now on: what was put aside is dropped.
    pub fn defmt_settings_changed(&mut self, defmt_parsing: DefmtSupport)
        ensures
            *final(self) == (if old(self).defmt_parsing != defmt_parsing
                && old(self).unconsumed is Some {
                LoggingWorker {
                    defmt_parsing,
                    raw_malformed: false,
                    unconsumed: None,
                    ..*old(self)
                }
            } else {
                LoggingWorker { defmt_parsing, ..*old(self) }
            }),
    {
        let changed = self.defmt_parsing != defmt_parsing;
        self.defmt_parsing = defmt_parsing;
        if changed && self.unconsumed.is_some() {
            self.raw_malformed = false;
            self.unconsumed = None;
        }
    }

    /// Everything is to be written anew: the files are emptied. Without a port this
    /// cannot be done, and `false` is returned.
    pub fn begin_relogging(&self) -> (r: (Vec<LogAction>, bool))
        ensures
            r.1 == (self.current_port is Some),
            log_views(r.0@) == (match self.current_port {
                None => seq![
                    LogActionView::ReportError("Logging worker missing port info, can't sync."@),
                ],
                Some(port) => (if self.text_open {
                    seq![LogActionView::RestartText(crate::buffer::logging::log_header(port))]
                } else {
                    Seq::empty()
                }) + (if self.raw_open {
                    seq![LogActionView::RestartRaw]
                } else {
                    Seq::empty()
                }),
            }),
    {
        let mut actions: Vec<LogAction> = Vec::new();
        assert(log_views(actions@) =~= Seq::empty());
        match &self.current_port {
            None => {
                push_action(
                    &mut actions,
                    LogAction::Report(
                        LoggingEvent::Error(
                            "Logging worker missing port info, can't sync.".to_owned(),
                        ),
                    ),
                );
                assert(log_views(actions@) =~= seq![
                    LogActionView::ReportError("Logging worker missing port info, can't sync."@),
                ]);
                (actions, false)
            },
            Some(port) => {
                if self.text_open {
                    push_action(&mut actions, LogAction::RestartText(header_text(port)));
                }
                if self.raw_open {
                    push_action(&mut actions, LogAction::RestartRaw);
                }
                assert(log_views(actions@) =~= (if self.text_open {
                    seq![LogActionView::RestartText(crate::buffer::logging::log_header(*port))]
                } else {
                    Seq::empty()
                }) + (if self.raw_open {
                    seq![LogActionView::RestartRaw]
                } else {
                    Seq::empty()
                }));
                (actions, true)
            },
        }
    }

    /// Everything was written anew.
    pub fn finish_relogging(&self) -> (r: Vec<LogAction>)
        ensures
            log_views(r@) == seq![
                LogActionView::Flush { ignore_errors: false },
                LogActionView::ReportFinished,
            ],
    {
        let mut actions: Vec<LogAction> = Vec::new();
        push_action(&mut actions, LogAction::Flush { ignore_errors: false });
        push_action(&mut actions, LogAction::Report(LoggingEvent::FinishedReconsumption));
        assert(log_views(actions@) =~= seq![
            LogActionView::Flush { ignore_errors: false },
            LogActionView::ReportFinished,
        ]);
        actions
    }
}

/// With the files that the settings ask for already open, asking again opens and
/// closes nothing.
pub proof fn law_files_settle(worker: LoggingWorker, started_at: Timestamp, port: SerialPortInfo)
    ensures
        worker.with_files().file_actions(started_at, port) == seq![LogActionView::EnsureDirectory],
        worker.with_files().with_files().text_open == worker.with_files().text_open,
        worker.with_files().with_files().raw_open == worker.with_files().raw_open,
{
    assert(worker.with_files().file_actions(started_at, port) =~= seq![
        LogActionView::EnsureDirectory,
    ]);
}

} // verus!
