# yap

A serial monitor in the terminal: it lists and connects to ports, keeps a
connection alive, shows what is received as lines or as bytes, sends typed text,
bytes and macros, writes logs, decodes `defmt` messages and flashes Espressif
devices.

The logic is a library whose functions carry contracts that Verus proves. What
needs a terminal, a port, files or threads is a thin program around it.

## Layout

| Path | What it holds |
| --- | --- |
| `src/app/` | The state of the program and what follows from keys and events. Whatever has to happen outside is put in an outbox as an effect. |
| `src/view/` | What is drawn where, as plain values. |
| `src/serial/` | Ports: which are offered, how a lost one is found again, how data is passed on, how a device is flashed. |
| `src/buffer/` | Received and sent lines, scrolling, the hex view, framing of log messages, log files. |
| `src/line*.rs` | Styled lines: editing them by byte ranges, cleaning them of control characters. |
| `src/text_input.rs` | The text that is typed, its history and its entry as bytes. |
| `src/macros/`, `src/keybinds.rs`, `src/tui/` | Macros, key bindings, prompts, flashing profiles. |
| `src/settings/` | Settings, line endings. |
| `src/updates.rs`, `src/watch.rs`, `src/startup.rs` | Looking for updates, interruptions, the command line's port. |
| `src/keys.rs`, `src/key_codes.rs` | Keys, and what a terminal sends for them. |
| `src/foreign.rs`, `src/input_box.rs`, `src/time.rs` | Calls into other crates, each with what is relied on. Those for key codes, for `defmt` frames, for wrapped lines and for splitting the screen stand where they are needed. |
| `app/` | The program: terminal, ports, files, threads. |
| `tests/` | The library run on concrete values. |

## How it hangs together

`App::handle_event` takes an event and the moment at which it came. It changes the
state, and adds effects to the outbox: requests, bytes to send, lines to echo,
notices. The program takes them out with `App::take_effects`, carries them out, and
hands the outcome back as another call or event.

`LoggingWorker` decodes the messages of a `defmt` table as they arrive. A `DefmtTable`
knows whether its formats can show any arguments; where they cannot, the worker hands
each message out to be decoded, and goes on with what came of it.

Every operation is stated over `AppView`, a view of the state as plain values.
`src/app/laws.rs` holds what relates several operations, such as that dismissing a
menu discards its edits. Other laws stand next to the functions they are about,
under names that begin with `law_`.
