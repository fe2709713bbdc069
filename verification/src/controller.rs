//! The controller: the live mode and the backend's port, and the decisions
//! taken at startup, on a toggle and on a relaunch.
//!
//! The host keeps one `Controller` behind one lock and performs what the
//! functions here ask for: it stores the record, and it carries out the
//! request to the window system or the browser.

use vstd::prelude::*;
use crate::handshake::{parse_port, read_port, HandshakeError};
use crate::mode::{Config, Mode};
use crate::present::{present, presentation, HostAction, Occasion};
use crate::store::{load_config, loaded, StoreRead};

verus! {

/// The port that the backend announced in the handshake. It can only be made
/// from a handshake line and never changes.
#[derive(Clone, Copy, Debug, PartialEq, Eq)]
pub struct BackendPort {
    port: u16,
}

impl BackendPort {
    /// The port number.
    pub closed spec fn number(&self) -> u16 {
        self.port
    }

    /// Completes the handshake: reads the port from the first line that the
    /// backend wrote. Fails, with the reason, on every line that names no
    /// port; the launcher then has nothing to present and must stop.
    pub fn from_handshake(line: &str) -> (port: Result<BackendPort, HandshakeError>)
        ensures
            match read_port(line@) {
                Ok(number) => port matches Ok(p) && p.number() == number,
                Err(reason) => port == Err::<BackendPort, HandshakeError>(reason),
            },
    {
        match parse_port(line) {
            Ok(port) => Ok(BackendPort { port }),
            Err(reason) => Err(reason),
        }
    }

    /// Returns the port number.
    pub fn get(&self) -> (number: u16)
        ensures
            number == self.number(),
    {
        self.port
    }
}

/// The state shared by everything that runs after startup: the current mode
/// and the backend's port.
#[derive(Clone, Copy, Debug, PartialEq, Eq)]
pub struct Controller {
    mode: Mode,
    port: BackendPort,
}

/// What startup decided: the state to run with, the record to store first (if
/// any), and the first presentation.
pub struct Startup {
    /// The state to keep for the rest of the session.
    pub controller: Controller,
    /// The record to store before presenting, where a launch flag changed it.
    pub persist: Option<Config>,
    /// The first request to the host.
    pub action: HostAction,
}

/// The mode that a launch starts in: browser mode where the launch flag forces
/// it, else the mode of the loaded record.
pub open spec fn resolved_mode(read: StoreRead, force_browser: bool) -> Mode {
    if force_browser {
        Mode::Browser
    } else {
        loaded(read).mode
    }
}

/// The record that a launch stores at once: the forced one, where the launch
/// flag is set, so that later plain launches start in browser mode too.
pub open spec fn launch_record(force_browser: bool) -> Option<Config> {
    if force_browser {
        Some(Config { mode: Mode::Browser })
    } else {
        None
    }
}

/// Whether `after` is `before` with the mode flipped and the port kept.
pub open spec fn toggles(before: Controller, after: Controller) -> bool {
    after.mode() == before.mode().flipped() && after.port() == before.port()
}

/// The reply to a toggle whose record was stored with the outcome `saved`:
/// the new mode's name, or the store's error as it came.
pub open spec fn reply_matches(
    record: Config,
    saved: Result<(), String>,
    reply: Result<String, String>,
) -> bool {
    match saved {
        Ok(_) => reply matches Ok(name) && name@ == record.mode.name_text(),
        Err(error) => reply == Err::<String, String>(error),
    }
}

impl Controller {
    /// The current mode.
    pub closed spec fn mode(&self) -> Mode {
        self.mode
    }

    /// The backend's port.
    pub closed spec fn port(&self) -> u16 {
        self.port.number()
    }

    /// Decides the launch, once the handshake has given the port: resolves the
    /// mode from what the store read and the launch flag, and asks for the
    /// forced record to be stored and for the first presentation.
    pub fn launch(port: BackendPort, read: StoreRead, force_browser: bool) -> (startup: Startup)
        ensures
            startup.controller.port() == port.number(),
            startup.controller.mode() == resolved_mode(read, force_browser),
            startup.persist == launch_record(force_browser),
            startup.action@ == presentation(
                resolved_mode(read, force_browser),
                port.number(),
                Occasion::Launch,
            ),
    {
        let stored = load_config(read);
        let (mode, persist) = if force_browser {
            (Mode::Browser, Some(Config { mode: Mode::Browser }))
        } else {
            (stored.mode, None)
        };
        Startup {
            controller: Controller { mode, port },
            persist,
            action: present(mode, port.get(), Occasion::Launch),
        }
    }

    /// Returns the current mode.
    pub fn current_mode(&self) -> (mode: Mode)
        ensures
            mode == self.mode(),
    {
        self.mode
    }

    /// Returns the backend's port.
    pub fn backend_port(&self) -> (port: u16)
        ensures
            port == self.port(),
    {
        self.port.get()
    }

    /// Answers a second launch attempt: presents the mode and port as they are
    /// now, whatever the second attempt was started with.
    pub fn relaunch(&self) -> (action: HostAction)
        ensures
            action@ == presentation(self.mode(), self.port(), Occasion::Relaunch),
    {
        present(self.mode, self.port.get(), Occasion::Relaunch)
    }
}

/// Flips the mode in `state` and returns the record that the host must store
/// before it replies. The switch stands whether or not the store succeeds.
pub fn toggle_mode(state: &mut Controller) -> (record: Config)
    ensures
        toggles(*old(state), *final(state)),
        record == (Config { mode: final(state).mode() }),
{
    state.mode = state.mode.toggled();
    Config { mode: state.mode }
}

/// Returns the reply to a toggle that asked for `record` to be stored: the
/// new mode's lower-case name where the store succeeded, else the store's
/// error message.
pub fn toggle_reply(record: Config, saved: Result<(), String>) -> (reply: Result<String, String>)
    ensures
        reply_matches(record, saved, reply),
{
    match saved {
        Ok(_) => Ok(record.mode.name().to_owned()),
        Err(error) => Err(error),
    }
}

/// Toggling twice returns to the mode it started from, and leaves the port as
/// it was.
pub proof fn toggling_twice_restores(start: Controller, once: Controller, twice: Controller)
    requires
        toggles(start, once),
        toggles(once, twice),
    ensures
        twice.mode() == start.mode(),
        twice.port() == start.port(),
{
}

/// A toggle survives a restart: where the host stored the record that the
/// toggle asked for and reads it back, a plain launch starts in the mode that
/// the toggle switched to.
pub proof fn toggled_mode_is_loaded_again(before: Controller, after: Controller, record: Config)
    requires
        toggles(before, after),
        record == (Config { mode: after.mode() }),
    ensures
        loaded(StoreRead::Record(record)).mode == after.mode(),
        resolved_mode(StoreRead::Record(record), false) == after.mode(),
{
}

/// A forced browser launch is remembered: the record it stores, read back by
/// a later plain launch, starts that launch in browser mode.
pub proof fn forced_browser_is_remembered(read: StoreRead)
    ensures
        resolved_mode(read, true) == Mode::Browser,
        launch_record(true) matches Some(record) && resolved_mode(
            StoreRead::Record(record),
            false,
        ) == Mode::Browser,
{
}

} // verus!
