//! The presentation dispatcher: which single request goes to the host for a
//! given mode and port.

use vstd::prelude::*;
use vstd::string::StringExecFns;
use crate::decimal::{decimal, push_decimal};
use crate::mode::Mode;

verus! {

/// The label of the one native window.
pub const WINDOW_LABEL: &'static str = "main";

/// The bundled entry point that the native window shows.
pub const ENTRY_POINT: &'static str = "index.html";

/// When a presentation is asked for.
#[derive(Clone, Copy, Debug, PartialEq, Eq, Structural)]
pub enum Occasion {
    /// The first presentation after startup.
    Launch,
    /// A later one: a second launch was attempted while this one runs.
    Relaunch,
}

/// The one request that a presentation makes of the host.
#[derive(Debug, PartialEq, Eq)]
pub enum HostAction {
    /// Open this address in the user's default browser.
    OpenUrl(String),
    /// Create the native window on the bundled entry point.
    CreateWindow,
    /// Show the native window and give it the focus.
    FocusWindow,
}

/// What a `HostAction` asks for, as a plain value.
pub enum HostActionView {
    OpenUrl(Seq<char>),
    CreateWindow,
    FocusWindow,
}

impl View for HostAction {
    type V = HostActionView;

    open spec fn view(&self) -> HostActionView {
        match self {
            HostAction::OpenUrl(url) => HostActionView::OpenUrl(url@),
            HostAction::CreateWindow => HostActionView::CreateWindow,
            HostAction::FocusWindow => HostActionView::FocusWindow,
        }
    }
}

/// The address of the backend on the loopback interface:
/// `http://127.0.0.1:` followed by the port in decimal.
pub open spec fn backend_url_text(port: u16) -> Seq<char> {
    "http://127.0.0.1:"@ + decimal(port as nat)
}

/// The request that presents `mode`: in browser mode the backend's address is
/// opened, in desktop mode the window is created at launch and shown and
/// focused afterwards.
pub open spec fn presentation(mode: Mode, port: u16, occasion: Occasion) -> HostActionView {
    match mode {
        Mode::Browser => HostActionView::OpenUrl(backend_url_text(port)),
        Mode::Desktop => match occasion {
            Occasion::Launch => HostActionView::CreateWindow,
            Occasion::Relaunch => HostActionView::FocusWindow,
        },
    }
}

/// Returns the address of the backend that listens on `port`.
pub fn backend_url(port: u16) -> (url: String)
    ensures
        url@ == backend_url_text(port),
{
    let mut url = String::from_str("http://127.0.0.1:");
    push_decimal(&mut url, port);
    url
}

/// Returns the request that presents `mode` for the backend on `port`.
pub fn present(mode: Mode, port: u16, occasion: Occasion) -> (action: HostAction)
    ensures
        action@ == presentation(mode, port, occasion),
{
    match mode {
        Mode::Browser => HostAction::OpenUrl(backend_url(port)),
        Mode::Desktop => match occasion {
            Occasion::Launch => HostAction::CreateWindow,
            Occasion::Relaunch => HostAction::FocusWindow,
        },
    }
}

/// Which mode is presented decides the kind of request, whatever the port and
/// the occasion: a browser presentation never touches the window, a desktop
/// presentation never opens an address.
pub proof fn presentation_follows_the_mode(mode: Mode, port: u16, occasion: Occasion)
    ensures
        mode == Mode::Browser <==> presentation(mode, port, occasion) is OpenUrl,
        mode == Mode::Desktop <==> !(presentation(mode, port, occasion) is OpenUrl),
{
}

} // verus!
