use vstd::prelude::*;
use crate::storage::{opt_seq, BrowserInfo};

verus! {

/// What to do besides launching when a browser is picked.
#[derive(Debug, Clone, Copy, PartialEq, Eq, Structural)]
pub enum ExternalOperation {
    /// Remember an `Equal` rule for the URL in flight.
    SaveEqual,
    /// Remember a `Contain` rule with the editor's text.
    SaveContain,
}

/// The two window slots.
#[derive(Debug, Clone, Copy, PartialEq, Eq, Structural)]
pub enum WindowType {
    Menu,
    Setting,
}

/// The keyboard modifiers that change what a click on a browser does.
#[derive(Debug, Clone, Copy, PartialEq, Eq, Structural)]
pub struct Modifiers {
    pub shift: bool,
    pub logo: bool,
}

/// The events that drive the application, one at a time.
///
/// Results of outside work come back as events: `WindowOpened` after a
/// window was created, `BrowsersScanned` after installed browsers were
/// listed, `CheckDefaultStatus` with whether this program is the default
/// browser. Times are milliseconds on a monotonic clock.
#[derive(Debug, Clone)]
pub enum Message {
    LaunchBrowser(String, Option<String>, Option<ExternalOperation>),
    SetAsDefault,
    ReceiveUrl(String),
    CheckDefaultStatus(bool),
    ListProfiles(BrowserInfo),
    DeleteProfile(String),
    /// Delete the rule with this value from the rule manager.
    DeleteMatch(String),
    Back,
    AddProfile,
    TypeProfileText(String),
    ShowMatchContainEditor(String, Option<String>),
    TypeMatchContainText(String),
    KeyboardModifiersChanged(Modifiers),
    OpenWindow(WindowType),
    WindowOpened { kind: WindowType, id: u64, now: u64, is_default_browser: bool },
    CloseWindow(WindowType),
    MoveWindow(u64),
    WindowClosed(u64),
    WindowUnfocused { id: u64, now: u64 },
    RefreshBrowserList,
    BrowsersScanned { browsers: Vec<BrowserInfo>, refresh: bool },
    CloseApplication,
}

/// Outside work that an event asks for.
#[derive(Debug, PartialEq, Eq)]
pub enum Effect {
    /// Open `url` in the browser at `browser_path`, with the profile if any.
    Launch { url: String, browser_path: String, profile: Option<String> },
    /// Create a window for the slot, then report it with `Message::WindowOpened`.
    CreateWindow(WindowType),
    CloseWindow(u64),
    /// Move the window under the pointer.
    MoveWindow(u64),
    /// List the installed browsers, then report them with
    /// `Message::BrowsersScanned` and the same `refresh`.
    ScanBrowsers { refresh: bool },
    /// Register this program as the default browser.
    SetAsDefault,
    /// The store changed: write it to disk.
    SaveStore,
    Exit,
}

pub enum EffectView {
    Launch { url: Seq<char>, browser_path: Seq<char>, profile: Option<Seq<char>> },
    CreateWindow(WindowType),
    CloseWindow(u64),
    MoveWindow(u64),
    ScanBrowsers { refresh: bool },
    SetAsDefault,
    SaveStore,
    Exit,
}

impl View for Effect {
    type V = EffectView;

    open spec fn view(&self) -> EffectView {
        match self {
            Effect::Launch { url, browser_path, profile } => EffectView::Launch {
                url: url@,
                browser_path: browser_path@,
                profile: opt_seq(*profile),
            },
            Effect::CreateWindow(k) => EffectView::CreateWindow(*k),
            Effect::CloseWindow(id) => EffectView::CloseWindow(*id),
            Effect::MoveWindow(id) => EffectView::MoveWindow(*id),
            Effect::ScanBrowsers { refresh } => EffectView::ScanBrowsers { refresh: *refresh },
            Effect::SetAsDefault => EffectView::SetAsDefault,
            Effect::SaveStore => EffectView::SaveStore,
            Effect::Exit => EffectView::Exit,
        }
    }
}

} // verus!
