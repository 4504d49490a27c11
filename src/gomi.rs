use vstd::prelude::*;
use crate::message::{Effect, EffectView, ExternalOperation, Message, Modifiers, WindowType};
use crate::navigation::{MenuWindowPage, NavView, PageView};
use crate::resolver::{decide, resolve};
use crate::storage::{
    clone_opt_string, has_profile, lemma_delete_profile_rules_exact, not_profile, not_scoped_to, not_valued, scoped_to, opt_seq, opt_view, profile_of, upsert_browsers,
    upsert_profile, insert_rule, views, BrowserInfo, BrowserInfoView, BrowserProfile,
    BrowserProfileView, MatchItem, MatchItemView, MatchType, Storage, StorageView,
};
use crate::text::{trim, trim_of};

verus! {

/// How long, in milliseconds, a window keeps open when it loses focus right
/// after it was opened.
pub const UNFOCUS_GRACE_MS: u64 = 2000;

/// The picker window: its page state, the URL in flight and the browsers shown.
#[derive(Debug)]
pub struct MenuWindow {
    pub is_default_browser: bool,
    pub current_page: MenuWindowPage,
    pub current_url: Option<String>,
    pub browser_list: Vec<BrowserInfo>,
    pub launch_time: u64,
    pub stacks: Vec<MenuWindowPage>,
    pub window_id: u64,
}

/// The rule manager window.
#[derive(Debug)]
pub struct SettingWindow {
    pub launch_time: u64,
    pub match_items: Vec<MatchItem>,
    pub window_id: u64,
}

pub struct MenuView {
    pub is_default_browser: bool,
    pub nav: NavView,
    pub url: Option<Seq<char>>,
    pub browsers: Seq<BrowserInfoView>,
    pub launch_time: u64,
    pub id: u64,
}

pub struct SettingView {
    pub launch_time: u64,
    pub rules: Seq<MatchItemView>,
    pub id: u64,
}

impl View for MenuWindow {
    type V = MenuView;

    open spec fn view(&self) -> MenuView {
        MenuView {
            is_default_browser: self.is_default_browser,
            nav: NavView { page: self.current_page@, stack: views(self.stacks@) },
            url: opt_seq(self.current_url),
            browsers: views(self.browser_list@),
            launch_time: self.launch_time,
            id: self.window_id,
        }
    }
}

impl View for SettingWindow {
    type V = SettingView;

    open spec fn view(&self) -> SettingView {
        SettingView {
            launch_time: self.launch_time,
            rules: views(self.match_items@),
            id: self.window_id,
        }
    }
}

/// The whole application state, owned by the one thread that handles events.
pub struct Gomi {
    pub storage: Storage,
    pub keyboard: Modifiers,
    pub menu_window: Option<MenuWindow>,
    pub setting_window: Option<SettingWindow>,
    /// A URL that arrived while no picker window was open.
    pub pending_url: Option<String>,
}

pub struct GomiView {
    pub store: StorageView,
    pub keyboard: Modifiers,
    pub menu: Option<MenuView>,
    pub setting: Option<SettingView>,
    pub pending_url: Option<Seq<char>>,
}

impl View for Gomi {
    type V = GomiView;

    open spec fn view(&self) -> GomiView {
        GomiView {
            store: self.storage@,
            keyboard: self.keyboard,
            menu: opt_view(self.menu_window),
            setting: opt_view(self.setting_window),
            pending_url: opt_seq(self.pending_url),
        }
    }
}

/// The time since `launch` at `now` is past the grace period.
pub open spec fn grace_elapsed(launch: u64, now: u64) -> bool {
    now >= launch && now - launch > UNFOCUS_GRACE_MS
}

pub open spec fn launch_effect(url: Seq<char>, browser_path: Seq<char>, profile: Option<Seq<char>>) -> EffectView {
    EffectView::Launch { url, browser_path, profile }
}

impl GomiView {
    pub open spec fn with_menu(self, m: MenuView) -> GomiView {
        GomiView { menu: Some(m), ..self }
    }

    pub open spec fn with_store(self, store: StorageView) -> GomiView {
        GomiView { store, ..self }
    }

    pub open spec fn with_rule(self, rule: MatchItemView) -> GomiView {
        self.with_store(StorageView { rules: insert_rule(self.store.rules, rule), ..self.store })
    }

    /// The state at start: nothing open, nothing in flight.
    pub open spec fn initial(store: StorageView) -> GomiView {
        GomiView {
            store,
            keyboard: Modifiers { shift: false, logo: false },
            menu: None,
            setting: None,
            pending_url: None,
        }
    }

    /// A browser was picked for the URL in flight: launch it, remember a rule
    /// if asked to, and close the picker.
    pub open spec fn launch_browser(
        self,
        path: Seq<char>,
        profile: Option<Seq<char>>,
        op: Option<ExternalOperation>,
    ) -> (GomiView, Seq<EffectView>) {
        match self.menu {
            None => (self, seq![]),
            Some(m) => match m.url {
                None => (self, seq![]),
                Some(url) => {
                    let launch = launch_effect(url, path, profile);
                    let close = EffectView::CloseWindow(m.id);
                    match op {
                        Some(ExternalOperation::SaveEqual) => (
                            self.with_rule(
                                MatchItemView {
                                    browser_path: path,
                                    profile,
                                    match_type: MatchType::Equal,
                                    match_value: url,
                                },
                            ),
                            seq![launch, EffectView::SaveStore, close],
                        ),
                        Some(ExternalOperation::SaveContain) => match m.nav.page {
                            PageView::MatchContainEditor { text, .. } => (
                                self.with_rule(
                                    MatchItemView {
                                        browser_path: path,
                                        profile,
                                        match_type: MatchType::Contain,
                                        match_value: trim_of(text),
                                    },
                                ),
                                seq![launch, EffectView::SaveStore, close],
                            ),
                            _ => (self, seq![launch, close]),
                        },
                        None => (self, seq![launch, close]),
                    }
                },
            },
        }
    }

    /// A URL arrived: a matching rule launches it at once; otherwise the
    /// picker shows it, and is asked for if it is not open.
    pub open spec fn receive_url(self, url: Seq<char>) -> (GomiView, Seq<EffectView>) {
        match decide(self.store, url) {
            Some(d) => match self.menu {
                Some(m) => (
                    self.with_menu(MenuView { url: Some(url), ..m }),
                    seq![launch_effect(url, d.browser_path, d.profile), EffectView::CloseWindow(m.id)],
                ),
                None => (self, seq![launch_effect(url, d.browser_path, d.profile)]),
            },
            None => match self.menu {
                Some(m) => (
                    self.with_menu(MenuView { url: Some(url), ..m }),
                    seq![EffectView::MoveWindow(m.id)],
                ),
                None => (
                    GomiView { pending_url: Some(url), ..self },
                    seq![EffectView::CreateWindow(WindowType::Menu)],
                ),
            },
        }
    }

    /// The outcome of asking whether this program is the default browser;
    /// once it is, the prompt's window closes.
    pub open spec fn check_default_status(self, is_default: bool) -> (GomiView, Seq<EffectView>) {
        match self.menu {
            Some(m) => if m.is_default_browser {
                (self, seq![])
            } else if is_default {
                (
                    self.with_menu(MenuView { is_default_browser: true, ..m }),
                    seq![EffectView::CloseWindow(m.id)],
                )
            } else {
                (self, seq![])
            },
            None => (self, seq![]),
        }
    }

    /// The profile page of `browser`, with its profiles read from the store.
    pub open spec fn list_profiles(self, browser: BrowserInfoView) -> GomiView {
        match self.menu {
            Some(m) => self.with_menu(
                MenuView {
                    nav: m.nav.forward(
                        PageView::ProfileSelector {
                            browser,
                            profiles: self.store.profiles.filter(profile_of(browser.path)),
                            profile_text: Seq::empty(),
                        },
                    ),
                    ..m
                },
            ),
            None => self,
        }
    }

    /// Deletes a profile of the shown browser and then its rules, and reads
    /// the profiles again.
    pub open spec fn delete_profile(self, name: Seq<char>) -> (GomiView, Seq<EffectView>) {
        match self.menu {
            Some(m) => match m.nav.page {
                PageView::ProfileSelector { browser, profile_text, .. } => {
                    let store = StorageView {
                        profiles: self.store.profiles.filter(not_profile(browser.path, name)),
                        rules: self.store.rules.filter(not_scoped_to(browser.path, name)),
                        ..self.store
                    };
                    let page = PageView::ProfileSelector {
                        browser,
                        profiles: store.profiles.filter(profile_of(browser.path)),
                        profile_text,
                    };
                    (
                        self.with_store(store).with_menu(
                            MenuView { nav: NavView { page, ..m.nav }, ..m },
                        ),
                        seq![EffectView::SaveStore],
                    )
                },
                _ => (self, seq![]),
            },
            None => (self, seq![]),
        }
    }

    /// Deletes the rule with value `value`; an open rule manager shows the
    /// rules that are left.
    pub open spec fn delete_match(self, value: Seq<char>) -> GomiView {
        let store = StorageView { rules: self.store.rules.filter(not_valued(value)), ..self.store };
        match self.setting {
            Some(w) => GomiView { setting: Some(SettingView { rules: store.rules, ..w }), ..self.with_store(store) },
            None => self.with_store(store),
        }
    }

    pub open spec fn back(self) -> GomiView {
        match self.menu {
            Some(m) => self.with_menu(MenuView { nav: m.nav.back(), ..m }),
            None => self,
        }
    }

    /// Adds a profile named by the typed text to the shown browser; empty
    /// text does nothing.
    pub open spec fn add_profile(self) -> (GomiView, Seq<EffectView>) {
        match self.menu {
            Some(m) => match m.nav.page {
                PageView::ProfileSelector { browser, profile_text, .. } => if profile_text.len()
                    == 0 {
                    (self, seq![])
                } else {
                    let store = StorageView {
                        profiles: upsert_profile(
                            self.store.profiles,
                            BrowserProfileView {
                                browser_path: browser.path,
                                profile: profile_text,
                                description: None,
                            },
                        ),
                        ..self.store
                    };
                    let page = PageView::ProfileSelector {
                        browser,
                        profiles: store.profiles.filter(profile_of(browser.path)),
                        profile_text: Seq::empty(),
                    };
                    (
                        self.with_store(store).with_menu(
                            MenuView { nav: NavView { page, ..m.nav }, ..m },
                        ),
                        seq![EffectView::SaveStore],
                    )
                },
                _ => (self, seq![]),
            },
            None => (self, seq![]),
        }
    }

    pub open spec fn type_profile_text(self, text: Seq<char>) -> GomiView {
        match self.menu {
            Some(m) => match m.nav.page {
                PageView::ProfileSelector { browser, profiles, .. } => self.with_menu(
                    MenuView {
                        nav: NavView {
                            page: PageView::ProfileSelector { browser, profiles, profile_text: text },
                            ..m.nav
                        },
                        ..m
                    },
                ),
                _ => self,
            },
            None => self,
        }
    }

    /// The editor of a `Contain` rule, starting from the URL in flight.
    pub open spec fn show_match_contain_editor(self, path: Seq<char>, profile: Option<Seq<char>>) -> GomiView {
        match self.menu {
            Some(m) => match m.url {
                Some(url) => self.with_menu(
                    MenuView {
                        nav: m.nav.forward(
                            PageView::MatchContainEditor { text: url, browser_path: path, profile },
                        ),
                        ..m
                    },
                ),
                None => self,
            },
            None => self,
        }
    }

    pub open spec fn type_match_contain_text(self, text: Seq<char>) -> GomiView {
        match self.menu {
            Some(m) => match m.nav.page {
                PageView::MatchContainEditor { browser_path, profile, .. } => self.with_menu(
                    MenuView {
                        nav: NavView {
                            page: PageView::MatchContainEditor { text, browser_path, profile },
                            ..m.nav
                        },
                        ..m
                    },
                ),
                _ => self,
            },
            None => self,
        }
    }

    pub open spec fn slot_taken(self, kind: WindowType) -> bool {
        match kind {
            WindowType::Menu => self.menu is Some,
            WindowType::Setting => self.setting is Some,
        }
    }

    /// Asks for a window unless its slot is taken.
    pub open spec fn open_window(self, kind: WindowType) -> Seq<EffectView> {
        if self.slot_taken(kind) {
            seq![]
        } else {
            seq![EffectView::CreateWindow(kind)]
        }
    }

    /// Records a created window in its slot, unless the slot is taken. The
    /// picker starts at `Home` with the pending URL and the stored browsers,
    /// and asks for a scan when none is stored.
    pub open spec fn window_opened(self, kind: WindowType, id: u64, now: u64, is_default: bool) -> (
        GomiView,
        Seq<EffectView>,
    ) {
        if self.slot_taken(kind) {
            (self, seq![])
        } else {
            match kind {
                WindowType::Menu => (
                    GomiView {
                        menu: Some(
                            MenuView {
                                is_default_browser: is_default,
                                nav: NavView::initial(),
                                url: self.pending_url,
                                browsers: self.store.browsers,
                                launch_time: now,
                                id,
                            },
                        ),
                        pending_url: None,
                        ..self
                    },
                    if self.store.browsers.len() == 0 {
                        seq![EffectView::ScanBrowsers { refresh: false }]
                    } else {
                        seq![]
                    },
                ),
                WindowType::Setting => (
                    GomiView {
                        setting: Some(SettingView { launch_time: now, rules: self.store.rules, id }),
                        ..self
                    },
                    seq![],
                ),
            }
        }
    }

    pub open spec fn close_window(self, kind: WindowType) -> Seq<EffectView> {
        match kind {
            WindowType::Menu => match self.menu {
                Some(m) => seq![EffectView::CloseWindow(m.id)],
                None => seq![],
            },
            WindowType::Setting => match self.setting {
                Some(s) => seq![EffectView::CloseWindow(s.id)],
                None => seq![],
            },
        }
    }

    /// Clears each slot that holds the closed window.
    pub open spec fn window_closed(self, id: u64) -> GomiView {
        GomiView {
            menu: match self.menu {
                Some(m) => if m.id == id {
                    None
                } else {
                    Some(m)
                },
                None => None,
            },
            setting: match self.setting {
                Some(s) => if s.id == id {
                    None
                } else {
                    Some(s)
                },
                None => None,
            },
            ..self
        }
    }

    /// A window that lost focus closes once the grace period has passed.
    pub open spec fn window_unfocused(self, id: u64, now: u64) -> Seq<EffectView> {
        if self.menu is Some && self.menu->0.id == id {
            if grace_elapsed(self.menu->0.launch_time, now) {
                seq![EffectView::CloseWindow(id)]
            } else {
                seq![]
            }
        } else if self.setting is Some && self.setting->0.id == id {
            if grace_elapsed(self.setting->0.launch_time, now) {
                seq![EffectView::CloseWindow(id)]
            } else {
                seq![]
            }
        } else {
            seq![]
        }
    }

    /// Stores scanned browsers (replacing all of them on a refresh); the
    /// picker then shows the stored browsers.
    pub open spec fn browsers_scanned(self, list: Seq<BrowserInfoView>, refresh: bool) -> GomiView {
        let store = StorageView {
            browsers: if refresh {
                upsert_browsers(Seq::empty(), list)
            } else {
                upsert_browsers(self.store.browsers, list)
            },
            ..self.store
        };
        match self.menu {
            Some(m) => self.with_store(store).with_menu(MenuView { browsers: store.browsers, ..m }),
            None => self.with_store(store),
        }
    }
}

impl GomiView {
    /// The next state and the outside work asked for, for one event.
    pub open spec fn step(self, msg: Message) -> (GomiView, Seq<EffectView>) {
        match msg {
            Message::LaunchBrowser(path, profile, op) => self.launch_browser(path@, opt_seq(profile), op),
            Message::SetAsDefault => (self, seq![EffectView::SetAsDefault]),
            Message::ReceiveUrl(url) => self.receive_url(url@),
            Message::CheckDefaultStatus(is_default) => self.check_default_status(is_default),
            Message::ListProfiles(browser) => (self.list_profiles(browser@), seq![]),
            Message::DeleteProfile(name) => self.delete_profile(name@),
            Message::DeleteMatch(value) => (self.delete_match(value@), seq![EffectView::SaveStore]),
            Message::Back => (self.back(), seq![]),
            Message::AddProfile => self.add_profile(),
            Message::TypeProfileText(text) => (self.type_profile_text(text@), seq![]),
            Message::ShowMatchContainEditor(path, profile) => (
                self.show_match_contain_editor(path@, opt_seq(profile)),
                seq![],
            ),
            Message::TypeMatchContainText(text) => (self.type_match_contain_text(text@), seq![]),
            Message::KeyboardModifiersChanged(keyboard) => (GomiView { keyboard, ..self }, seq![]),
            Message::OpenWindow(kind) => (self, self.open_window(kind)),
            Message::WindowOpened { kind, id, now, is_default_browser } => self.window_opened(
                kind,
                id,
                now,
                is_default_browser,
            ),
            Message::CloseWindow(kind) => (self, self.close_window(kind)),
            Message::MoveWindow(id) => (self, seq![EffectView::MoveWindow(id)]),
            Message::WindowClosed(id) => (self.window_closed(id), seq![]),
            Message::WindowUnfocused { id, now } => (self, self.window_unfocused(id, now)),
            Message::RefreshBrowserList => (self, seq![EffectView::ScanBrowsers { refresh: true }]),
            Message::BrowsersScanned { browsers, refresh } => (
                self.browsers_scanned(views(browsers@), refresh),
                seq![EffectView::SaveStore],
            ),
            Message::CloseApplication => (self, seq![EffectView::Exit]),
        }
    }
}

impl Gomi {
    /// The state at start, over a store read from disk, and the events to
    /// handle first: when this program is already the default browser, the
    /// picker is asked for at once; otherwise nothing.
    pub fn new(storage: Storage, is_default_browser: bool) -> (r: (Gomi, Vec<Message>))
        ensures
            r.0@ == GomiView::initial(storage@),
            is_default_browser ==> r.1@ == seq![Message::OpenWindow(WindowType::Menu)],
            !is_default_browser ==> r.1@.len() == 0,
    {
        let gomi = Gomi {
            storage,
            keyboard: Modifiers { shift: false, logo: false },
            menu_window: None,
            setting_window: None,
            pending_url: None,
        };
        let mut start: Vec<Message> = Vec::new();
        if is_default_browser {
            start.push(Message::OpenWindow(WindowType::Menu));
            assert(start@ =~= seq![Message::OpenWindow(WindowType::Menu)]);
        }
        (gomi, start)
    }

    /// Handles one event: the state moves on and the outside work to do is
    /// returned, in order.
    pub fn update(&mut self, message: Message) -> (r: Vec<Effect>)
        ensures
            (final(self)@, views(r@)) == old(self)@.step(message),
    {
        match message {
            Message::LaunchBrowser(path, profile, op) => self.launch_browser(path, profile, op),
            Message::SetAsDefault => one(Effect::SetAsDefault),
            Message::ReceiveUrl(url) => self.receive_url(url),
            Message::CheckDefaultStatus(is_default) => self.check_default_status(is_default),
            Message::ListProfiles(browser) => {
                self.list_profiles(browser);
                none()
            },
            Message::DeleteProfile(name) => self.delete_profile(name),
            Message::DeleteMatch(value) => {
                self.delete_match(value);
                one(Effect::SaveStore)
            },
            Message::Back => {
                self.back();
                none()
            },
            Message::AddProfile => self.add_profile(),
            Message::TypeProfileText(text) => {
                self.type_profile_text(text);
                none()
            },
            Message::ShowMatchContainEditor(path, profile) => {
                self.show_match_contain_editor(path, profile);
                none()
            },
            Message::TypeMatchContainText(text) => {
                self.type_match_contain_text(text);
                none()
            },
            Message::KeyboardModifiersChanged(keyboard) => {
                self.keyboard = keyboard;
                none()
            },
            Message::OpenWindow(kind) => self.open_window(kind),
            Message::WindowOpened { kind, id, now, is_default_browser } => self.window_opened(
                kind,
                id,
                now,
                is_default_browser,
            ),
            Message::CloseWindow(kind) => self.close_window(kind),
            Message::MoveWindow(id) => one(Effect::MoveWindow(id)),
            Message::WindowClosed(id) => {
                self.window_closed(id);
                none()
            },
            Message::WindowUnfocused { id, now } => self.window_unfocused(id, now),
            Message::RefreshBrowserList => one(Effect::ScanBrowsers { refresh: true }),
            Message::BrowsersScanned { browsers, refresh } => {
                self.browsers_scanned(browsers, refresh);
                one(Effect::SaveStore)
            },
            Message::CloseApplication => one(Effect::Exit),
        }
    }
}

fn none() -> (r: Vec<Effect>)
    ensures
        views(r@) == Seq::<EffectView>::empty(),
{
    let r = Vec::new();
    assert(views(r@) =~= Seq::<EffectView>::empty());
    r
}

fn one(e: Effect) -> (r: Vec<Effect>)
    ensures
        views(r@) == seq![e@],
{
    let mut r = Vec::new();
    r.push(e);
    assert(views(r@) =~= seq![e@]);
    r
}

fn push_effect(effects: &mut Vec<Effect>, e: Effect)
    ensures
        views(final(effects)@) == views(old(effects)@).push(e@),
{
    proof { crate::storage::lemma_views_push(effects@, e); }
    effects.push(e);
}

impl Gomi {
    pub fn launch_browser(&mut self, path: String, profile: Option<String>, op: Option<ExternalOperation>) -> (r: Vec<Effect>)
        ensures
            (final(self)@, views(r@)) == old(self)@.launch_browser(path@, opt_seq(profile), op),
    {
        let (url, id, editor_text) = match &self.menu_window {
            None => return none(),
            Some(m) => match &m.current_url {
                None => return none(),
                Some(u) => {
                    let text = match &m.current_page {
                        MenuWindowPage::MatchContainEditor { match_container_text, .. } => Some(match_container_text.clone()),
                        _ => None,
                    };
                    (u.clone(), m.window_id, text)
                },
            },
        };
        let mut effects = one(Effect::Launch {
            url: url.clone(),
            browser_path: path.clone(),
            profile: clone_opt_string(&profile),
        });
        match op {
            Some(ExternalOperation::SaveEqual) => {
                self.storage.insert_match(MatchItem {
                    browser_path: path,
                    profile,
                    match_type: MatchType::Equal,
                    match_value: url,
                });
                push_effect(&mut effects, Effect::SaveStore);
            },
            Some(ExternalOperation::SaveContain) => {
                if let Some(text) = editor_text {
                    let value = trim(text.as_str());
                    self.storage.insert_match(MatchItem {
                        browser_path: path,
                        profile,
                        match_type: MatchType::Contain,
                        match_value: value,
                    });
                    push_effect(&mut effects, Effect::SaveStore);
                }
            },
            None => {},
        }
        push_effect(&mut effects, Effect::CloseWindow(id));
        effects
    }
}

impl Gomi {
    pub fn receive_url(&mut self, url: String) -> (r: Vec<Effect>)
        ensures
            (final(self)@, views(r@)) == old(self)@.receive_url(url@),
    {
        match resolve(&self.storage, &url) {
            Some(d) => {
                let mut effects = one(Effect::Launch {
                    url: url.clone(),
                    browser_path: d.browser_path,
                    profile: d.profile,
                });
                if let Some(m) = &mut self.menu_window {
                    m.current_url = Some(url);
                    push_effect(&mut effects, Effect::CloseWindow(m.window_id));
                }
                effects
            },
            None => {
                if let Some(m) = &mut self.menu_window {
                    m.current_url = Some(url);
                    one(Effect::MoveWindow(m.window_id))
                } else {
                    self.pending_url = Some(url);
                    one(Effect::CreateWindow(WindowType::Menu))
                }
            },
        }
    }

    pub fn check_default_status(&mut self, is_default: bool) -> (r: Vec<Effect>)
        ensures
            (final(self)@, views(r@)) == old(self)@.check_default_status(is_default),
    {
        if let Some(m) = &mut self.menu_window {
            if !m.is_default_browser && is_default {
                m.is_default_browser = true;
                return one(Effect::CloseWindow(m.window_id));
            }
        }
        none()
    }

    /// Whether the picker is open and still waits for this program to
    /// become the default browser.
    pub fn needs_default_check(&self) -> (r: bool)
        ensures
            r == (self@.menu is Some && !self@.menu->0.is_default_browser),
    {
        match &self.menu_window {
            Some(m) => !m.is_default_browser,
            None => false,
        }
    }

    pub fn list_profiles(&mut self, browser: BrowserInfo)
        ensures
            final(self)@ == old(self)@.list_profiles(browser@),
    {
        if let Some(m) = &mut self.menu_window {
            let profiles = self.storage.get_browser_profiles(browser.path.clone());
            let mut page = MenuWindowPage::ProfileSelector { browser, profiles, profile_text: String::new() };
            std::mem::swap(&mut page, &mut m.current_page);
            proof { crate::storage::lemma_views_push(m.stacks@, page); }
            m.stacks.push(page);
        }
    }

    pub fn delete_profile(&mut self, name: String) -> (r: Vec<Effect>)
        ensures
            (final(self)@, views(r@)) == old(self)@.delete_profile(name@),
    {
        if let Some(m) = &mut self.menu_window {
            let (browser, text) = match &m.current_page {
                MenuWindowPage::ProfileSelector { browser, profile_text, .. } => (browser.clone(), profile_text.clone()),
                _ => return none(),
            };
            self.storage.delete_browser_profile(browser.path.clone(), name.clone());
            self.storage.delete_match_by_profile_and_browser_path(browser.path.clone(), name);
            let profiles = self.storage.get_browser_profiles(browser.path.clone());
            m.current_page = MenuWindowPage::ProfileSelector { browser, profiles, profile_text: text };
            one(Effect::SaveStore)
        } else {
            none()
        }
    }

    pub fn delete_match(&mut self, value: String)
        ensures
            final(self)@ == old(self)@.delete_match(value@),
    {
        self.storage.delete_match_by_match_value(value);
        if let Some(w) = &mut self.setting_window {
            w.match_items = self.storage.find_all_match_items();
        }
    }

    pub fn back(&mut self)
        ensures
            final(self)@ == old(self)@.back(),
    {
        if let Some(m) = &mut self.menu_window {
            proof {
                if m.stacks@.len() > 0 {
                    assert(views(m.stacks@).drop_last() =~= views(m.stacks@.subrange(0, m.stacks@.len() - 1)));
                }
            }
            if let Some(page) = m.stacks.pop() {
                m.current_page = page;
            }
        }
    }

    pub fn add_profile(&mut self) -> (r: Vec<Effect>)
        ensures
            (final(self)@, views(r@)) == old(self)@.add_profile(),
    {
        if let Some(m) = &mut self.menu_window {
            let (browser, text) = match &m.current_page {
                MenuWindowPage::ProfileSelector { browser, profile_text, .. } => (browser.clone(), profile_text.clone()),
                _ => return none(),
            };
            if text.as_str().is_empty() {
                return none();
            }
            self.storage.insert_browser_profile(BrowserProfile {
                browser_path: browser.path.clone(),
                profile: text,
                description: None,
            });
            let profiles = self.storage.get_browser_profiles(browser.path.clone());
            m.current_page = MenuWindowPage::ProfileSelector { browser, profiles, profile_text: String::new() };
            one(Effect::SaveStore)
        } else {
            none()
        }
    }

    pub fn type_profile_text(&mut self, text: String)
        ensures
            final(self)@ == old(self)@.type_profile_text(text@),
    {
        if let Some(m) = &mut self.menu_window {
            if let MenuWindowPage::ProfileSelector { profile_text, .. } = &mut m.current_page {
                *profile_text = text;
            }
        }
    }

    pub fn show_match_contain_editor(&mut self, path: String, profile: Option<String>)
        ensures
            final(self)@ == old(self)@.show_match_contain_editor(path@, opt_seq(profile)),
    {
        if let Some(m) = &mut self.menu_window {
            if let Some(url) = &m.current_url {
                let mut page = MenuWindowPage::MatchContainEditor {
                    match_container_text: url.clone(),
                    browser_path: path,
                    profile,
                };
                std::mem::swap(&mut page, &mut m.current_page);
                proof { crate::storage::lemma_views_push(m.stacks@, page); }
                m.stacks.push(page);
            }
        }
    }

    pub fn type_match_contain_text(&mut self, text: String)
        ensures
            final(self)@ == old(self)@.type_match_contain_text(text@),
    {
        if let Some(m) = &mut self.menu_window {
            if let MenuWindowPage::MatchContainEditor { match_container_text, .. } = &mut m.current_page {
                *match_container_text = text;
            }
        }
    }

    fn slot_taken(&self, kind: WindowType) -> (r: bool)
        ensures
            r == self@.slot_taken(kind),
    {
        match kind {
            WindowType::Menu => self.menu_window.is_some(),
            WindowType::Setting => self.setting_window.is_some(),
        }
    }

    pub fn open_window(&self, kind: WindowType) -> (r: Vec<Effect>)
        ensures
            views(r@) == self@.open_window(kind),
    {
        if self.slot_taken(kind) {
            none()
        } else {
            one(Effect::CreateWindow(kind))
        }
    }

    pub fn window_opened(&mut self, kind: WindowType, id: u64, now: u64, is_default_browser: bool) -> (r: Vec<Effect>)
        ensures
            (final(self)@, views(r@)) == old(self)@.window_opened(kind, id, now, is_default_browser),
    {
        if self.slot_taken(kind) {
            return none();
        }
        match kind {
            WindowType::Menu => {
                let browser_list = self.storage.get_browsers();
                let scan = browser_list.len() == 0;
                let mut url = None;
                std::mem::swap(&mut url, &mut self.pending_url);
                let stacks: Vec<MenuWindowPage> = Vec::new();
                assert(views(stacks@) =~= Seq::<PageView>::empty());
                self.menu_window = Some(MenuWindow {
                    is_default_browser,
                    current_page: MenuWindowPage::Home,
                    current_url: url,
                    browser_list,
                    launch_time: now,
                    stacks,
                    window_id: id,
                });
                if scan {
                    one(Effect::ScanBrowsers { refresh: false })
                } else {
                    none()
                }
            },
            WindowType::Setting => {
                let match_items = self.storage.find_all_match_items();
                self.setting_window = Some(SettingWindow { launch_time: now, match_items, window_id: id });
                none()
            },
        }
    }

    pub fn close_window(&self, kind: WindowType) -> (r: Vec<Effect>)
        ensures
            views(r@) == self@.close_window(kind),
    {
        match kind {
            WindowType::Menu => match &self.menu_window {
                Some(m) => one(Effect::CloseWindow(m.window_id)),
                None => none(),
            },
            WindowType::Setting => match &self.setting_window {
                Some(w) => one(Effect::CloseWindow(w.window_id)),
                None => none(),
            },
        }
    }

    pub fn window_closed(&mut self, id: u64)
        ensures
            final(self)@ == old(self)@.window_closed(id),
    {
        let menu_closed = match &self.menu_window {
            Some(m) => m.window_id == id,
            None => false,
        };
        if menu_closed {
            self.menu_window = None;
        }
        let setting_closed = match &self.setting_window {
            Some(w) => w.window_id == id,
            None => false,
        };
        if setting_closed {
            self.setting_window = None;
        }
    }

    pub fn window_unfocused(&self, id: u64, now: u64) -> (r: Vec<Effect>)
        ensures
            views(r@) == self@.window_unfocused(id, now),
    {
        if let Some(m) = &self.menu_window {
            if m.window_id == id {
                if now >= m.launch_time && now - m.launch_time > UNFOCUS_GRACE_MS {
                    return one(Effect::CloseWindow(id));
                }
                return none();
            }
        }
        if let Some(w) = &self.setting_window {
            if w.window_id == id {
                if now >= w.launch_time && now - w.launch_time > UNFOCUS_GRACE_MS {
                    return one(Effect::CloseWindow(id));
                }
                return none();
            }
        }
        none()
    }

    pub fn browsers_scanned(&mut self, browsers: Vec<BrowserInfo>, refresh: bool)
        ensures
            final(self)@ == old(self)@.browsers_scanned(views(browsers@), refresh),
    {
        if refresh {
            self.storage.replace_all_browsers(browsers);
        } else {
            self.storage.batch_insert_browsers(browsers);
        }
        if let Some(m) = &mut self.menu_window {
            m.browser_list = self.storage.get_browsers();
        }
    }

    /// The event that a click on a browser, or on one of its profiles,
    /// stands for: with shift held, the editor of a `Contain` rule; else a
    /// launch, which also remembers an `Equal` rule when the logo key is held.
    pub fn browser_click(&self, path: String, profile: Option<String>) -> (r: Message)
        ensures
            self.keyboard.shift ==> r == Message::ShowMatchContainEditor(path, profile),
            !self.keyboard.shift && self.keyboard.logo ==> r == Message::LaunchBrowser(
                path,
                profile,
                Some(ExternalOperation::SaveEqual),
            ),
            !self.keyboard.shift && !self.keyboard.logo ==> r == Message::LaunchBrowser(
                path,
                profile,
                None,
            ),
    {
        if self.keyboard.shift {
            Message::ShowMatchContainEditor(path, profile)
        } else if self.keyboard.logo {
            Message::LaunchBrowser(path, profile, Some(ExternalOperation::SaveEqual))
        } else {
            Message::LaunchBrowser(path, profile, None)
        }
    }
}

/// The picker slot holds one window at a time: once a picker window is
/// recorded, another request to open one asks for no window, and another
/// report of a created one changes nothing, so the slot keeps the first.
pub proof fn lemma_menu_opens_once(
    g: GomiView,
    first_id: u64,
    first_now: u64,
    first_default: bool,
    second_id: u64,
    second_now: u64,
    second_default: bool,
)
    ensures
        ({
            let g1 = g.window_opened(WindowType::Menu, first_id, first_now, first_default).0;
            &&& g1.menu is Some
            &&& g.menu is None ==> g1.menu->0.id == first_id
            &&& g1.open_window(WindowType::Menu) == Seq::<EffectView>::empty()
            &&& g1.window_opened(WindowType::Menu, second_id, second_now, second_default) == (
                g1,
                Seq::<EffectView>::empty(),
            )
        }),
{
}

/// Deleting a profile from its browser's profile page removes exactly the
/// rules scoped to that browser and profile, and keeps every other rule.
pub proof fn lemma_delete_profile_cascade(g: GomiView, name: Seq<char>, browser: BrowserInfoView, profiles: Seq<BrowserProfileView>, text: Seq<char>)
    requires
        g.menu is Some,
        g.menu->0.nav.page == (PageView::ProfileSelector { browser, profiles, profile_text: text }),
    ensures
        forall|r: MatchItemView| #[trigger] g.delete_profile(name).0.store.rules.contains(r)
            <==> g.store.rules.contains(r) && !scoped_to(r, browser.path, name),
        !has_profile(g.delete_profile(name).0.store.profiles, browser.path, name),
{
    lemma_delete_profile_rules_exact(g.store.rules, browser.path, name);
    let ps = g.store.profiles;
    let pred = not_profile(browser.path, name);
    if has_profile(ps.filter(pred), browser.path, name) {
        let k = choose|k: int| 0 <= k < ps.filter(pred).len() && #[trigger] ps.filter(pred)[k].browser_path == browser.path && ps.filter(pred)[k].profile == name;
        ps.lemma_filter_pred(pred, k);
    }
}

} // verus!
