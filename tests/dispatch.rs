use gomi::gomi::Gomi;
use gomi::message::{Effect, ExternalOperation, Message, Modifiers, WindowType};
use gomi::navigation::MenuWindowPage;
use gomi::resolver::resolve;
use gomi::storage::{BrowserInfo, BrowserProfile, MatchItem, MatchType, Storage};

fn rule(path: &str, profile: Option<&str>, match_type: MatchType, value: &str) -> MatchItem {
    MatchItem {
        browser_path: path.to_string(),
        profile: profile.map(|p| p.to_string()),
        match_type,
        match_value: value.to_string(),
    }
}

fn browser(path: &str) -> BrowserInfo {
    BrowserInfo { name: path.to_string(), path: path.to_string(), icon_data: vec![7] }
}

fn open_menu(g: &mut Gomi, id: u64, now: u64) -> Vec<Effect> {
    let asked = g.update(Message::OpenWindow(WindowType::Menu));
    assert_eq!(asked, vec![Effect::CreateWindow(WindowType::Menu)]);
    g.update(Message::WindowOpened { kind: WindowType::Menu, id, now, is_default_browser: true })
}

#[test]
fn equal_rule_is_found_after_it_is_added() {
    let mut storage = Storage::new();
    assert!(resolve(&storage, &"https://a.com".to_string()).is_none());
    storage.insert_match(rule("X", None, MatchType::Equal, "https://a.com"));
    let d = resolve(&storage, &"https://a.com".to_string()).unwrap();
    assert_eq!(d.browser_path, "X");
    assert_eq!(d.profile, None);
}

#[test]
fn contain_rule_matches_a_substring() {
    let mut storage = Storage::new();
    storage.insert_match(rule("Y", None, MatchType::Contain, "github.com"));
    let d = resolve(&storage, &"https://sub.github.com/x".to_string()).unwrap();
    assert_eq!(d.browser_path, "Y");
    assert_eq!(d.profile, None);
    assert!(resolve(&storage, &"https://gitlab.com".to_string()).is_none());
}

#[test]
fn equal_rule_wins_over_contain_rule() {
    let mut storage = Storage::new();
    storage.insert_match(rule("C", None, MatchType::Contain, "a.com"));
    storage.insert_match(rule("E", Some("Work"), MatchType::Equal, "https://a.com"));
    let d = resolve(&storage, &"https://a.com".to_string()).unwrap();
    assert_eq!(d.browser_path, "E");
    assert_eq!(d.profile, Some("Work".to_string()));
    let other = resolve(&storage, &"https://a.com/page".to_string()).unwrap();
    assert_eq!(other.browser_path, "C");
}

#[test]
fn deleting_a_profile_drops_its_rules() {
    let mut storage = Storage::new();
    storage.insert_browser_profile(BrowserProfile {
        browser_path: "X".to_string(),
        profile: "Work".to_string(),
        description: None,
    });
    storage.insert_match(rule("X", Some("Work"), MatchType::Equal, "https://work.example.com"));
    let mut g = Gomi::new(storage, false).0;
    open_menu(&mut g, 1, 0);
    g.update(Message::ListProfiles(browser("X")));
    let effects = g.update(Message::DeleteProfile("Work".to_string()));
    assert_eq!(effects, vec![Effect::SaveStore]);
    assert!(resolve(&g.storage, &"https://work.example.com".to_string()).is_none());
    match &g.menu_window.as_ref().unwrap().current_page {
        MenuWindowPage::ProfileSelector { profiles, .. } => assert!(profiles.is_empty()),
        _ => panic!("expected the profile page"),
    }
}

#[test]
fn unfocus_closes_only_after_the_grace_period() {
    let mut g = Gomi::new(Storage::new(), false).0;
    open_menu(&mut g, 5, 10_000);
    assert!(g.update(Message::WindowUnfocused { id: 5, now: 11_000 }).is_empty());
    assert!(g.menu_window.is_some());
    assert_eq!(
        g.update(Message::WindowUnfocused { id: 5, now: 13_000 }),
        vec![Effect::CloseWindow(5)]
    );
    g.update(Message::WindowClosed(5));
    assert!(g.menu_window.is_none());
}

#[test]
fn opening_the_menu_twice_keeps_one_window() {
    let mut g = Gomi::new(Storage::new(), false).0;
    open_menu(&mut g, 1, 0);
    assert!(g.update(Message::OpenWindow(WindowType::Menu)).is_empty());
    let again = g.update(Message::WindowOpened {
        kind: WindowType::Menu,
        id: 2,
        now: 50,
        is_default_browser: true,
    });
    assert!(again.is_empty());
    assert_eq!(g.menu_window.as_ref().unwrap().window_id, 1);
}

#[test]
fn empty_store_asks_for_a_scan_when_the_menu_opens() {
    let mut g = Gomi::new(Storage::new(), false).0;
    let effects = open_menu(&mut g, 1, 0);
    assert_eq!(effects, vec![Effect::ScanBrowsers { refresh: false }]);
    let saved = g.update(Message::BrowsersScanned { browsers: vec![browser("/a")], refresh: false });
    assert_eq!(saved, vec![Effect::SaveStore]);
    assert_eq!(g.storage.get_browsers().len(), 1);
    assert_eq!(g.menu_window.as_ref().unwrap().browser_list.len(), 1);
    g.update(Message::WindowClosed(1));
    assert!(open_menu(&mut g, 2, 0).is_empty());
}

#[test]
fn forward_pages_then_back_returns_home() {
    let mut g = Gomi::new(Storage::new(), false).0;
    g.update(Message::ReceiveUrl("https://a.com".to_string()));
    open_menu(&mut g, 1, 0);
    g.update(Message::ListProfiles(browser("/a")));
    g.update(Message::ShowMatchContainEditor("/a".to_string(), None));
    g.update(Message::ListProfiles(browser("/b")));
    assert_eq!(g.menu_window.as_ref().unwrap().stacks.len(), 3);
    for _ in 0..3 {
        g.update(Message::Back);
    }
    let m = g.menu_window.as_ref().unwrap();
    assert!(matches!(m.current_page, MenuWindowPage::Home));
    assert!(m.stacks.is_empty());
    g.update(Message::Back);
    assert!(matches!(g.menu_window.as_ref().unwrap().current_page, MenuWindowPage::Home));
}

#[test]
fn url_without_rule_opens_the_picker_with_it() {
    let mut g = Gomi::new(Storage::new(), false).0;
    let effects = g.update(Message::ReceiveUrl("https://a.com".to_string()));
    assert_eq!(effects, vec![Effect::CreateWindow(WindowType::Menu)]);
    open_menu(&mut g, 3, 0);
    assert_eq!(g.menu_window.as_ref().unwrap().current_url, Some("https://a.com".to_string()));
    let moved = g.update(Message::ReceiveUrl("https://b.com".to_string()));
    assert_eq!(moved, vec![Effect::MoveWindow(3)]);
}

#[test]
fn url_with_rule_launches_without_a_window() {
    let mut storage = Storage::new();
    storage.insert_match(rule("/x", Some("P"), MatchType::Contain, "a.com"));
    let mut g = Gomi::new(storage, false).0;
    let effects = g.update(Message::ReceiveUrl("https://a.com/q".to_string()));
    assert_eq!(
        effects,
        vec![Effect::Launch {
            url: "https://a.com/q".to_string(),
            browser_path: "/x".to_string(),
            profile: Some("P".to_string()),
        }]
    );
    assert!(g.menu_window.is_none());
}

#[test]
fn launch_with_save_equal_remembers_the_url() {
    let mut g = Gomi::new(Storage::new(), false).0;
    g.update(Message::ReceiveUrl("https://a.com".to_string()));
    open_menu(&mut g, 1, 0);
    let effects = g.update(Message::LaunchBrowser(
        "/x".to_string(),
        None,
        Some(ExternalOperation::SaveEqual),
    ));
    assert_eq!(
        effects,
        vec![
            Effect::Launch {
                url: "https://a.com".to_string(),
                browser_path: "/x".to_string(),
                profile: None
            },
            Effect::SaveStore,
            Effect::CloseWindow(1),
        ]
    );
    let d = resolve(&g.storage, &"https://a.com".to_string()).unwrap();
    assert_eq!(d.browser_path, "/x");
}

#[test]
fn save_contain_stores_the_trimmed_editor_text() {
    let mut g = Gomi::new(Storage::new(), false).0;
    g.update(Message::ReceiveUrl("https://docs.rs/x".to_string()));
    open_menu(&mut g, 1, 0);
    g.update(Message::ShowMatchContainEditor("/x".to_string(), Some("Work".to_string())));
    g.update(Message::TypeMatchContainText("  docs.rs \n".to_string()));
    g.update(Message::LaunchBrowser(
        "/x".to_string(),
        Some("Work".to_string()),
        Some(ExternalOperation::SaveContain),
    ));
    let rules = g.storage.find_all_match_items();
    assert_eq!(rules.len(), 1);
    assert_eq!(rules[0].match_value, "docs.rs");
    assert_eq!(rules[0].match_type, MatchType::Contain);
    let d = resolve(&g.storage, &"https://docs.rs/y".to_string()).unwrap();
    assert_eq!(d.profile, Some("Work".to_string()));
}

#[test]
fn launch_without_url_does_nothing() {
    let mut g = Gomi::new(Storage::new(), false).0;
    open_menu(&mut g, 1, 0);
    assert!(g.update(Message::LaunchBrowser("/x".to_string(), None, None)).is_empty());
}

#[test]
fn add_profile_needs_text_and_clears_it() {
    let mut g = Gomi::new(Storage::new(), false).0;
    open_menu(&mut g, 1, 0);
    g.update(Message::ListProfiles(browser("/x")));
    assert!(g.update(Message::AddProfile).is_empty());
    g.update(Message::TypeProfileText("Work".to_string()));
    assert_eq!(g.update(Message::AddProfile), vec![Effect::SaveStore]);
    match &g.menu_window.as_ref().unwrap().current_page {
        MenuWindowPage::ProfileSelector { profiles, profile_text, .. } => {
            assert_eq!(profiles.len(), 1);
            assert_eq!(profiles[0].profile, "Work");
            assert!(profile_text.is_empty());
        }
        _ => panic!("expected the profile page"),
    }
}

#[test]
fn default_status_closes_the_prompt_once_granted() {
    let mut g = Gomi::new(Storage::new(), false).0;
    g.update(Message::OpenWindow(WindowType::Menu));
    g.update(Message::WindowOpened { kind: WindowType::Menu, id: 4, now: 0, is_default_browser: false });
    assert!(g.needs_default_check());
    assert!(g.update(Message::CheckDefaultStatus(false)).is_empty());
    assert_eq!(g.update(Message::CheckDefaultStatus(true)), vec![Effect::CloseWindow(4)]);
    assert!(!g.needs_default_check());
}

#[test]
fn settings_window_lists_rules_and_closes_independently() {
    let mut storage = Storage::new();
    storage.insert_match(rule("/x", None, MatchType::Equal, "https://a.com"));
    let mut g = Gomi::new(storage, false).0;
    assert_eq!(
        g.update(Message::OpenWindow(WindowType::Setting)),
        vec![Effect::CreateWindow(WindowType::Setting)]
    );
    g.update(Message::WindowOpened { kind: WindowType::Setting, id: 9, now: 0, is_default_browser: false });
    assert_eq!(g.setting_window.as_ref().unwrap().match_items.len(), 1);
    assert!(g.update(Message::CloseWindow(WindowType::Menu)).is_empty());
    assert_eq!(g.update(Message::CloseWindow(WindowType::Setting)), vec![Effect::CloseWindow(9)]);
    g.update(Message::WindowClosed(9));
    assert!(g.setting_window.is_none());
}

#[test]
fn refresh_replaces_the_browser_list() {
    let mut storage = Storage::new();
    storage.batch_insert_browsers(vec![browser("/old")]);
    let mut g = Gomi::new(storage, false).0;
    assert_eq!(g.update(Message::RefreshBrowserList), vec![Effect::ScanBrowsers { refresh: true }]);
    g.update(Message::BrowsersScanned { browsers: vec![browser("/new")], refresh: true });
    let browsers = g.storage.get_browsers();
    assert_eq!(browsers.len(), 1);
    assert_eq!(browsers[0].path, "/new");
}

#[test]
fn click_follows_the_modifiers() {
    let mut g = Gomi::new(Storage::new(), false).0;
    let m = g.browser_click("/x".to_string(), None);
    assert!(matches!(m, Message::LaunchBrowser(_, None, None)));
    g.update(Message::KeyboardModifiersChanged(Modifiers { shift: false, logo: true }));
    let m = g.browser_click("/x".to_string(), None);
    assert!(matches!(m, Message::LaunchBrowser(_, None, Some(ExternalOperation::SaveEqual))));
    g.update(Message::KeyboardModifiersChanged(Modifiers { shift: true, logo: true }));
    let m = g.browser_click("/x".to_string(), Some("P".to_string()));
    assert!(matches!(m, Message::ShowMatchContainEditor(_, Some(_))));
}

#[test]
fn simple_events_map_to_effects() {
    let mut g = Gomi::new(Storage::new(), false).0;
    assert_eq!(g.update(Message::SetAsDefault), vec![Effect::SetAsDefault]);
    assert_eq!(g.update(Message::MoveWindow(3)), vec![Effect::MoveWindow(3)]);
    assert_eq!(g.update(Message::CloseApplication), vec![Effect::Exit]);
}

#[test]
fn deleting_a_rule_updates_the_rule_manager() {
    let mut storage = Storage::new();
    storage.insert_match(rule("/x", None, MatchType::Equal, "https://a.com"));
    storage.insert_match(rule("/x", None, MatchType::Contain, "b.com"));
    let mut g = Gomi::new(storage, false).0;
    g.update(Message::OpenWindow(WindowType::Setting));
    g.update(Message::WindowOpened { kind: WindowType::Setting, id: 2, now: 0, is_default_browser: false });
    let effects = g.update(Message::DeleteMatch("https://a.com".to_string()));
    assert_eq!(effects, vec![Effect::SaveStore]);
    let items = &g.setting_window.as_ref().unwrap().match_items;
    assert_eq!(items.len(), 1);
    assert_eq!(items[0].match_value, "b.com");
    assert!(resolve(&g.storage, &"https://a.com".to_string()).is_none());
}

#[test]
fn scanned_duplicates_are_shown_once() {
    let mut g = Gomi::new(Storage::new(), false).0;
    open_menu(&mut g, 1, 0);
    g.update(Message::BrowsersScanned {
        browsers: vec![browser("/a"), browser("/b"), browser("/a")],
        refresh: false,
    });
    let shown: Vec<String> =
        g.menu_window.as_ref().unwrap().browser_list.iter().map(|b| b.path.clone()).collect();
    assert_eq!(shown, vec!["/a", "/b"]);
}

#[test]
fn start_asks_for_the_picker_only_when_default() {
    let (g, start) = Gomi::new(Storage::new(), true);
    assert!(g.menu_window.is_none() && g.setting_window.is_none());
    assert_eq!(start.len(), 1);
    assert!(matches!(start[0], Message::OpenWindow(WindowType::Menu)));
    let (_, start) = Gomi::new(Storage::new(), false);
    assert!(start.is_empty());
}

#[test]
fn save_contain_trims_unicode_white_space() {
    let mut g = Gomi::new(Storage::new(), false).0;
    g.update(Message::ReceiveUrl("https://x.org/a".to_string()));
    open_menu(&mut g, 1, 0);
    g.update(Message::ShowMatchContainEditor("/x".to_string(), None));
    g.update(Message::TypeMatchContainText("\u{3000}\t x.org \u{a0}\u{2028}".to_string()));
    g.update(Message::LaunchBrowser("/x".to_string(), None, Some(ExternalOperation::SaveContain)));
    assert_eq!(g.storage.find_all_match_items()[0].match_value, "x.org");
}
