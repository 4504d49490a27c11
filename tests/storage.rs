use gomi::storage::{BrowserInfo, BrowserProfile, MatchItem, MatchType, Storage};

fn browser(name: &str, path: &str, icon: Vec<u8>) -> BrowserInfo {
    BrowserInfo { name: name.to_string(), path: path.to_string(), icon_data: icon }
}

fn rule(path: &str, profile: Option<&str>, match_type: MatchType, value: &str) -> MatchItem {
    MatchItem {
        browser_path: path.to_string(),
        profile: profile.map(|p| p.to_string()),
        match_type,
        match_value: value.to_string(),
    }
}

#[test]
fn test_browser_crud() {
    let mut storage = Storage::new();
    let test_browsers = vec![
        browser("Browser 1", "/test/path1", vec![1, 2, 3]),
        browser("Browser 2", "/test/path2", vec![4, 5, 6]),
    ];
    storage.batch_insert_browsers(test_browsers);

    let browsers = storage.get_browsers();
    assert_eq!(browsers.len(), 2);
    assert_eq!(browsers[1].name, "Browser 2");
    assert_eq!(browsers[1].icon_data, vec![4, 5, 6]);
}

#[test]
fn test_match_rules() {
    let mut storage = Storage::new();
    let matches = vec![
        rule("/test/path1", Some("Default"), MatchType::Equal, "https://example.com"),
        rule("/test/path2", None, MatchType::Contain, "github.com"),
    ];
    for match_item in matches {
        storage.insert_match(match_item);
    }

    let exact_match = storage.find_equal_matches_by_url("https://example.com".to_string());
    assert!(exact_match.is_some());
    let matched = exact_match.unwrap();
    assert_eq!(matched.browser_path, "/test/path1");
    assert_eq!(matched.profile, Some("Default".to_string()));
    let contain_match = storage.find_contain_matches_by_url("test.github.com".to_string());
    assert!(contain_match.is_some());
    let matched = contain_match.unwrap();
    assert_eq!(matched.browser_path, "/test/path2");
    assert_eq!(matched.profile, None);

    assert!(storage.find_equal_matches_by_url("https://other.com".to_string()).is_none());
    assert!(storage.find_contain_matches_by_url("example.org".to_string()).is_none());
}

#[test]
fn test_empty_database() {
    let storage = Storage::new();
    assert!(storage.get_browsers().is_empty());
    assert!(storage.get_browser_profiles("NonExistent".to_string()).is_empty());
    assert!(storage.find_equal_matches_by_url("any".to_string()).is_none());
    assert!(storage.find_contain_matches_by_url("any".to_string()).is_none());
}

#[test]
fn test_profile_operations() {
    let mut storage = Storage::new();
    storage.insert_browser_profile(BrowserProfile {
        browser_path: "/test/path1".to_string(),
        profile: "Default".to_string(),
        description: Some("Default Profile".to_string()),
    });
    storage.insert_browser_profile(BrowserProfile {
        browser_path: "/test/path1".to_string(),
        profile: "Work".to_string(),
        description: None,
    });
    storage.insert_browser_profile(BrowserProfile {
        browser_path: "/test/path2".to_string(),
        profile: "Work".to_string(),
        description: None,
    });
    let saved = storage.get_browser_profiles("/test/path1".to_string());
    assert_eq!(saved.len(), 2);
    assert!(saved.iter().any(|p| p.profile == "Work" && p.description.is_none()));

    storage.delete_browser_profile("/test/path1".to_string(), "Work".to_string());
    let remaining = storage.get_browser_profiles("/test/path1".to_string());
    assert_eq!(remaining.len(), 1);
    assert_eq!(remaining[0].profile, "Default");
    assert_eq!(storage.get_browser_profiles("/test/path2".to_string()).len(), 1);
}

#[test]
fn duplicate_profile_is_ignored() {
    let mut storage = Storage::new();
    for description in [Some("first"), Some("second")] {
        storage.insert_browser_profile(BrowserProfile {
            browser_path: "/b".to_string(),
            profile: "Work".to_string(),
            description: description.map(|d| d.to_string()),
        });
    }
    let saved = storage.get_browser_profiles("/b".to_string());
    assert_eq!(saved.len(), 1);
    assert_eq!(saved[0].description, Some("first".to_string()));
}

#[test]
fn inserting_the_same_browsers_twice_keeps_the_count() {
    let mut storage = Storage::new();
    let list = || vec![browser("A", "/a", vec![1]), browser("B", "/b", vec![2])];
    storage.batch_insert_browsers(list());
    let once = storage.get_browsers().len();
    storage.batch_insert_browsers(list());
    assert_eq!(storage.get_browsers().len(), once);
    assert_eq!(once, 2);
}

#[test]
fn first_browser_for_a_path_wins() {
    let mut storage = Storage::new();
    storage.batch_insert_browsers(vec![browser("Old", "/a", vec![1]), browser("New", "/a", vec![2])]);
    let browsers = storage.get_browsers();
    assert_eq!(browsers.len(), 1);
    assert_eq!(browsers[0].name, "Old");
}

#[test]
fn replace_all_browsers_drops_the_old_ones() {
    let mut storage = Storage::new();
    storage.batch_insert_browsers(vec![browser("A", "/a", vec![1]), browser("B", "/b", vec![2])]);
    storage.replace_all_browsers(vec![browser("C", "/c", vec![3])]);
    let browsers = storage.get_browsers();
    assert_eq!(browsers.len(), 1);
    assert_eq!(browsers[0].path, "/c");
}

#[test]
fn first_rule_for_a_value_survives() {
    let mut storage = Storage::new();
    storage.insert_match(rule("/x", None, MatchType::Equal, "https://a.com"));
    storage.insert_match(rule("/y", Some("P"), MatchType::Contain, "https://a.com"));
    let all = storage.find_all_match_items();
    assert_eq!(all.len(), 1);
    assert_eq!(all[0].browser_path, "/x");
    assert_eq!(all[0].match_type, MatchType::Equal);
    assert!(storage.find_contain_matches_by_url("https://a.com".to_string()).is_none());
}

#[test]
fn deleting_profile_rules_removes_only_that_pair() {
    let mut storage = Storage::new();
    storage.insert_match(rule("/x", Some("Work"), MatchType::Equal, "https://w.com"));
    storage.insert_match(rule("/x", Some("Home"), MatchType::Equal, "https://h.com"));
    storage.insert_match(rule("/y", Some("Work"), MatchType::Equal, "https://y.com"));
    storage.insert_match(rule("/x", None, MatchType::Contain, "x.com"));
    storage.delete_match_by_profile_and_browser_path("/x".to_string(), "Work".to_string());
    let values: Vec<String> =
        storage.find_all_match_items().into_iter().map(|r| r.match_value).collect();
    assert_eq!(values, vec!["https://h.com", "https://y.com", "x.com"]);
}

#[test]
fn delete_rule_by_value() {
    let mut storage = Storage::new();
    storage.insert_match(rule("/x", None, MatchType::Equal, "https://a.com"));
    storage.insert_match(rule("/x", None, MatchType::Contain, "b.com"));
    storage.delete_match_by_match_value("https://a.com".to_string());
    let all = storage.find_all_match_items();
    assert_eq!(all.len(), 1);
    assert_eq!(all[0].match_value, "b.com");
}

#[test]
fn contain_lookup_takes_the_first_stored_match() {
    let mut storage = Storage::new();
    storage.insert_match(rule("/first", None, MatchType::Contain, "github"));
    storage.insert_match(rule("/second", None, MatchType::Contain, "github.com"));
    let found = storage.find_contain_matches_by_url("https://github.com/x".to_string()).unwrap();
    assert_eq!(found.browser_path, "/first");
}

#[test]
fn match_type_names_round_trip() {
    assert_eq!(MatchType::Equal.name(), "Equal");
    assert_eq!(MatchType::Contain.name(), "Contain");
    assert_eq!(MatchType::from_name("Equal"), Some(MatchType::Equal));
    assert_eq!(MatchType::from_name("Contain"), Some(MatchType::Contain));
    assert_eq!(MatchType::from_name("contain"), None);
    assert_eq!(MatchType::Contain.label(), "contain");
}

#[test]
fn inserting_no_browsers_changes_nothing() {
    let mut storage = Storage::new();
    storage.batch_insert_browsers(vec![browser("A", "/a", vec![1])]);
    storage.batch_insert_browsers(Vec::new());
    let browsers = storage.get_browsers();
    assert_eq!(browsers.len(), 1);
    assert_eq!(browsers[0].name, "A");
}
