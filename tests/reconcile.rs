use guild_sync::inventory::{add_page, gather_pages, select_categories, ChannelInfo, ChannelKind};
use guild_sync::names::{canonical_names, classify, contains_text, is_blacklisted, plan, plan_canonical, Decision};

fn strings(v: &[&str]) -> Vec<String> {
    v.iter().map(|s| s.to_string()).collect()
}

#[test]
fn canonical_names_are_upper_case() {
    let r = canonical_names(&strings(&["Foo", "bar-Baz", ".github"]));
    assert_eq!(r, strings(&["FOO", "BAR-BAZ", ".GITHUB"]));
}

#[test]
fn blacklist_holds_three_canonical_names() {
    assert!(is_blacklisted(&".GITHUB".to_string()));
    assert!(is_blacklisted(&"SUBMISSIONS".to_string()));
    assert!(is_blacklisted(&"COMMUNITY".to_string()));
    assert!(!is_blacklisted(&"DEMO".to_string()));
    assert!(!is_blacklisted(&".github".to_string()));
}

#[test]
fn contains_text_is_exact() {
    let names = strings(&["a", "b"]);
    assert!(contains_text(&names, &"b".to_string()));
    assert!(!contains_text(&names, &"B".to_string()));
    assert!(!contains_text(&Vec::new(), &"a".to_string()));
}

#[test]
fn classify_each_decision() {
    let existing = strings(&["DEMO", "COMMUNITY"]);
    assert_eq!(classify(&"DEMO".to_string(), &existing), Decision::AlreadyProvisioned);
    assert_eq!(classify(&"COMMUNITY".to_string(), &existing), Decision::AlreadyProvisioned);
    assert_eq!(classify(&"SUBMISSIONS".to_string(), &existing), Decision::Blacklisted);
    assert_eq!(classify(&"OTHER".to_string(), &existing), Decision::Provision);
}

#[test]
fn plan_canonical_keeps_listing_order() {
    let repos = strings(&["b", "x", "a"]);
    let canon = strings(&["B", "X", "A"]);
    let existing = strings(&["X"]);
    assert_eq!(plan_canonical(&repos, &canon, &existing), strings(&["b", "a"]));
}

#[test]
fn blacklisted_repositories_are_never_planned() {
    let repos = strings(&[".github", "Submissions", "community", "demo"]);
    assert_eq!(plan(&repos, &Vec::new()), strings(&["demo"]));
    assert_eq!(plan(&repos, &strings(&["other"])), strings(&["demo"]));
}

#[test]
fn matching_ignores_case() {
    let repos = strings(&["Foo"]);
    assert_eq!(plan(&repos, &strings(&["foo"])), Vec::<String>::new());
    assert_eq!(plan(&repos, &strings(&["FOO"])), Vec::<String>::new());
    assert_eq!(plan(&repos, &strings(&["Foo"])), Vec::<String>::new());
    assert_eq!(plan(&repos, &strings(&["bar"])), strings(&["Foo"]));
}

#[test]
fn second_pass_plans_nothing() {
    let repos = strings(&["Alpha", "beta", "COMMUNITY", "gamma"]);
    let mut categories = strings(&["BETA"]);
    let first = plan(&repos, &categories);
    assert_eq!(first, strings(&["Alpha", "gamma"]));
    categories.extend(first);
    assert_eq!(plan(&repos, &categories), Vec::<String>::new());
}

#[test]
fn select_categories_keeps_only_channel_groups() {
    let channels = vec![
        ChannelInfo { id: 1, name: "demo".to_string(), kind: ChannelKind::Category },
        ChannelInfo { id: 2, name: "git".to_string(), kind: ChannelKind::Text },
        ChannelInfo { id: 3, name: "news".to_string(), kind: ChannelKind::News },
        ChannelInfo { id: 4, name: "tools".to_string(), kind: ChannelKind::Category },
        ChannelInfo { id: 5, name: "voice".to_string(), kind: ChannelKind::Other },
    ];
    assert_eq!(select_categories(&channels), strings(&["demo", "tools"]));
}

#[test]
fn pages_gather_into_their_union() {
    let pages = vec![strings(&["a", "b"]), strings(&["b", "c"]), Vec::new(), strings(&["d", "a"])];
    assert_eq!(gather_pages(&pages), strings(&["a", "b", "c", "d"]));
    assert_eq!(gather_pages(&Vec::new()), Vec::<String>::new());
}

#[test]
fn add_page_skips_names_already_gathered() {
    let mut gathered = strings(&["a"]);
    add_page(&mut gathered, &strings(&["a", "b", "b"]));
    assert_eq!(gathered, strings(&["a", "b"]));
}
