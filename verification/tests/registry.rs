use will_shortcut::registry::{
    copy_applications, display_name, find_position, lookup, merge_into, remove_list, resolve,
    upsert_application, upsert_list,
};
use will_shortcut::storage::{load_applications, Application, ShortcutList};

fn app(id: &str, name: &str, process_name: &str) -> Application {
    Application {
        id: id.to_string(),
        name: name.to_string(),
        process_name: process_name.to_string(),
        icon: None,
        last_used_list_id: None,
    }
}

fn list(id: &str, name: &str) -> ShortcutList {
    ShortcutList {
        id: id.to_string(),
        name: name.to_string(),
        application_id: "app".to_string(),
        shortcuts: Vec::new(),
        created_at: "t0".to_string(),
        updated_at: "t1".to_string(),
    }
}

fn bundled() -> Vec<Application> {
    vec![
        app("1", "Visual Studio Code", "Code.exe"),
        app("2", "Google Chrome", "chrome.exe"),
        app("3", "Terminal", "wt.exe"),
    ]
}

#[test]
fn override_replaces_in_place() {
    let overrides = vec![app("u1", "My Chrome", "chrome.exe")];
    let merged = resolve(&bundled(), &overrides);
    assert_eq!(
        merged,
        vec![
            app("1", "Visual Studio Code", "Code.exe"),
            app("u1", "My Chrome", "chrome.exe"),
            app("3", "Terminal", "wt.exe"),
        ]
    );
}

#[test]
fn new_entries_are_appended_in_order() {
    let overrides = vec![
        app("u1", "Zed", "zed.exe"),
        app("u2", "My Code", "Code.exe"),
        app("u3", "Blender", "blender.exe"),
    ];
    let merged = resolve(&bundled(), &overrides);
    assert_eq!(
        merged,
        vec![
            app("u2", "My Code", "Code.exe"),
            app("2", "Google Chrome", "chrome.exe"),
            app("3", "Terminal", "wt.exe"),
            app("u1", "Zed", "zed.exe"),
            app("u3", "Blender", "blender.exe"),
        ]
    );
}

#[test]
fn last_duplicate_override_wins() {
    let overrides = vec![
        app("u1", "First", "new.exe"),
        app("u2", "Second", "new.exe"),
        app("u3", "Chrome A", "chrome.exe"),
        app("u4", "Chrome B", "chrome.exe"),
    ];
    let merged = resolve(&bundled(), &overrides);
    assert_eq!(
        merged,
        vec![
            app("1", "Visual Studio Code", "Code.exe"),
            app("u4", "Chrome B", "chrome.exe"),
            app("3", "Terminal", "wt.exe"),
            app("u2", "Second", "new.exe"),
        ]
    );
}

#[test]
fn empty_bundled_catalog() {
    let overrides = vec![app("u1", "A", "a"), app("u2", "B", "b"), app("u3", "A2", "a")];
    assert_eq!(resolve(&Vec::new(), &overrides), vec![app("u3", "A2", "a"), app("u2", "B", "b")]);
}

#[test]
fn empty_overrides_keep_the_catalog() {
    assert_eq!(resolve(&bundled(), &Vec::new()), bundled());
    assert_eq!(resolve(&Vec::new(), &Vec::new()), Vec::new());
}

#[test]
fn merge_is_idempotent_on_an_example() {
    let overrides = vec![
        app("u1", "Zed", "zed.exe"),
        app("u2", "My Code", "Code.exe"),
        app("u3", "Zed 2", "zed.exe"),
        app("u4", "Blender", "blender.exe"),
    ];
    let once = resolve(&bundled(), &overrides);
    let twice = resolve(&once, &overrides);
    assert_eq!(once, twice);
}

#[test]
fn merged_registry_has_no_duplicate_identity() {
    let overrides = vec![
        app("u1", "Zed", "zed.exe"),
        app("u2", "Zed 2", "zed.exe"),
        app("u3", "Chrome", "chrome.exe"),
    ];
    let merged = resolve(&bundled(), &overrides);
    for i in 0..merged.len() {
        for j in (i + 1)..merged.len() {
            assert_ne!(merged[i].process_name, merged[j].process_name);
        }
    }
    assert_eq!(merged.len(), 4);
}

#[test]
fn identity_is_case_sensitive() {
    let overrides = vec![app("u1", "Lower Code", "code.exe")];
    let merged = resolve(&bundled(), &overrides);
    assert_eq!(merged.len(), 4);
    assert_eq!(merged[3], app("u1", "Lower Code", "code.exe"));
    assert_eq!(lookup(&merged, "Code.exe"), Some(&app("1", "Visual Studio Code", "Code.exe")));
    assert_eq!(lookup(&merged, "code.exe"), Some(&app("u1", "Lower Code", "code.exe")));
    assert_eq!(lookup(&merged, "CODE.EXE"), None);
}

#[test]
fn lookup_finds_the_first_entry() {
    let registry = vec![app("1", "A", "same"), app("2", "B", "same")];
    assert_eq!(lookup(&registry, "same"), Some(&registry[0]));
    assert_eq!(find_position(&registry, "same"), Some(0));
    assert_eq!(find_position(&registry, "other"), None);
    assert_eq!(lookup(&Vec::new(), "same"), None);
}

#[test]
fn display_name_falls_back_to_the_identity() {
    assert_eq!(display_name(&bundled(), "chrome.exe"), "Google Chrome");
    assert_eq!(display_name(&bundled(), "unknown"), "unknown");
    assert_eq!(display_name(&bundled(), ""), "");
}

#[test]
fn merge_into_replaces_or_appends() {
    let mut registry = bundled();
    merge_into(&mut registry, app("x", "WT", "wt.exe"));
    assert_eq!(registry[2], app("x", "WT", "wt.exe"));
    assert_eq!(registry.len(), 3);
    merge_into(&mut registry, app("y", "New", "new.exe"));
    assert_eq!(registry.len(), 4);
    assert_eq!(registry[3], app("y", "New", "new.exe"));
}

#[test]
fn copy_keeps_every_field() {
    let mut source = bundled();
    source[0].icon = Some("icon.png".to_string());
    source[1].last_used_list_id = Some("list-1".to_string());
    assert_eq!(copy_applications(&source), source);
    assert_eq!(source[0].clone(), source[0]);
}

#[test]
fn load_applications_merges_what_was_read() {
    let merged = load_applications(Ok(bundled()), Ok(vec![app("u", "Mine", "mine.exe")]));
    assert_eq!(merged.map(|m| m.len()), Ok(4));
}

#[test]
fn load_applications_hands_failures_on() {
    assert_eq!(
        load_applications(Err("bundled".to_string()), Err("user".to_string())),
        Err("bundled".to_string())
    );
    assert_eq!(load_applications(Ok(bundled()), Err("user".to_string())), Err("user".to_string()));
    assert_eq!(load_applications(Err("bundled".to_string()), Ok(Vec::new())), Err("bundled".to_string()));
}

#[test]
fn upsert_application_goes_by_id() {
    let mut apps = bundled();
    upsert_application(&mut apps, app("2", "Chromium", "chromium.exe"));
    assert_eq!(apps.len(), 3);
    assert_eq!(apps[1], app("2", "Chromium", "chromium.exe"));
    upsert_application(&mut apps, app("9", "Chrome again", "chrome.exe"));
    assert_eq!(apps.len(), 4);
    assert_eq!(apps[3], app("9", "Chrome again", "chrome.exe"));
}

#[test]
fn upsert_list_goes_by_id() {
    let mut lists = vec![list("a", "General"), list("b", "Navigation"), list("a", "Shadowed")];
    upsert_list(&mut lists, list("a", "Renamed"));
    assert_eq!(lists, vec![list("a", "Renamed"), list("b", "Navigation"), list("a", "Shadowed")]);
    upsert_list(&mut lists, list("c", "Added"));
    assert_eq!(lists.len(), 4);
    assert_eq!(lists[3], list("c", "Added"));
    let mut empty: Vec<ShortcutList> = Vec::new();
    upsert_list(&mut empty, list("z", "Only"));
    assert_eq!(empty, vec![list("z", "Only")]);
}

#[test]
fn remove_list_drops_every_match() {
    let mut lists = vec![list("a", "One"), list("b", "Two"), list("a", "Three"), list("c", "Four")];
    remove_list(&mut lists, "a");
    assert_eq!(lists, vec![list("b", "Two"), list("c", "Four")]);
    remove_list(&mut lists, "missing");
    assert_eq!(lists, vec![list("b", "Two"), list("c", "Four")]);
    remove_list(&mut lists, "c");
    remove_list(&mut lists, "b");
    assert_eq!(lists, Vec::new());
    remove_list(&mut lists, "b");
    assert_eq!(lists, Vec::new());
}
