//! The applications and shortcut lists that a fresh installation starts with.
use crate::registry::{list_models, models};
use crate::storage::{
    Application, ApplicationModel, Shortcut, ShortcutList, ShortcutListModel, ShortcutModel,
};
use vstd::prelude::*;

verus! {

/// How many identifiers the default data takes: one for each application, list
/// and shortcut.
pub const DEFAULT_ID_COUNT: usize = 13;

/// The length of an identifier in its hyphenated form.
pub const ID_LENGTH: usize = 36;

/// The time stamp that the default lists carry.
pub open spec fn default_stamp() -> Seq<char> {
    "2025-01-01T00:00:00Z"@
}

/// An application without icon and without a list used last.
pub open spec fn plain_application(id: Seq<char>, name: Seq<char>, process_name: Seq<char>)
    -> ApplicationModel {
    ApplicationModel { id, name, process_name, icon: None, last_used_list_id: None }
}

/// A shortcut from its parts.
pub open spec fn shortcut_model(
    id: Seq<char>,
    key_combo: Seq<char>,
    description: Seq<char>,
    order: i32,
) -> ShortcutModel {
    ShortcutModel { id, key_combo, description, order }
}

/// The two default applications. The first identifier is that of the editor,
/// the eighth that of the browser.
pub open spec fn default_applications(ids: Seq<Seq<char>>) -> Seq<ApplicationModel> {
    seq![
        plain_application(ids[0], "Visual Studio Code"@, "Code.exe"@),
        plain_application(ids[7], "Google Chrome"@, "chrome.exe"@),
    ]
}

/// The shortcuts of the editor's default list.
pub open spec fn editor_shortcuts(ids: Seq<Seq<char>>) -> Seq<ShortcutModel> {
    seq![
        shortcut_model(ids[2], "Ctrl+Shift+P"@, "Command Palette"@, 0),
        shortcut_model(ids[3], "Ctrl+P"@, "Quick Open File"@, 1),
        shortcut_model(ids[4], "Ctrl+`"@, "Toggle Terminal"@, 2),
        shortcut_model(ids[5], "Ctrl+B"@, "Toggle Sidebar"@, 3),
        shortcut_model(ids[6], "Ctrl+/"@, "Toggle Comment"@, 4),
    ]
}

/// The shortcuts of the browser's default list.
pub open spec fn browser_shortcuts(ids: Seq<Seq<char>>) -> Seq<ShortcutModel> {
    seq![
        shortcut_model(ids[9], "Ctrl+T"@, "New Tab"@, 0),
        shortcut_model(ids[10], "Ctrl+W"@, "Close Tab"@, 1),
        shortcut_model(ids[11], "Ctrl+Tab"@, "Next Tab"@, 2),
        shortcut_model(ids[12], "Ctrl+Shift+T"@, "Reopen Closed Tab"@, 3),
    ]
}

/// The two default lists, each tied to its application by the application's
/// identifier.
pub open spec fn default_lists(ids: Seq<Seq<char>>) -> Seq<ShortcutListModel> {
    seq![
        ShortcutListModel {
            id: ids[1],
            name: "General"@,
            application_id: ids[0],
            shortcuts: editor_shortcuts(ids),
            created_at: default_stamp(),
            updated_at: default_stamp(),
        },
        ShortcutListModel {
            id: ids[8],
            name: "Navigation"@,
            application_id: ids[7],
            shortcuts: browser_shortcuts(ids),
            created_at: default_stamp(),
            updated_at: default_stamp(),
        },
    ]
}

/// The texts of a sequence of strings.
pub open spec fn texts(ids: Seq<String>) -> Seq<Seq<char>> {
    Seq::new(ids.len(), |i: int| ids[i]@)
}

/// `Uuid::new_v4` and the `to_string` of what it returns: a random identifier
/// in hyphenated form, which is thirty-six characters long. Which identifier
/// comes back is left open. The call fails only where the operating system
/// hands out no random bytes.
#[verifier::external_body]
fn fresh_id() -> (r: String)
    ensures
        r@.len() == ID_LENGTH,
{
    uuid::Uuid::new_v4().to_string()
}

fn plain(id: &String, name: &str, process_name: &str) -> (r: Application)
    ensures
        r@ == plain_application(id@, name@, process_name@),
{
    Application {
        id: id.clone(),
        name: name.to_string(),
        process_name: process_name.to_string(),
        icon: None,
        last_used_list_id: None,
    }
}

fn shortcut(id: &String, key_combo: &str, description: &str, order: i32) -> (r: Shortcut)
    ensures
        r@ == shortcut_model(id@, key_combo@, description@, order),
{
    Shortcut {
        id: id.clone(),
        key_combo: key_combo.to_string(),
        description: description.to_string(),
        order,
    }
}

/// Builds the default applications and lists around the given identifiers,
/// taken in the order in which the records are made: the editor, its list and
/// the list's five shortcuts, then the browser, its list and the list's four
/// shortcuts. Nothing is built unless there are exactly as many identifiers
/// as records.
pub fn default_data_with(ids: &Vec<String>) -> (r: Option<(Vec<Application>, Vec<ShortcutList>)>)
    ensures
        ids@.len() == DEFAULT_ID_COUNT <==> r is Some,
        match r {
            Some(data) => {
                &&& models(data.0@) == default_applications(texts(ids@))
                &&& list_models(data.1@) == default_lists(texts(ids@))
            },
            None => true,
        },
{
    if ids.len() != DEFAULT_ID_COUNT {
        return None;
    }
    let ghost t = texts(ids@);
    let mut applications: Vec<Application> = Vec::new();
    let mut lists: Vec<ShortcutList> = Vec::new();

    applications.push(plain(&ids[0], "Visual Studio Code", "Code.exe"));
    let mut editor: Vec<Shortcut> = Vec::new();
    editor.push(shortcut(&ids[2], "Ctrl+Shift+P", "Command Palette", 0));
    editor.push(shortcut(&ids[3], "Ctrl+P", "Quick Open File", 1));
    editor.push(shortcut(&ids[4], "Ctrl+`", "Toggle Terminal", 2));
    editor.push(shortcut(&ids[5], "Ctrl+B", "Toggle Sidebar", 3));
    editor.push(shortcut(&ids[6], "Ctrl+/", "Toggle Comment", 4));
    let editor_list = ShortcutList {
        id: ids[1].clone(),
        name: "General".to_string(),
        application_id: ids[0].clone(),
        shortcuts: editor,
        created_at: "2025-01-01T00:00:00Z".to_string(),
        updated_at: "2025-01-01T00:00:00Z".to_string(),
    };
    assert(editor_list@.shortcuts =~= editor_shortcuts(t));
    lists.push(editor_list);

    applications.push(plain(&ids[7], "Google Chrome", "chrome.exe"));
    let mut browser: Vec<Shortcut> = Vec::new();
    browser.push(shortcut(&ids[9], "Ctrl+T", "New Tab", 0));
    browser.push(shortcut(&ids[10], "Ctrl+W", "Close Tab", 1));
    browser.push(shortcut(&ids[11], "Ctrl+Tab", "Next Tab", 2));
    browser.push(shortcut(&ids[12], "Ctrl+Shift+T", "Reopen Closed Tab", 3));
    let browser_list = ShortcutList {
        id: ids[8].clone(),
        name: "Navigation".to_string(),
        application_id: ids[7].clone(),
        shortcuts: browser,
        created_at: "2025-01-01T00:00:00Z".to_string(),
        updated_at: "2025-01-01T00:00:00Z".to_string(),
    };
    assert(browser_list@.shortcuts =~= browser_shortcuts(t));
    lists.push(browser_list);

    assert(models(applications@) =~= default_applications(t));
    assert(list_models(lists@) =~= default_lists(t));
    Some((applications, lists))
}

/// Builds the default applications and lists with freshly drawn identifiers.
/// All but the identifiers is fixed; each identifier has the hyphenated form's
/// length.
pub fn create_default_data() -> (r: (Vec<Application>, Vec<ShortcutList>))
    ensures
        exists|ids: Seq<Seq<char>>|
            {
                &&& ids.len() == DEFAULT_ID_COUNT
                &&& forall|i: int| 0 <= i < ids.len() ==> (#[trigger] ids[i]).len() == ID_LENGTH
                &&& models(r.0@) == default_applications(ids)
                &&& list_models(r.1@) == default_lists(ids)
            },
{
    let mut ids: Vec<String> = Vec::new();
    while ids.len() < DEFAULT_ID_COUNT
        invariant
            ids@.len() <= DEFAULT_ID_COUNT,
            forall|i: int| 0 <= i < ids@.len() ==> (#[trigger] ids@[i])@.len() == ID_LENGTH,
        decreases DEFAULT_ID_COUNT - ids@.len(),
    {
        ids.push(fresh_id());
    }
    let ghost t = texts(ids@);
    match default_data_with(&ids) {
        Some(data) => {
            assert(t.len() == DEFAULT_ID_COUNT);
            assert forall|i: int| 0 <= i < t.len() implies (#[trigger] t[i]).len() == ID_LENGTH by {
                assert(t[i] == ids@[i]@);
            }
            data
        },
        None => (Vec::new(), Vec::new()),
    }
}

/// The lists to store where none is stored yet: the default lists around
/// freshly drawn identifiers if `existing` is empty, nothing otherwise.
pub fn lists_to_seed(existing: &Vec<ShortcutList>) -> (r: Option<Vec<ShortcutList>>)
    ensures
        r is Some <==> existing@.len() == 0,
        match r {
            Some(lists) => exists|ids: Seq<Seq<char>>|
                {
                    &&& ids.len() == DEFAULT_ID_COUNT
                    &&& forall|i: int|
                        0 <= i < ids.len() ==> (#[trigger] ids[i]).len() == ID_LENGTH
                    &&& list_models(lists@) == default_lists(ids)
                },
            None => true,
        },
{
    if existing.len() == 0 {
        let (_applications, lists) = create_default_data();
        Some(lists)
    } else {
        None
    }
}

} // verus!
