//! The records that are kept between runs, their mathematical models, the
//! settings that hold where none are stored, and the names of the files.
//! Reading and writing the files is left to the program around this library.
use crate::geometry::AnchorCorner;
use crate::registry::{models, resolve, resolve_model};
use crate::text::{copy_optional, optional_text, same_text};
use vstd::prelude::*;

verus! {

/// An application that shortcut lists can belong to.
#[derive(Debug, PartialEq, Eq)]
pub struct Application {
    pub id: String,
    pub name: String,
    pub process_name: String,
    pub icon: Option<String>,
    pub last_used_list_id: Option<String>,
}

/// What an `Application` holds, as plain text.
pub struct ApplicationModel {
    pub id: Seq<char>,
    pub name: Seq<char>,
    pub process_name: Seq<char>,
    pub icon: Option<Seq<char>>,
    pub last_used_list_id: Option<Seq<char>>,
}

impl View for Application {
    type V = ApplicationModel;

    open spec fn view(&self) -> ApplicationModel {
        ApplicationModel {
            id: self.id@,
            name: self.name@,
            process_name: self.process_name@,
            icon: optional_text(self.icon),
            last_used_list_id: optional_text(self.last_used_list_id),
        }
    }
}

impl Clone for Application {
    fn clone(&self) -> (r: Self)
        ensures
            r@ == self@,
    {
        Application {
            id: self.id.clone(),
            name: self.name.clone(),
            process_name: self.process_name.clone(),
            icon: copy_optional(&self.icon),
            last_used_list_id: copy_optional(&self.last_used_list_id),
        }
    }
}

/// One keyboard shortcut of a list.
#[derive(Debug, Clone, PartialEq, Eq)]
pub struct Shortcut {
    pub id: String,
    pub key_combo: String,
    pub description: String,
    pub order: i32,
}

/// What a `Shortcut` holds, as plain text.
pub struct ShortcutModel {
    pub id: Seq<char>,
    pub key_combo: Seq<char>,
    pub description: Seq<char>,
    pub order: i32,
}

impl View for Shortcut {
    type V = ShortcutModel;

    open spec fn view(&self) -> ShortcutModel {
        ShortcutModel {
            id: self.id@,
            key_combo: self.key_combo@,
            description: self.description@,
            order: self.order,
        }
    }
}

/// A named list of shortcuts that belongs to one application.
#[derive(Debug, Clone, PartialEq, Eq)]
pub struct ShortcutList {
    pub id: String,
    pub name: String,
    pub application_id: String,
    pub shortcuts: Vec<Shortcut>,
    pub created_at: String,
    pub updated_at: String,
}

/// What a `ShortcutList` holds, as plain text.
pub struct ShortcutListModel {
    pub id: Seq<char>,
    pub name: Seq<char>,
    pub application_id: Seq<char>,
    pub shortcuts: Seq<ShortcutModel>,
    pub created_at: Seq<char>,
    pub updated_at: Seq<char>,
}

impl View for ShortcutList {
    type V = ShortcutListModel;

    open spec fn view(&self) -> ShortcutListModel {
        ShortcutListModel {
            id: self.id@,
            name: self.name@,
            application_id: self.application_id@,
            shortcuts: Seq::new(self.shortcuts@.len(), |i: int| self.shortcuts@[i]@),
            created_at: self.created_at@,
            updated_at: self.updated_at@,
        }
    }
}

/// The key bindings of the list editor.
#[derive(Debug, Clone, PartialEq, Eq)]
pub struct KeyboardShortcuts {
    pub move_up: String,
    pub move_down: String,
    pub duplicate: String,
    pub delete: String,
    pub add_new: String,
}

/// What `KeyboardShortcuts` holds, as plain text.
pub struct KeyboardShortcutsModel {
    pub move_up: Seq<char>,
    pub move_down: Seq<char>,
    pub duplicate: Seq<char>,
    pub delete: Seq<char>,
    pub add_new: Seq<char>,
}

impl View for KeyboardShortcuts {
    type V = KeyboardShortcutsModel;

    open spec fn view(&self) -> KeyboardShortcutsModel {
        KeyboardShortcutsModel {
            move_up: self.move_up@,
            move_down: self.move_down@,
            duplicate: self.duplicate@,
            delete: self.delete@,
            add_new: self.add_new@,
        }
    }
}

/// The user's settings. `window_position` names the anchor corner.
#[derive(Debug, Clone, PartialEq, Eq)]
pub struct Settings {
    pub global_hotkey: String,
    pub always_on_top: bool,
    pub run_on_startup: bool,
    pub keyboard_shortcuts: KeyboardShortcuts,
    pub window_position: String,
}

/// What `Settings` holds, as plain text.
pub struct SettingsModel {
    pub global_hotkey: Seq<char>,
    pub always_on_top: bool,
    pub run_on_startup: bool,
    pub keyboard_shortcuts: KeyboardShortcutsModel,
    pub window_position: Seq<char>,
}

impl View for Settings {
    type V = SettingsModel;

    open spec fn view(&self) -> SettingsModel {
        SettingsModel {
            global_hotkey: self.global_hotkey@,
            always_on_top: self.always_on_top,
            run_on_startup: self.run_on_startup,
            keyboard_shortcuts: self.keyboard_shortcuts@,
            window_position: self.window_position@,
        }
    }
}

/// The key bindings of the list editor that every fresh installation has.
pub open spec fn standard_keyboard_shortcuts() -> KeyboardShortcutsModel {
    KeyboardShortcutsModel {
        move_up: "Control+Up"@,
        move_down: "Control+Down"@,
        duplicate: "Control+D"@,
        delete: "Delete"@,
        add_new: "Control+N"@,
    }
}

/// The settings in force while no settings file exists.
pub open spec fn default_settings_model() -> SettingsModel {
    SettingsModel {
        global_hotkey: "CommandOrControl+Shift+K"@,
        always_on_top: true,
        run_on_startup: false,
        keyboard_shortcuts: standard_keyboard_shortcuts(),
        window_position: "BottomRight"@,
    }
}

/// The settings in force where the settings file cannot be read.
pub open spec fn fallback_settings_model() -> SettingsModel {
    SettingsModel {
        global_hotkey: "CommandOrControl+Shift+Alt+K"@,
        always_on_top: true,
        run_on_startup: true,
        keyboard_shortcuts: standard_keyboard_shortcuts(),
        window_position: "BottomRight"@,
    }
}

/// The anchor corner that a setting's text names. Any text but the names of
/// the three other corners means the bottom right one.
pub open spec fn anchor_named(name: Seq<char>) -> AnchorCorner {
    if name == "TopLeft"@ {
        AnchorCorner::TopLeft
    } else if name == "TopRight"@ {
        AnchorCorner::TopRight
    } else if name == "BottomLeft"@ {
        AnchorCorner::BottomLeft
    } else {
        AnchorCorner::BottomRight
    }
}

fn standard_shortcuts() -> (r: KeyboardShortcuts)
    ensures
        r@ == standard_keyboard_shortcuts(),
{
    KeyboardShortcuts {
        move_up: "Control+Up".to_string(),
        move_down: "Control+Down".to_string(),
        duplicate: "Control+D".to_string(),
        delete: "Delete".to_string(),
        add_new: "Control+N".to_string(),
    }
}

/// The settings of a fresh installation.
pub fn default_settings() -> (r: Settings)
    ensures
        r@ == default_settings_model(),
{
    Settings {
        global_hotkey: "CommandOrControl+Shift+K".to_string(),
        always_on_top: true,
        run_on_startup: false,
        keyboard_shortcuts: standard_shortcuts(),
        window_position: "BottomRight".to_string(),
    }
}

/// The settings to go on with where loading them failed.
pub fn fallback_settings() -> (r: Settings)
    ensures
        r@ == fallback_settings_model(),
{
    Settings {
        global_hotkey: "CommandOrControl+Shift+Alt+K".to_string(),
        always_on_top: true,
        run_on_startup: true,
        keyboard_shortcuts: standard_shortcuts(),
        window_position: "BottomRight".to_string(),
    }
}

/// Takes the loaded settings where loading succeeded, and the fallback
/// settings where it failed.
pub fn settings_or_fallback(loaded: Result<Settings, String>) -> (r: Settings)
    ensures
        match loaded {
            Ok(s) => r == s,
            Err(_) => r@ == fallback_settings_model(),
        },
{
    match loaded {
        Ok(s) => s,
        Err(_) => fallback_settings(),
    }
}

/// Decides what the settings are from what was found on disk: the stored
/// settings or the failure to read them where the file exists, the default
/// settings where it does not.
pub fn load_settings(stored: Option<Result<Settings, String>>) -> (r: Result<Settings, String>)
    ensures
        match stored {
            Some(found) => r == found,
            None => r is Ok && r->Ok_0@ == default_settings_model(),
        },
{
    match stored {
        Some(found) => found,
        None => Ok(default_settings()),
    }
}

/// Decides what the shortcut lists are from what was found on disk: the
/// stored lists or the failure to read them where the file exists, no list
/// where it does not.
pub fn load_lists(stored: Option<Result<Vec<ShortcutList>, String>>) -> (r: Result<
    Vec<ShortcutList>,
    String,
>)
    ensures
        match stored {
            Some(found) => r == found,
            None => r is Ok && r->Ok_0@.len() == 0,
        },
{
    match stored {
        Some(found) => found,
        None => Ok(Vec::new()),
    }
}

/// Decides what the user's own applications are from what was found on disk:
/// the stored applications or the failure to read them where the file exists,
/// no application where it does not.
pub fn load_user_applications(stored: Option<Result<Vec<Application>, String>>) -> (r: Result<
    Vec<Application>,
    String,
>)
    ensures
        match stored {
            Some(found) => r == found,
            None => r is Ok && r->Ok_0@.len() == 0,
        },
{
    match stored {
        Some(found) => found,
        None => Ok(Vec::new()),
    }
}

/// Builds the effective registry from what was read: the bundled catalog and
/// the user's own applications. A failure to read the bundled catalog is
/// handed on first, then one to read the user's applications.
pub fn load_applications(
    bundled: Result<Vec<Application>, String>,
    user: Result<Vec<Application>, String>,
) -> (r: Result<Vec<Application>, String>)
    ensures
        match (bundled, user) {
            (Err(e), _) => r == Err::<Vec<Application>, String>(e),
            (Ok(_), Err(e)) => r == Err::<Vec<Application>, String>(e),
            (Ok(b), Ok(u)) => r is Ok && models(r->Ok_0@) == resolve_model(
                models(b@),
                models(u@),
            ),
        },
{
    match bundled {
        Err(e) => Err(e),
        Ok(b) => match user {
            Err(e) => Err(e),
            Ok(u) => Ok(resolve(&b, &u)),
        },
    }
}

/// Reads the anchor corner out of its name.
pub fn parse_anchor(name: &str) -> (r: AnchorCorner)
    ensures
        r == anchor_named(name@),
{
    if same_text(name, "TopLeft") {
        AnchorCorner::TopLeft
    } else if same_text(name, "TopRight") {
        AnchorCorner::TopRight
    } else if same_text(name, "BottomLeft") {
        AnchorCorner::BottomLeft
    } else {
        AnchorCorner::BottomRight
    }
}

impl Settings {
    /// The corner that the overlay is anchored to.
    pub fn anchor_corner(&self) -> (r: AnchorCorner)
        ensures
            r == anchor_named(self.window_position@),
    {
        parse_anchor(self.window_position.as_str())
    }
}

/// Whether the character separates the components of a path on some
/// platform.
pub open spec fn is_separator(c: char) -> bool {
    c == '/' || c == '\\'
}

/// Whether the text is the name of a file and nothing more: it is not empty,
/// holds no separator of path components and no drive colon, and is neither
/// of the two names that stand for a directory itself and for its parent.
pub open spec fn is_plain_file_name(name: Seq<char>) -> bool {
    &&& name.len() > 0
    &&& !(name.len() == 1 && name[0] == '.')
    &&& !(name.len() == 2 && name[0] == '.' && name[1] == '.')
    &&& forall|i: int|
        0 <= i < name.len() ==> !is_separator(name[i]) && #[trigger] name[i] != ':'
}

/// Whether the directory's text begins as a verbatim path does: with two
/// separators, a question mark and a separator. Such a directory is written
/// anew when a name is joined to it.
pub open spec fn has_verbatim_prefix(dir: Seq<char>) -> bool {
    &&& dir.len() >= 4
    &&& is_separator(dir[0])
    &&& is_separator(dir[1])
    &&& dir[2] == '?'
    &&& is_separator(dir[3])
}

/// Whether `path` is `dir` followed by `name`, with nothing or with one
/// separator between them.
pub open spec fn is_joined(path: Seq<char>, dir: Seq<char>, name: Seq<char>) -> bool {
    ||| path == dir + name
    ||| path == dir.push('/') + name
    ||| path == dir.push('\\') + name
}

/// Whether `path` names the file `name` in the directory `dir`: it ends with
/// the name, and unless the directory is a verbatim path it is the directory
/// and the name with at most one separator between them.
pub open spec fn is_file_in(path: Seq<char>, dir: Seq<char>, name: Seq<char>) -> bool {
    &&& path.len() >= name.len()
    &&& path.subrange(path.len() - name.len(), path.len() as int) == name
    &&& !has_verbatim_prefix(dir) ==> is_joined(path, dir, name)
}

/// `Path::join` on a directory and a plain file name, both given and returned
/// as text. The standard library adjoins the name to the directory and puts
/// the platform's separator between them where the directory does not end
/// with one already. A directory with a verbatim prefix may be written anew
/// on the way, so of such a one the contract claims only that the result ends
/// with the name.
#[verifier::external_body]
fn join_path(dir: &str, name: &str) -> (r: String)
    requires
        is_plain_file_name(name@),
    ensures
        is_file_in(r@, dir@, name@),
{
    std::path::Path::new(dir).join(name).to_string_lossy().into_owned()
}

/// The file that holds the user's own applications, in the data directory.
/// A failure to find the data directory is handed on as it is.
pub fn user_applications_path(data_dir: Result<String, String>) -> (r: Result<String, String>)
    ensures
        match data_dir {
            Ok(dir) => r is Ok && is_file_in(r->Ok_0@, dir@, "user-applications.json"@),
            Err(e) => r == Err::<String, String>(e),
        },
{
    match data_dir {
        Ok(dir) => {
            proof {
                reveal_strlit("user-applications.json");
            }
            Ok(join_path(dir.as_str(), "user-applications.json"))
        },
        Err(e) => Err(e),
    }
}

/// The file that holds the settings, in the data directory.
pub fn settings_path(data_dir: &str) -> (r: String)
    ensures
        is_file_in(r@, data_dir@, "settings.json"@),
{
    proof {
        reveal_strlit("settings.json");
    }
    join_path(data_dir, "settings.json")
}

/// The file that holds the shortcut lists, in the data directory.
pub fn lists_path(data_dir: &str) -> (r: String)
    ensures
        is_file_in(r@, data_dir@, "lists.json"@),
{
    proof {
        reveal_strlit("lists.json");
    }
    join_path(data_dir, "lists.json")
}

/// The file that holds the applications, in the data directory.
pub fn applications_path(data_dir: &str) -> (r: String)
    ensures
        is_file_in(r@, data_dir@, "applications.json"@),
{
    proof {
        reveal_strlit("applications.json");
    }
    join_path(data_dir, "applications.json")
}

} // verus!
