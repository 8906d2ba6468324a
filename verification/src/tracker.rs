//! Sorting the foreground application into a category of activity.

use vstd::prelude::*;
use crate::config::AppConfig;
use crate::text::contains;
use crate::text::has_substring;
use crate::text::lowercase_of;
use crate::text::push_char;
use crate::text::str_eq;
use crate::text::to_lowercase;

verus! {

/// Seconds between two looks at the foreground window; each look is
/// recorded as that much activity.
pub const TRACK_INTERVAL_SEC: u64 = 5;

/// A category of activity.
#[derive(Debug, Clone, Copy, PartialEq, Eq, Structural)]
pub enum Category {
    Work,
    Entertainment,
    Communication,
    Browser,
    Other,
}

/// The name under which a category is recorded.
pub open spec fn category_name(c: Category) -> Seq<char> {
    match c {
        Category::Work => "Work"@,
        Category::Entertainment => "Entertainment"@,
        Category::Communication => "Communication"@,
        Category::Browser => "Browser"@,
        Category::Other => "Other"@,
    }
}

impl Category {
    /// The name under which the category is recorded.
    pub fn as_str(&self) -> (r: &'static str)
        ensures
            r@ == category_name(*self),
    {
        match self {
            Category::Work => "Work",
            Category::Entertainment => "Entertainment",
            Category::Communication => "Communication",
            Category::Browser => "Browser",
            Category::Other => "Other",
        }
    }
}

/// Executables that count as work.
pub open spec fn work_apps() -> Seq<Seq<char>> {
    seq![
        "code.exe"@,
        "devenv.exe"@,
        "idea64.exe"@,
        "pycharm64.exe"@,
        "webstorm64.exe"@,
        "rider64.exe"@,
        "goland64.exe"@,
        "clion64.exe"@,
        "datagrip64.exe"@,
        "sublime_text.exe"@,
        "notepad++.exe"@,
        "atom.exe"@,
        "winword.exe"@,
        "excel.exe"@,
        "powerpnt.exe"@,
        "onenote.exe"@,
        "outlook.exe"@,
        "thunderbird.exe"@,
        "windowsterminal.exe"@,
        "cmd.exe"@,
        "powershell.exe"@,
        "pwsh.exe"@,
        "mintty.exe"@,
        "conemu64.exe"@,
        "wt.exe"@,
        "figma.exe"@,
        "adobe photoshop.exe"@,
        "illustrator.exe"@,
    ]
}

/// Executables that count as entertainment.
pub open spec fn entertainment_apps() -> Seq<Seq<char>> {
    seq![
        "spotify.exe"@,
        "vlc.exe"@,
        "wmplayer.exe"@,
        "itunes.exe"@,
        "steam.exe"@,
        "epicgameslauncher.exe"@,
        "gog galaxy.exe"@,
        "netflix.exe"@,
        "twitch.exe"@,
    ]
}

/// Executables that count as communication.
pub open spec fn communication_apps() -> Seq<Seq<char>> {
    seq![
        "teams.exe"@,
        "ms-teams.exe"@,
        "slack.exe"@,
        "discord.exe"@,
        "zoom.exe"@,
        "skype.exe"@,
        "telegram.exe"@,
        "signal.exe"@,
        "whatsapp.exe"@,
        "messenger.exe"@,
    ]
}

/// Executables that are browsers.
pub open spec fn browser_apps() -> Seq<Seq<char>> {
    seq![
        "chrome.exe"@,
        "firefox.exe"@,
        "msedge.exe"@,
        "opera.exe"@,
        "brave.exe"@,
        "vivaldi.exe"@,
        "safari.exe"@,
        "iexplore.exe"@,
    ]
}

/// The category that an executable has by its name alone, if it is a known
/// one. Were a name in two lists, the later list would decide.
pub open spec fn category_of(process_name: Seq<char>) -> Option<Category> {
    if browser_apps().contains(process_name) {
        Some(Category::Browser)
    } else if communication_apps().contains(process_name) {
        Some(Category::Communication)
    } else if entertainment_apps().contains(process_name) {
        Some(Category::Entertainment)
    } else if work_apps().contains(process_name) {
        Some(Category::Work)
    } else {
        None
    }
}

/// The texts of a list of names.
pub open spec fn texts(names: Seq<&'static str>) -> Seq<Seq<char>> {
    names.map_values(|s: &'static str| s@)
}

fn listed(names: &Vec<&'static str>, name: &str) -> (r: bool)
    ensures
        r == texts(names@).contains(name@),
{
    let mut i: usize = 0;
    while i < names.len()
        invariant
            i <= names@.len(),
            forall|k: int| 0 <= k < i ==> texts(names@)[k] != name@,
        decreases names@.len() - i,
    {
        if str_eq(names[i], name) {
            assert(texts(names@)[i as int] == name@);
            return true;
        }
        i += 1;
    }
    false
}

fn work_list() -> (r: Vec<&'static str>)
    ensures
        texts(r@) == work_apps(),
{
    let r = vec![
        "code.exe",
        "devenv.exe",
        "idea64.exe",
        "pycharm64.exe",
        "webstorm64.exe",
        "rider64.exe",
        "goland64.exe",
        "clion64.exe",
        "datagrip64.exe",
        "sublime_text.exe",
        "notepad++.exe",
        "atom.exe",
        "winword.exe",
        "excel.exe",
        "powerpnt.exe",
        "onenote.exe",
        "outlook.exe",
        "thunderbird.exe",
        "windowsterminal.exe",
        "cmd.exe",
        "powershell.exe",
        "pwsh.exe",
        "mintty.exe",
        "conemu64.exe",
        "wt.exe",
        "figma.exe",
        "adobe photoshop.exe",
        "illustrator.exe",
    ];
    assert(texts(r@) =~= work_apps());
    r
}

fn entertainment_list() -> (r: Vec<&'static str>)
    ensures
        texts(r@) == entertainment_apps(),
{
    let r = vec![
        "spotify.exe",
        "vlc.exe",
        "wmplayer.exe",
        "itunes.exe",
        "steam.exe",
        "epicgameslauncher.exe",
        "gog galaxy.exe",
        "netflix.exe",
        "twitch.exe",
    ];
    assert(texts(r@) =~= entertainment_apps());
    r
}

fn communication_list() -> (r: Vec<&'static str>)
    ensures
        texts(r@) == communication_apps(),
{
    let r = vec![
        "teams.exe",
        "ms-teams.exe",
        "slack.exe",
        "discord.exe",
        "zoom.exe",
        "skype.exe",
        "telegram.exe",
        "signal.exe",
        "whatsapp.exe",
        "messenger.exe",
    ];
    assert(texts(r@) =~= communication_apps());
    r
}

fn browser_list() -> (r: Vec<&'static str>)
    ensures
        texts(r@) == browser_apps(),
{
    let r = vec![
        "chrome.exe",
        "firefox.exe",
        "msedge.exe",
        "opera.exe",
        "brave.exe",
        "vivaldi.exe",
        "safari.exe",
        "iexplore.exe",
    ];
    assert(texts(r@) =~= browser_apps());
    r
}

/// The category that an executable has by its name alone, if it is a known
/// one. Names are expected in lower case.
pub fn process_category(process_name: &str) -> (r: Option<Category>)
    ensures
        r == category_of(process_name@),
{
    if listed(&browser_list(), process_name) {
        Some(Category::Browser)
    } else if listed(&communication_list(), process_name) {
        Some(Category::Communication)
    } else if listed(&entertainment_list(), process_name) {
        Some(Category::Entertainment)
    } else if listed(&work_list(), process_name) {
        Some(Category::Work)
    } else {
        None
    }
}

/// The category that a browser window has by its title in lower case, if
/// the title names a known site.
pub open spec fn title_category(lower: Seq<char>) -> Option<Category> {
    if has_substring(lower, "youtube"@) || has_substring(lower, "netflix"@) || has_substring(
        lower,
        "twitch"@,
    ) {
        Some(Category::Entertainment)
    } else if has_substring(lower, "gmail"@) || has_substring(lower, "outlook"@) || has_substring(
        lower,
        "slack"@,
    ) || has_substring(lower, "teams"@) || has_substring(lower, "discord"@) {
        Some(Category::Communication)
    } else if has_substring(lower, "github"@) || has_substring(lower, "gitlab"@) || has_substring(
        lower,
        "stackoverflow"@,
    ) || has_substring(lower, "docs."@) || has_substring(lower, "jira"@) || has_substring(
        lower,
        "confluence"@,
    ) {
        Some(Category::Work)
    } else {
        None
    }
}

/// The category that a browser window has by its title in lower case.
pub fn lowered_title_category(lower: &str) -> (r: Option<Category>)
    ensures
        r == title_category(lower@),
{
    if contains(lower, "youtube") || contains(lower, "netflix") || contains(lower, "twitch") {
        Some(Category::Entertainment)
    } else if contains(lower, "gmail") || contains(lower, "outlook") || contains(lower, "slack")
        || contains(lower, "teams") || contains(lower, "discord") {
        Some(Category::Communication)
    } else if contains(lower, "github") || contains(lower, "gitlab") || contains(
        lower,
        "stackoverflow",
    ) || contains(lower, "docs.") || contains(lower, "jira") || contains(lower, "confluence") {
        Some(Category::Work)
    } else {
        None
    }
}

/// The category that a browser window has by its title, if the title names
/// a known site. Upper and lower case are not told apart.
pub fn browser_title_category(title: &str) -> (r: Option<Category>)
    ensures
        r == title_category(lowercase_of(title@)),
{
    let lowered = to_lowercase(title);
    lowered_title_category(lowered.as_str())
}

/// The category of the foreground window: that of its executable, refined
/// by the title if the executable is a browser, and `Other` for an unknown
/// executable.
pub open spec fn activity_category(process_name: Seq<char>, title: Seq<char>) -> Category {
    match category_of(process_name) {
        Some(Category::Browser) => match title_category(lowercase_of(title)) {
            Some(c) => c,
            None => Category::Browser,
        },
        Some(c) => c,
        None => Category::Other,
    }
}

/// The category of the foreground window.
pub fn categorize(process_name: &str, window_title: &str) -> (r: Category)
    ensures
        r == activity_category(process_name@, window_title@),
{
    match process_category(process_name) {
        Some(Category::Browser) => match browser_title_category(window_title) {
            Some(c) => c,
            None => Category::Browser,
        },
        Some(c) => c,
        None => Category::Other,
    }
}

/// The part of `path` behind its last `separator`; all of it if there is
/// none.
pub open spec fn after_last(path: Seq<char>, separator: char) -> Seq<char>
    decreases path.len(),
{
    if path.len() == 0 || path.last() == separator {
        Seq::empty()
    } else {
        after_last(path.drop_last(), separator).push(path.last())
    }
}

/// The part of a full path behind its last backslash.
pub fn file_name(full_path: &str) -> (r: String)
    ensures
        r@ == after_last(full_path@, '\\'),
{
    let mut name = String::new();
    for c in it: full_path.chars()
        invariant
            it.seq() == full_path@,
            name@ == after_last(full_path@.take(it.index() as int), '\\'),
    {
        proof {
            let upto = full_path@.take(it.index() + 1);
            assert(upto.drop_last() =~= full_path@.take(it.index() as int));
            assert(upto.last() == c);
        }
        if c == '\\' {
            name = String::new();
        } else {
            push_char(&mut name, c);
        }
    }
    assert(full_path@.take(full_path@.len() as int) =~= full_path@);
    name
}

/// The name of an executable as the categories know it: the part of its
/// full path behind the last backslash, in lower case.
pub fn executable_name(full_path: &str) -> (r: String)
    ensures
        r@ == lowercase_of(after_last(full_path@, '\\')),
{
    let name = file_name(full_path);
    to_lowercase(name.as_str())
}

/// The title that is recorded with an activity: the window's title if the
/// user lets titles be tracked, else nothing.
pub fn recorded_title<'a>(config: &AppConfig, window_title: &'a str) -> (r: &'a str)
    ensures
        r@ == (if config.track_window_titles {
            window_title@
        } else {
            Seq::<char>::empty()
        }),
{
    if config.track_window_titles {
        window_title
    } else {
        proof {
            reveal_strlit("");
            assert(""@ =~= Seq::<char>::empty());
        }
        ""
    }
}

} // verus!
