//! Small decisions of the installer: names, file selection, progress.

use vstd::prelude::*;

verus! {

/// Whether `c` has the Unicode property `Uppercase`, as `char::is_uppercase`
/// tells it.
pub uninterp spec fn unicode_uppercase(c: char) -> bool;

/// Whether `c` has the Unicode property `Lowercase`, as `char::is_lowercase`
/// tells it.
pub uninterp spec fn unicode_lowercase(c: char) -> bool;

/// `char::is_uppercase` depends on the character alone; its answer is the one
/// named `unicode_uppercase`.
pub assume_specification[ char::is_uppercase ](c: char) -> (upper: bool)
    ensures
        upper == unicode_uppercase(c),
;

/// `char::is_lowercase` depends on the character alone; its answer is the one
/// named `unicode_lowercase`.
pub assume_specification[ char::is_lowercase ](c: char) -> (lower: bool)
    ensures
        lower == unicode_lowercase(c),
;

/// `String::push` appends the character to the end of the string.
pub assume_specification[ String::push ](s: &mut String, c: char)
    ensures
        final(s)@ == old(s)@.push(c),
;

/// A space belongs in front of the character at `i`: it is uppercase and
/// the character before it is lowercase.
pub open spec fn space_before(name: Seq<char>, i: int) -> bool {
    0 < i < name.len() && unicode_uppercase(name[i]) && unicode_lowercase(name[i - 1])
}

/// The name with a space at every step from a lowercase to an uppercase
/// character, and nothing else changed.
pub open spec fn spaced(name: Seq<char>) -> Seq<char>
    decreases name.len(),
{
    if name.len() == 0 {
        Seq::empty()
    } else if space_before(name, name.len() - 1) {
        spaced(name.drop_last()).push(' ').push(name.last())
    } else {
        spaced(name.drop_last()).push(name.last())
    }
}

/// Whether a space goes in front of a character, given whether it is
/// uppercase and whether it follows a lowercase character.
pub fn wants_space(uppercase: bool, after_lowercase: bool) -> (wanted: bool)
    ensures
        wanted == (uppercase && after_lowercase),
{
    uppercase && after_lowercase
}

/// Makes a display name of a camel-case application name: `MyCoolApp` becomes
/// `My Cool App`.
pub fn add_spaces(app_name: &str) -> (new_name: String)
    ensures
        new_name@ == spaced(app_name@),
{
    let mut new_name = String::new();
    let mut last_char_was_lowercase = false;
    for c in it: app_name.chars()
        invariant
            it.seq() == app_name@,
            new_name@ == spaced(app_name@.take(it.index())),
            last_char_was_lowercase == (it.index() > 0 && unicode_lowercase(
                app_name@[it.index() - 1],
            )),
    {
        proof {
            let ghost k = it.index();
            assert(app_name@.take(k + 1).drop_last() =~= app_name@.take(k));
            assert(app_name@.take(k + 1).last() == app_name@[k]);
        }
        if wants_space(c.is_uppercase(), last_char_was_lowercase) {
            new_name.push(' ');
        }
        new_name.push(c);
        last_char_was_lowercase = c.is_lowercase();
    }
    proof {
        assert(app_name@.take(app_name@.len() as int) =~= app_name@);
    }
    new_name
}

/// The characters of a string, one by one.
fn to_chars(text: &str) -> (chars: Vec<char>)
    ensures
        chars@ == text@,
{
    let mut chars: Vec<char> = Vec::new();
    for c in it: text.chars()
        invariant
            it.seq() == text@,
            chars@ == text@.take(it.index()),
    {
        proof {
            assert(text@.take(it.index() + 1) =~= text@.take(it.index()).push(c));
        }
        chars.push(c);
    }
    proof {
        assert(text@.take(text@.len() as int) =~= text@);
    }
    chars
}

/// `name` is `stem.extension` with a stem that is not empty: what stands
/// behind the last `.` of the file name is `extension`, and that `.` is not
/// the first character.
pub open spec fn has_extension_spec(name: Seq<char>, extension: Seq<char>) -> bool {
    &&& !extension.contains('.')
    &&& name.len() > extension.len() + 1
    &&& name[name.len() - extension.len() - 1] == '.'
    &&& name.subrange(name.len() - extension.len(), name.len() as int) == extension
}

/// Whether the file name ends in `.` and `extension`, compared letter by
/// letter. A name that is only a dot and the extension has none.
pub fn has_extension(file_name: &str, extension: &str) -> (has: bool)
    ensures
        has == has_extension_spec(file_name@, extension@),
{
    let name = to_chars(file_name);
    let ext = to_chars(extension);
    if name.len() < 2 || ext.len() > name.len() - 2 {
        return false;
    }
    let base: usize = name.len() - ext.len();
    if name[base - 1] != '.' {
        return false;
    }
    let mut i: usize = 0;
    while i < ext.len()
        invariant
            i <= ext.len(),
            base + ext.len() == name.len(),
            name@ == file_name@,
            ext@ == extension@,
            forall|k: int| 0 <= k < i ==> ext@[k] != '.' && name@[base + k] == ext@[k],
        decreases ext.len() - i,
    {
        if ext[i] == '.' {
            assert(ext@[i as int] == '.');
            return false;
        }
        if name[base + i] != ext[i] {
            assert(name@.subrange(base as int, name@.len() as int)[i as int] != ext@[i as int]);
            return false;
        }
        i = i + 1;
    }
    proof {
        assert(name@.subrange(base as int, name@.len() as int) =~= ext@);
        assert(!ext@.contains('.')) by {
            if ext@.contains('.') {
                let k = choose|k: int| 0 <= k < ext@.len() && ext@[k] == '.';
                assert(ext@[k] != '.');
            }
        }
    }
    true
}

/// What the file system tells of one entry of a directory.
#[derive(Debug, Clone, PartialEq, Eq)]
pub struct FileInfo {
    /// The file name, without the directory.
    pub name: String,
    /// Whether the entry is a regular file.
    pub is_file: bool,
    /// When the entry was last modified, where that is known, on any scale
    /// that grows with time.
    pub modified: Option<u64>,
}

/// The entry is a candidate archive: a regular file named `*.zip` whose
/// modification time is known.
pub open spec fn is_archive(info: FileInfo) -> bool {
    info.is_file && has_extension_spec(info.name@, "zip"@) && info.modified is Some
}

/// The entry at `k` is the archive to install: no archive of the listing is
/// newer, and of several with that same time it is the last in the listing.
/// File names play no part.
pub open spec fn is_latest_zip(entries: Seq<FileInfo>, k: int) -> bool {
    &&& 0 <= k < entries.len()
    &&& is_archive(entries[k])
    &&& forall|j: int|
        0 <= j < entries.len() && is_archive(#[trigger] entries[j]) ==> entries[j].modified->0
            <= entries[k].modified->0
    &&& forall|j: int|
        k < j < entries.len() && is_archive(#[trigger] entries[j]) ==> entries[j].modified->0
            < entries[k].modified->0
}

/// Picks the newest archive of a directory listing, by modification time
/// alone. `None` means that the listing holds no archive.
pub fn latest_zip(entries: &Vec<FileInfo>) -> (latest: Option<usize>)
    ensures
        match latest {
            Some(k) => is_latest_zip(entries@, k as int),
            None => forall|j: int| 0 <= j < entries@.len() ==> !is_archive(#[trigger] entries@[j]),
        },
{
    let mut newest: Option<(usize, u64)> = None;
    let mut i: usize = 0;
    while i < entries.len()
        invariant
            i <= entries@.len(),
            match newest {
                Some((k, time)) => {
                    &&& k < i
                    &&& is_archive(entries@[k as int])
                    &&& entries@[k as int].modified == Some(time)
                    &&& forall|j: int|
                        0 <= j < i && is_archive(#[trigger] entries@[j])
                            ==> entries@[j].modified->0 <= time
                    &&& forall|j: int|
                        k < j < i && is_archive(#[trigger] entries@[j])
                            ==> entries@[j].modified->0 < time
                },
                None => forall|j: int| 0 <= j < i ==> !is_archive(#[trigger] entries@[j]),
            },
        decreases entries@.len() - i,
    {
        let info = &entries[i];
        if info.is_file && has_extension(info.name.as_str(), "zip") {
            if let Some(modified) = info.modified {
                let newer = match newest {
                    Some((_, time)) => modified >= time,
                    None => true,
                };
                if newer {
                    newest = Some((i, modified));
                }
            }
        }
        i = i + 1;
    }
    match newest {
        Some((k, _)) => Some(k),
        None => None,
    }
}

/// A listing has one latest archive at most.
pub proof fn lemma_latest_zip_is_unique(entries: Seq<FileInfo>, a: int, b: int)
    requires
        is_latest_zip(entries, a),
        is_latest_zip(entries, b),
    ensures
        a == b,
{
}

/// Among archives whose modification times all differ, the latest is the one
/// with the greatest time, wherever it stands and whatever it is called.
pub proof fn lemma_latest_zip_has_greatest_time(entries: Seq<FileInfo>, k: int)
    requires
        0 <= k < entries.len(),
        is_archive(entries[k]),
        forall|j: int|
            0 <= j < entries.len() && j != k && is_archive(#[trigger] entries[j])
                ==> entries[j].modified->0 < entries[k].modified->0,
    ensures
        is_latest_zip(entries, k),
{
}

/// The entry is an executable: a regular file named `*.exe`.
pub open spec fn is_executable(info: FileInfo) -> bool {
    info.is_file && has_extension_spec(info.name@, "exe"@)
}

/// Finds the first executable of a directory listing, in the order of the
/// listing. Directories of the listing are not entered.
pub fn find_executable(entries: &Vec<FileInfo>) -> (found: Option<usize>)
    ensures
        match found {
            Some(k) => {
                &&& k < entries@.len()
                &&& is_executable(entries@[k as int])
                &&& forall|j: int| 0 <= j < k ==> !is_executable(#[trigger] entries@[j])
            },
            None => forall|j: int| 0 <= j < entries@.len() ==> !is_executable(#[trigger] entries@[j]),
        },
{
    let mut i: usize = 0;
    while i < entries.len()
        invariant
            i <= entries@.len(),
            forall|j: int| 0 <= j < i ==> !is_executable(#[trigger] entries@[j]),
        decreases entries@.len() - i,
    {
        let info = &entries[i];
        if info.is_file && has_extension(info.name.as_str(), "exe") {
            return Some(i);
        }
        i = i + 1;
    }
    None
}

/// `word` stands in `text` at `at`.
pub open spec fn occurs_at(text: Seq<char>, word: Seq<char>, at: int) -> bool {
    &&& 0 <= at
    &&& at + word.len() <= text.len()
    &&& text.subrange(at, at + word.len()) == word
}

/// `word` stands somewhere in `text`.
pub open spec fn contains_text(text: Seq<char>, word: Seq<char>) -> bool {
    exists|at: int| occurs_at(text, word, at)
}

fn matches_at(text: &Vec<char>, word: &Vec<char>, at: usize) -> (matches: bool)
    requires
        at + word.len() <= text.len(),
    ensures
        matches == occurs_at(text@, word@, at as int),
{
    let mut k: usize = 0;
    while k < word.len()
        invariant
            k <= word.len(),
            at + word.len() <= text.len(),
            forall|j: int| 0 <= j < k ==> text@[at + j] == word@[j],
        decreases word.len() - k,
    {
        if text[at + k] != word[k] {
            assert(text@.subrange(at as int, at + word.len())[k as int] != word@[k as int]);
            return false;
        }
        k = k + 1;
    }
    assert(text@.subrange(at as int, at + word.len()) =~= word@);
    true
}

/// Whether `word` stands somewhere in `text`, compared letter by letter.
pub fn contains(text: &str, word: &str) -> (found: bool)
    ensures
        found == contains_text(text@, word@),
{
    let text_chars = to_chars(text);
    let word_chars = to_chars(word);
    if word_chars.len() > text_chars.len() {
        return false;
    }
    let last: usize = text_chars.len() - word_chars.len();
    let mut at: usize = 0;
    while at < last
        invariant
            at <= last,
            last + word_chars.len() == text_chars.len(),
            text_chars@ == text@,
            word_chars@ == word@,
            forall|j: int| 0 <= j < at ==> !occurs_at(text@, word@, j),
        decreases last - at,
    {
        if matches_at(&text_chars, &word_chars, at) {
            return true;
        }
        at = at + 1;
    }
    matches_at(&text_chars, &word_chars, last)
}

/// The start menu at `k` is the one for the shortcut: the first whose path
/// holds `Local`, or the first of all where none does.
pub open spec fn is_chosen_start_menu(paths: Seq<String>, k: int) -> bool {
    &&& 0 <= k < paths.len()
    &&& forall|j: int| 0 <= j < k ==> !contains_text(#[trigger] paths[j]@, "Local"@)
    &&& contains_text(paths[k]@, "Local"@) || (k == 0 && forall|j: int|
        0 <= j < paths.len() ==> !contains_text(#[trigger] paths[j]@, "Local"@))
}

/// Chooses the start menu directory in which the shortcut is kept: the user's
/// own is preferred over the one of all users. `None` means that no directory
/// is known.
pub fn choose_start_menu(paths: &Vec<String>) -> (chosen: Option<usize>)
    ensures
        match chosen {
            Some(k) => is_chosen_start_menu(paths@, k as int),
            None => paths@.len() == 0,
        },
{
    let mut i: usize = 0;
    while i < paths.len()
        invariant
            i <= paths@.len(),
            forall|j: int| 0 <= j < i ==> !contains_text(#[trigger] paths@[j]@, "Local"@),
        decreases paths@.len() - i,
    {
        if contains(paths[i].as_str(), "Local") {
            return Some(i);
        }
        i = i + 1;
    }
    if paths.len() > 0 {
        Some(0)
    } else {
        None
    }
}

/// A shortcut of the application that was found in a start menu.
#[derive(Debug, Clone, PartialEq, Eq)]
pub struct InstalledShortcut {
    /// Path of the shortcut file.
    pub shortcut_path: String,
    /// The directory of the executable that the shortcut points to.
    pub target_dir: String,
    /// Whether that directory exists.
    pub target_dir_exists: bool,
}

/// One thing to delete when the previous installation is removed.
#[derive(Debug, Clone, PartialEq, Eq)]
pub enum Removal {
    /// Delete this directory with all that it holds.
    DirectoryTree(String),
    /// Delete this file.
    File(String),
}

/// A `Removal`, as mathematical values.
pub enum RemovalView {
    DirectoryTree(Seq<char>),
    File(Seq<char>),
}

impl View for Removal {
    type V = RemovalView;

    open spec fn view(&self) -> RemovalView {
        match self {
            Removal::DirectoryTree(path) => RemovalView::DirectoryTree(path@),
            Removal::File(path) => RemovalView::File(path@),
        }
    }
}

/// What is to be deleted, in order. With a shortcut: the directory it points
/// into, if that exists, then the shortcut itself, and the default directory
/// is left alone. Without one: the default directory.
pub open spec fn removal_plan_spec(
    shortcut: Option<InstalledShortcut>,
    default_dir: Option<String>,
) -> Seq<RemovalView> {
    match shortcut {
        Some(found) => if found.target_dir_exists {
            seq![
                RemovalView::DirectoryTree(found.target_dir@),
                RemovalView::File(found.shortcut_path@),
            ]
        } else {
            seq![RemovalView::File(found.shortcut_path@)]
        },
        None => match default_dir {
            Some(dir) => seq![RemovalView::DirectoryTree(dir@)],
            None => Seq::empty(),
        },
    }
}

/// Plans the removal of a previous installation.
///
/// `shortcut` is the application's shortcut, where one was found and could be
/// resolved. `default_dir` is the application's default install directory,
/// where it exists. An empty plan is no error: nothing was installed.
pub fn removal_plan(shortcut: Option<InstalledShortcut>, default_dir: Option<String>) -> (plan:
    Vec<Removal>)
    ensures
        plan@.len() == removal_plan_spec(shortcut, default_dir).len(),
        forall|i: int|
            0 <= i < plan@.len() ==> (#[trigger] plan@[i])@ == removal_plan_spec(
                shortcut,
                default_dir,
            )[i],
{
    let mut plan: Vec<Removal> = Vec::new();
    match shortcut {
        Some(found) => {
            if found.target_dir_exists {
                plan.push(Removal::DirectoryTree(found.target_dir));
            }
            plan.push(Removal::File(found.shortcut_path));
        },
        None => {
            if let Some(dir) = default_dir {
                plan.push(Removal::DirectoryTree(dir));
            }
        },
    }
    plan
}

/// The share of a copy that is done, in percent: 100 once everything is
/// copied, and for an empty file.
pub open spec fn percent_copied(bytes_copied: u64, file_size: u64) -> int {
    if file_size == 0 || bytes_copied >= file_size {
        100
    } else {
        bytes_copied * 100 / (file_size as int)
    }
}

/// Progress of a copy after `bytes_copied` of `file_size` bytes, from 0 to
/// 100, rounded down.
pub fn copy_progress(bytes_copied: u64, file_size: u64) -> (percent: u32)
    ensures
        percent == percent_copied(bytes_copied, file_size),
        percent <= 100,
{
    if file_size == 0 || bytes_copied >= file_size {
        return 100;
    }
    let scaled: u128 = bytes_copied as u128 * 100;
    let share: u128 = scaled / (file_size as u128);
    assert(share < 100) by (nonlinear_arith)
        requires
            share == (bytes_copied * 100) / (file_size as int),
            0 <= bytes_copied < file_size,
    ;
    share as u32
}

/// Where the progress bar stands for a progress in percent: a finished copy
/// empties the bar again.
pub open spec fn bar_position(progress: u32) -> u32 {
    if progress < 100 {
        progress
    } else {
        0
    }
}

/// The position to set the progress bar to.
pub fn update_progress(progress: u32) -> (position: u32)
    ensures
        position == bar_position(progress),
        position < 100,
{
    if progress < 100 {
        progress
    } else {
        0
    }
}

/// The name under which a running installer is moved out of the way: its
/// file name, a dot, the stamp of the moment, and `.old`.
pub open spec fn aside_name_spec(exe_name: Seq<char>, stamp: Seq<char>) -> Seq<char> {
    exe_name + "."@ + stamp + ".old"@
}

/// The file name is one that `aside_name` gives for this installer, with
/// some stamp.
pub open spec fn renamed_aside_spec(file_name: Seq<char>, exe_name: Seq<char>) -> bool {
    exists|stamp: Seq<char>| file_name == aside_name_spec(exe_name, stamp)
}

/// Names the file to which the running installer is renamed before a newer
/// one is unpacked in its place. Stamps that differ give names that differ,
/// so one self-update does not collide with the leftovers of another.
pub fn aside_name(exe_name: &str, stamp: &str) -> (name: String)
    ensures
        name@ == aside_name_spec(exe_name@, stamp@),
{
    String::from_str(exe_name).concat(".").concat(stamp).concat(".old")
}

/// Whether a file is an installer that an earlier self-update renamed out of
/// the way, and that may now be deleted.
pub fn is_renamed_aside(file_name: &str, exe_name: &str) -> (aside: bool)
    ensures
        aside == renamed_aside_spec(file_name@, exe_name@),
{
    let name = to_chars(file_name);
    let head = to_chars(String::from_str(exe_name).concat(".").as_str());
    let tail = to_chars(".old");
    proof {
        reveal_strlit(".");
        reveal_strlit(".old");
        assert(head@.len() == exe_name@.len() + 1);
        assert(tail@.len() == 4);
    }
    if name.len() < tail.len() || name.len() - tail.len() < head.len() {
        proof {
            assert forall|stamp: Seq<char>| file_name@ != aside_name_spec(exe_name@, stamp) by {
                assert(aside_name_spec(exe_name@, stamp).len() == head@.len() + stamp.len()
                    + tail@.len());
            }
        }
        return false;
    }
    let split: usize = name.len() - tail.len();
    let aside = matches_at(&name, &head, 0) && matches_at(&name, &tail, split);
    proof {
        if aside {
            let stamp = name@.subrange(head@.len() as int, split as int);
            assert(name@ =~= name@.subrange(0, head@.len() as int) + stamp + name@.subrange(
                split as int,
                name@.len() as int,
            ));
            assert(file_name@ == aside_name_spec(exe_name@, stamp));
        } else {
            assert forall|stamp: Seq<char>| file_name@ != aside_name_spec(exe_name@, stamp) by {
                let made = aside_name_spec(exe_name@, stamp);
                assert(made.len() == head@.len() + stamp.len() + tail@.len());
                if file_name@ == made {
                    assert(made.subrange(0, head@.len() as int) =~= head@);
                    assert(made.subrange(made.len() - 4, made.len() as int) =~= tail@);
                }
            }
        }
    }
    aside
}

/// The installer that was renamed aside is recognised again, whatever its
/// name and the stamp.
pub proof fn lemma_aside_name_is_recognised(exe_name: Seq<char>, stamp: Seq<char>)
    ensures
        renamed_aside_spec(aside_name_spec(exe_name, stamp), exe_name),
{
}

/// Two stamps that differ give two names that differ.
pub proof fn lemma_aside_names_do_not_collide(
    exe_name: Seq<char>,
    first: Seq<char>,
    second: Seq<char>,
)
    requires
        aside_name_spec(exe_name, first) == aside_name_spec(exe_name, second),
    ensures
        first == second,
{
    reveal_strlit(".");
    reveal_strlit(".old");
    let a = aside_name_spec(exe_name, first);
    let b = aside_name_spec(exe_name, second);
    let from: int = exe_name.len() as int + 1;
    assert(a.len() == from + first.len() + 4);
    assert(b.len() == from + second.len() + 4);
    assert(first =~= a.subrange(from, from + first.len()));
    assert(second =~= b.subrange(from, from + second.len()));
}

/// How much a log event matters.
#[derive(Debug, Clone, Copy, PartialEq, Eq, Structural)]
pub enum Severity {
    Info,
    /// Shown only when the run was started in debug mode.
    Debug,
    Error,
}

/// One line of the log.
#[derive(Debug, Clone, PartialEq, Eq)]
pub struct LogEvent {
    pub severity: Severity,
    pub message: String,
    /// When the event happened, as the caller's clock gave it.
    pub timestamp: u64,
}

/// The log of one run. Events are appended and never changed or removed.
#[derive(Debug)]
pub struct Log {
    events: Vec<LogEvent>,
    debug: bool,
}

/// Whether an event of this severity is kept by a log in this mode: all but
/// debug events outside debug mode.
pub open spec fn is_kept(severity: Severity, debug: bool) -> bool {
    severity != Severity::Debug || debug
}

impl Log {
    /// The events of the log, oldest first.
    pub closed spec fn events(&self) -> Seq<LogEvent> {
        self.events@
    }

    /// Whether the log keeps debug events.
    pub closed spec fn debug(&self) -> bool {
        self.debug
    }

    /// An empty log that keeps debug events only if `debug` is set.
    pub fn new(debug: bool) -> (log: Log)
        ensures
            log.events().len() == 0,
            log.debug() == debug,
    {
        Log { events: Vec::new(), debug }
    }

    /// Whether the log keeps debug events.
    pub fn debug_enabled(&self) -> (debug: bool)
        ensures
            debug == self.debug(),
    {
        self.debug
    }

    /// The number of events in the log.
    pub fn len(&self) -> (count: usize)
        ensures
            count == self.events().len(),
    {
        self.events.len()
    }

    /// The event at `index`, counted from the oldest.
    pub fn get(&self, index: usize) -> (event: Option<&LogEvent>)
        ensures
            match event {
                Some(e) => index < self.events().len() && *e == self.events()[index as int],
                None => index >= self.events().len(),
            },
    {
        if index < self.events.len() {
            Some(&self.events[index])
        } else {
            None
        }
    }
}

/// Appends an event to the log, unless it is a debug event and the log is not
/// in debug mode. Returns whether the event was kept. The log only grows:
/// what it held before is still there, unchanged and in its place.
pub fn add_message(log: &mut Log, severity: Severity, message: &str, timestamp: u64) -> (kept: bool)
    ensures
        kept == is_kept(severity, old(log).debug()),
        final(log).debug() == old(log).debug(),
        final(log).events().len() == old(log).events().len() + if kept {
            1int
        } else {
            0int
        },
        final(log).events().take(old(log).events().len() as int) == old(log).events(),
        kept ==> {
            &&& final(log).events().last().severity == severity
            &&& final(log).events().last().message@ == message@
            &&& final(log).events().last().timestamp == timestamp
        },
{
    if severity == Severity::Debug && !log.debug {
        assert(log.events@.take(log.events@.len() as int) =~= log.events@);
        return false;
    }
    let event = LogEvent { severity, message: String::from_str(message), timestamp };
    log.events.push(event);
    assert(log.events@.take(old(log).events@.len() as int) =~= old(log).events@);
    true
}

/// The name under which the installer itself is published. It cannot be
/// installed as an application.
pub const INSTALLER_NAME: &'static str = "AppInstaller";

/// What the command line asks for.
#[derive(Debug, Clone, PartialEq, Eq)]
pub struct Arguments {
    /// The application to install.
    pub app_name: String,
    /// Whether debug events are logged.
    pub debug: bool,
}

/// The argument is the flag that turns debug events on.
pub open spec fn is_debug_flag(arg: Seq<char>) -> bool {
    arg == "--debug"@
}

/// The flag stands among the arguments.
pub open spec fn wants_debug(args: Seq<String>) -> bool {
    exists|i: int| 0 <= i < args.len() && is_debug_flag(#[trigger] args[i]@)
}

/// The application that the arguments name: the last argument that is not
/// the flag.
pub open spec fn named_application(args: Seq<String>) -> Option<Seq<char>>
    decreases args.len(),
{
    if args.len() == 0 {
        None
    } else if !is_debug_flag(args.last()@) {
        Some(args.last()@)
    } else {
        named_application(args.drop_last())
    }
}

/// Reads the command line `<app_name> [--debug]`, given without the program's
/// own name. `None` means that no application is named, or that the
/// installer itself is.
pub fn parse_arguments(args: &Vec<String>) -> (parsed: Option<Arguments>)
    ensures
        match parsed {
            Some(arguments) => {
                &&& named_application(args@) == Some(arguments.app_name@)
                &&& arguments.app_name@ != INSTALLER_NAME@
                &&& arguments.debug == wants_debug(args@)
            },
            None => named_application(args@) is None || named_application(args@) == Some(
                INSTALLER_NAME@,
            ),
        },
{
    let flag = String::from_str("--debug");
    let mut debug = false;
    let mut named: Option<usize> = None;
    let mut i: usize = 0;
    while i < args.len()
        invariant
            i <= args@.len(),
            flag@ == "--debug"@,
            debug == wants_debug(args@.take(i as int)),
            match named {
                Some(k) => k < i && named_application(args@.take(i as int)) == Some(args@[k as int]@),
                None => named_application(args@.take(i as int)) is None,
            },
        decreases args@.len() - i,
    {
        proof {
            let before = args@.take(i as int);
            let now = args@.take(i + 1);
            assert(now.drop_last() =~= before);
            assert(now.last() == args@[i as int]);
            if wants_debug(before) {
                let k = choose|k: int| 0 <= k < before.len() && is_debug_flag(#[trigger] before[k]@);
                assert(is_debug_flag(now[k]@));
            }
            if wants_debug(now) && !is_debug_flag(args@[i as int]@) {
                let k = choose|k: int| 0 <= k < now.len() && is_debug_flag(#[trigger] now[k]@);
                assert(is_debug_flag(before[k]@));
            }
        }
        if args[i] == flag {
            debug = true;
        } else {
            named = Some(i);
        }
        i = i + 1;
    }
    proof {
        assert(args@.take(args@.len() as int) =~= args@);
    }
    match named {
        Some(k) => {
            let app_name = args[k].clone();
            if app_name == String::from_str(INSTALLER_NAME) {
                None
            } else {
                Some(Arguments { app_name, debug })
            }
        },
        None => None,
    }
}

} // verus!
