//! The file-browser screen: a two-mode state machine over an editable path,
//! a directory listing, and an arm-then-confirm guard around deletion.
//!
//! The filesystem itself is an external collaborator.  Applying a message
//! never touches a disk: [`FileTreeApp::update`] returns an [`FsAction`]
//! that tells the front end which single filesystem call to perform, and
//! the outcome comes back through [`FileTreeApp::apply_dir_listing`] (a
//! successful directory read) or [`FileTreeApp::reload_request`] (the
//! reload owed after a create or delete attempt).  A failed read calls
//! nothing back, which leaves `entries` and `open_path` exactly as they
//! were.
//!
//! The input line is kept as a vector of Unicode codepoints, so insertion
//! and deletion are codepoint-indexed and can never split a multi-byte
//! character.

use vstd::prelude::*;
use vstd::string::StringExecFns;
use crate::app::{AppInfo, AppInfoView, AppMessage, Key};
use crate::textbuf::{dec_spec, push_all, push_u64_dec};

verus! {

/// What kind of entry a directory listing row is.
#[derive(Clone, Copy, PartialEq, Eq, Structural, Debug)]
pub enum FileKind {
    File,
    Dir,
    Symlink,
    Other,
}

/// The metadata the browser reads of one entry: kind, byte length, and the
/// 9-bit POSIX permission triplets (owner/group/other, each r/w/x).
#[derive(Clone, Copy, PartialEq, Eq, Structural, Debug)]
pub struct FileMeta {
    pub kind: FileKind,
    pub len: u64,
    pub mode: u32,
}

/// One row of the directory listing: a path and its metadata.
pub struct FsEntry {
    pub path: Vec<char>,
    pub meta: FileMeta,
}

/// Abstract value of an [`FsEntry`].
#[verifier::ext_equal]
pub ghost struct FsEntryView {
    pub path: Seq<char>,
    pub meta: FileMeta,
}

impl View for FsEntry {
    type V = FsEntryView;

    open spec fn view(&self) -> FsEntryView {
        FsEntryView { path: self.path@, meta: self.meta }
    }
}

/// The messages the file browser understands.
pub enum FileTreeMsg {
    TextEntered(char),
    OpenPath,
    CursorLeft,
    CursorRight,
    CursorDown,
    CursorUp,
    DeleteChar,
    CreateFile,
    DeleteFile,
    Confirm,
    Cancel,
    NoneMsg,
}

impl AppMessage for FileTreeMsg {

}

/// The pending destructive action, armed in Modify mode and resolved by
/// confirm or cancel.  The index refers to the current `entries`.
#[derive(Clone, Copy, PartialEq, Eq, Structural, Debug)]
pub enum ConfirmAction {
    Delete(usize),
    Rename(usize),
    Inactive,
}

/// Which of the two input states the browser is in: editing the path to
/// open (`Search`) or acting on the opened listing (`Modify`).
#[derive(Clone, Copy, PartialEq, Eq, Structural, Debug)]
pub enum InputMode {
    Search,
    Modify,
}

/// The one filesystem call the front end owes after a message, if any.
pub enum FsAction {
    /// No filesystem work.
    Pass,
    /// Read the directory at the path; on success feed the listing back
    /// through [`FileTreeApp::apply_dir_listing`], on failure log and
    /// change nothing.
    ReadDir(Vec<char>),
    /// Create an empty file at the path; on success ask
    /// [`FileTreeApp::reload_request`] for the follow-up read.
    CreateFile(Vec<char>),
    /// Remove the file at the path; afterwards, success or not, ask
    /// [`FileTreeApp::reload_request`] for the follow-up read.
    DeleteFile(Vec<char>),
    /// A delete was confirmed on a directory: deliberately not executed,
    /// only logged.
    RefuseDirDelete(Vec<char>),
}

/// Abstract value of an [`FsAction`].
#[verifier::ext_equal]
pub ghost enum FsActionView {
    Pass,
    ReadDir(Seq<char>),
    CreateFile(Seq<char>),
    DeleteFile(Seq<char>),
    RefuseDirDelete(Seq<char>),
}

impl View for FsAction {
    type V = FsActionView;

    open spec fn view(&self) -> FsActionView {
        match self {
            FsAction::Pass => FsActionView::Pass,
            FsAction::ReadDir(p) => FsActionView::ReadDir(p@),
            FsAction::CreateFile(p) => FsActionView::CreateFile(p@),
            FsAction::DeleteFile(p) => FsActionView::DeleteFile(p@),
            FsAction::RefuseDirDelete(p) => FsActionView::RefuseDirDelete(p@),
        }
    }
}

/// The file-browser screen's state.
pub struct FileTreeApp {
    pub info: AppInfo,
    pub input: Vec<char>,
    pub character_index: usize,
    pub open_path: Vec<char>,
    pub entries: Vec<FsEntry>,
    pub input_mode: InputMode,
    pub listing_selection: usize,
    pub confirm_action: ConfirmAction,
}

/// Abstract value of a [`FileTreeApp`].
#[verifier::ext_equal]
pub ghost struct FileTreeView {
    pub info: AppInfoView,
    pub input: Seq<char>,
    pub cursor: int,
    pub open_path: Seq<char>,
    pub entries: Seq<FsEntryView>,
    pub mode: InputMode,
    pub listing_selection: int,
    pub confirm_action: ConfirmAction,
}

impl View for FileTreeApp {
    type V = FileTreeView;

    open spec fn view(&self) -> FileTreeView {
        FileTreeView {
            info: self.info@,
            input: self.input@,
            cursor: self.character_index as int,
            open_path: self.open_path@,
            entries: self.entries@.map_values(|e: FsEntry| e@),
            mode: self.input_mode,
            listing_selection: self.listing_selection as int,
            confirm_action: self.confirm_action,
        }
    }
}

impl FileTreeView {
    /// The invariants the browser maintains after every message:
    /// the cursor stays inside `[0, codepoint-count(input)]`, the listing
    /// selection stays inside the listing (and at `0` when the listing is
    /// empty), and a pending confirm action always references a currently
    /// valid entry.
    pub open spec fn wf(self) -> bool {
        &&& 0 <= self.cursor <= self.input.len()
        &&& if self.entries.len() == 0 {
            self.listing_selection == 0
        } else {
            0 <= self.listing_selection < self.entries.len()
        }
        &&& match self.confirm_action {
            ConfirmAction::Delete(i) => i < self.entries.len(),
            ConfirmAction::Rename(i) => i < self.entries.len(),
            ConfirmAction::Inactive => true,
        }
    }
}

/// One step of the file-browser state machine: the state after applying
/// `msg` to `s`, and the filesystem call the front end owes for it.
///
/// Editing applies only in Search mode; the listing is re-read after an
/// edit exactly when the edit changed the input (an in-range insert always
/// does, a delete with the cursor leftmost does not).  Cursor moves clamp
/// to `[0, input.len()]`; listing moves stop at the listing's ends (the
/// listing deliberately does not wrap, unlike the selection-list
/// primitive).  Arming a delete on an empty listing is a no-op.  Confirm
/// clears the pending action whatever happens, and only a plain file is
/// actually deleted: a directory target is refused, a symlink or other
/// target is dropped silently.
pub open spec fn step(s: FileTreeView, msg: FileTreeMsg) -> (FileTreeView, FsActionView) {
    match msg {
        FileTreeMsg::OpenPath => (
            (FileTreeView {
                mode: if s.mode == InputMode::Search {
                    InputMode::Modify
                } else {
                    InputMode::Search
                },
                ..s
            }),
            FsActionView::Pass,
        ),
        FileTreeMsg::TextEntered(c) => {
            if s.mode == InputMode::Search {
                let input2 = s.input.insert(s.cursor, c);
                ((FileTreeView { input: input2, cursor: s.cursor + 1, ..s }),
                FsActionView::ReadDir(input2))
            } else {
                (s, FsActionView::Pass)
            }
        },
        FileTreeMsg::CursorLeft => (
            (FileTreeView { cursor: if s.cursor > 0 { s.cursor - 1 } else { 0 }, ..s }),
            FsActionView::Pass,
        ),
        FileTreeMsg::CursorRight => (
            (FileTreeView {
                cursor: if s.cursor < s.input.len() { s.cursor + 1 } else { s.input.len() as int },
                ..s
            }),
            FsActionView::Pass,
        ),
        FileTreeMsg::CursorDown => (
            (FileTreeView {
                listing_selection: if s.listing_selection + 1 < s.entries.len() {
                    s.listing_selection + 1
                } else {
                    s.listing_selection
                },
                ..s
            }),
            FsActionView::Pass,
        ),
        FileTreeMsg::CursorUp => (
            (FileTreeView {
                listing_selection: if s.listing_selection > 0 {
                    s.listing_selection - 1
                } else {
                    0
                },
                ..s
            }),
            FsActionView::Pass,
        ),
        FileTreeMsg::DeleteChar => {
            if s.cursor != 0 {
                let input2 = s.input.remove(s.cursor - 1);
                ((FileTreeView { input: input2, cursor: s.cursor - 1, ..s }),
                FsActionView::ReadDir(input2))
            } else {
                (s, FsActionView::Pass)
            }
        },
        FileTreeMsg::CreateFile => (s, FsActionView::CreateFile(s.input)),
        FileTreeMsg::DeleteFile => (
            (FileTreeView {
                confirm_action: if s.entries.len() > 0 {
                    ConfirmAction::Delete(s.listing_selection as usize)
                } else {
                    s.confirm_action
                },
                ..s
            }),
            FsActionView::Pass,
        ),
        FileTreeMsg::Confirm => {
            let cleared = FileTreeView { confirm_action: ConfirmAction::Inactive, ..s };
            match s.confirm_action {
                ConfirmAction::Delete(i) => {
                    if i < s.entries.len() {
                        if s.entries[i as int].meta.kind == FileKind::Dir {
                            (cleared, FsActionView::RefuseDirDelete(s.entries[i as int].path))
                        } else if s.entries[i as int].meta.kind == FileKind::File {
                            (cleared, FsActionView::DeleteFile(s.entries[i as int].path))
                        } else {
                            (cleared, FsActionView::Pass)
                        }
                    } else {
                        (cleared, FsActionView::Pass)
                    }
                },
                _ => (cleared, FsActionView::Pass),
            }
        },
        FileTreeMsg::Cancel => (
            (FileTreeView { confirm_action: ConfirmAction::Inactive, ..s }),
            FsActionView::Pass,
        ),
        FileTreeMsg::NoneMsg => (s, FsActionView::Pass),
    }
}

/// The state after a successful directory read: the listing is replaced
/// wholesale, the open path becomes the path that was read, the pending
/// confirm action is cleared (its index would reference the old listing),
/// and the listing selection is clamped into the new listing.
pub open spec fn dir_loaded(s: FileTreeView, path: Seq<char>, es: Seq<FsEntryView>) -> FileTreeView {
    FileTreeView {
        open_path: path,
        entries: es,
        confirm_action: ConfirmAction::Inactive,
        listing_selection: if es.len() == 0 {
            0
        } else if s.listing_selection < es.len() {
            s.listing_selection
        } else {
            es.len() - 1
        },
        ..s
    }
}

impl FileTreeApp {
    /// A fresh browser: Search mode, empty input, the root path open but
    /// nothing listed yet.
    pub fn new() -> (r: FileTreeApp)
        ensures
            r@.wf(),
            r.info@.title == "File Tree"@,
            r.info@.version == "v1.0"@,
            r@.input == Seq::<char>::empty(),
            r@.cursor == 0,
            r@.open_path == seq!['/'],
            r@.entries == Seq::<FsEntryView>::empty(),
            r@.mode == InputMode::Search,
            r@.listing_selection == 0,
            r@.confirm_action == ConfirmAction::Inactive,
    {
        let mut root: Vec<char> = Vec::new();
        root.push('/');
        let main_app = FileTreeApp {
            info: AppInfo {
                title: String::from_str("File Tree"),
                version: String::from_str("v1.0"),
            },
            input: Vec::new(),
            open_path: root,
            character_index: 0,
            entries: Vec::new(),
            input_mode: InputMode::Search,
            listing_selection: 0,
            confirm_action: ConfirmAction::Inactive,
        };
        proof {
            assert(main_app@.entries =~= Seq::<FsEntryView>::empty());
        }
        return main_app;
    }

    /// Apply one message and hand back the filesystem call it asks for.
    /// A message irrelevant to the current state is a safe no-op.
    pub fn update(&mut self, msg: &FileTreeMsg) -> (act: FsAction)
        requires
            old(self)@.wf(),
        ensures
            final(self)@ == step(old(self)@, *msg).0,
            act@ == step(old(self)@, *msg).1,
            final(self)@.wf(),
    {
        match msg {
            FileTreeMsg::OpenPath => {
                match self.input_mode {
                    InputMode::Search => self.input_mode = InputMode::Modify,
                    InputMode::Modify => self.input_mode = InputMode::Search,
                }
                FsAction::Pass
            },
            FileTreeMsg::TextEntered(to_insert) => {
                match self.input_mode {
                    InputMode::Search => {
                        self.enter_char(*to_insert);
                        FsAction::ReadDir(clone_chars(&self.input))
                    },
                    InputMode::Modify => FsAction::Pass,
                }
            },
            FileTreeMsg::CursorLeft => {
                self.move_cursor_left();
                FsAction::Pass
            },
            FileTreeMsg::CursorRight => {
                self.move_cursor_right();
                FsAction::Pass
            },
            FileTreeMsg::CursorDown => {
                if self.entries.len() > 0 && self.listing_selection < self.entries.len() - 1 {
                    self.listing_selection = self.listing_selection + 1;
                }
                FsAction::Pass
            },
            FileTreeMsg::CursorUp => {
                if self.listing_selection > 0 {
                    self.listing_selection = self.listing_selection - 1;
                }
                FsAction::Pass
            },
            FileTreeMsg::DeleteChar => {
                if self.character_index != 0 {
                    self.delete_char();
                    FsAction::ReadDir(clone_chars(&self.input))
                } else {
                    FsAction::Pass
                }
            },
            FileTreeMsg::CreateFile => FsAction::CreateFile(clone_chars(&self.input)),
            FileTreeMsg::DeleteFile => {
                if self.entries.len() > 0 {
                    self.confirm_action = ConfirmAction::Delete(self.listing_selection);
                }
                FsAction::Pass
            },
            FileTreeMsg::Confirm => {
                let pending = self.confirm_action;
                self.confirm_action = ConfirmAction::Inactive;
                match pending {
                    ConfirmAction::Delete(index) => {
                        if index < self.entries.len() {
                            match self.entries[index].meta.kind {
                                FileKind::Dir => FsAction::RefuseDirDelete(
                                    clone_chars(&self.entries[index].path),
                                ),
                                FileKind::File => FsAction::DeleteFile(
                                    clone_chars(&self.entries[index].path),
                                ),
                                _ => FsAction::Pass,
                            }
                        } else {
                            FsAction::Pass
                        }
                    },
                    _ => FsAction::Pass,
                }
            },
            FileTreeMsg::Cancel => {
                self.cancel_action();
                FsAction::Pass
            },
            FileTreeMsg::NoneMsg => FsAction::Pass,
        }
    }

    /// The menu label of this screen.
    pub fn info(&self) -> (r: AppInfo)
        ensures
            r == self.info,
    {
        self.info.duplicate()
    }

    /// Translate one key press into one message for the current mode.
    /// Unrecognized keys map to `NoneMsg`, a documented no-op.
    pub fn generate_msg(&self, key_event: Key) -> (r: Option<FileTreeMsg>)
        ensures
            r == Some(key_to_msg(self@.mode, key_event)),
    {
        match self.input_mode {
            InputMode::Search => match key_event {
                Key::Enter => Some(FileTreeMsg::OpenPath),
                Key::Char(' ') => Some(FileTreeMsg::CreateFile),
                Key::Char(to_insert) => Some(FileTreeMsg::TextEntered(to_insert)),
                Key::Backspace => Some(FileTreeMsg::DeleteChar),
                Key::Left => Some(FileTreeMsg::CursorLeft),
                Key::Right => Some(FileTreeMsg::CursorRight),
                _ => Some(FileTreeMsg::NoneMsg),
            },
            InputMode::Modify => match key_event {
                Key::Backspace => Some(FileTreeMsg::OpenPath),
                Key::Char('j') => Some(FileTreeMsg::CursorDown),
                Key::Char('k') => Some(FileTreeMsg::CursorUp),
                Key::Char('d') => Some(FileTreeMsg::DeleteFile),
                Key::Char('y') | Key::Char('Y') => Some(FileTreeMsg::Confirm),
                Key::Char('n') | Key::Char('N') => Some(FileTreeMsg::Cancel),
                _ => Some(FileTreeMsg::NoneMsg),
            },
        }
    }

    /// Feed back a successful directory read: `entries` is replaced
    /// wholesale and `open_path` becomes the path that was read.  A failed
    /// read must not call this — leaving the state untouched is exactly
    /// the required failure behaviour.
    pub fn apply_dir_listing(&mut self, path: Vec<char>, entries: Vec<FsEntry>)
        requires
            old(self)@.wf(),
        ensures
            final(self)@ == dir_loaded(old(self)@, path@, entries@.map_values(|e: FsEntry| e@)),
            final(self)@.wf(),
    {
        self.open_path = path;
        if entries.len() == 0 {
            self.listing_selection = 0;
        } else if self.listing_selection >= entries.len() {
            self.listing_selection = entries.len() - 1;
        }
        self.entries = entries;
        self.confirm_action = ConfirmAction::Inactive;
    }

    /// The follow-up read owed after a successful file creation or after a
    /// delete attempt: re-read the currently open path.
    pub fn reload_request(&self) -> (act: FsAction)
        ensures
            act@ == FsActionView::ReadDir(self@.open_path),
    {
        FsAction::ReadDir(clone_chars(&self.open_path))
    }

    fn move_cursor_left(&mut self)
        requires
            old(self)@.wf(),
        ensures
            final(self)@ == (FileTreeView {
                cursor: if old(self)@.cursor > 0 { old(self)@.cursor - 1 } else { 0 },
                ..old(self)@
            }),
    {
        if self.character_index > 0 {
            self.character_index = self.character_index - 1;
        }
    }

    fn move_cursor_right(&mut self)
        requires
            old(self)@.wf(),
        ensures
            final(self)@ == (FileTreeView {
                cursor: if old(self)@.cursor < old(self)@.input.len() {
                    old(self)@.cursor + 1
                } else {
                    old(self)@.input.len() as int
                },
                ..old(self)@
            }),
    {
        if self.character_index < self.input.len() {
            self.character_index = self.character_index + 1;
        }
    }

    fn enter_char(&mut self, new_char: char)
        requires
            old(self)@.wf(),
        ensures
            final(self)@ == (FileTreeView {
                input: old(self)@.input.insert(old(self)@.cursor, new_char),
                cursor: old(self)@.cursor + 1,
                ..old(self)@
            }),
    {
        self.input.insert(self.character_index, new_char);
        proof {
            assert(self.input.len() == self.input@.len());
        }
        self.character_index = self.character_index + 1;
    }

    fn delete_char(&mut self)
        requires
            old(self)@.wf(),
            old(self)@.cursor > 0,
        ensures
            final(self)@ == (FileTreeView {
                input: old(self)@.input.remove(old(self)@.cursor - 1),
                cursor: old(self)@.cursor - 1,
                ..old(self)@
            }),
    {
        self.input.remove(self.character_index - 1);
        self.character_index = self.character_index - 1;
    }

    fn cancel_action(&mut self)
        ensures
            final(self)@ == (FileTreeView {
                confirm_action: ConfirmAction::Inactive,
                ..old(self)@
            }),
    {
        self.confirm_action = ConfirmAction::Inactive;
    }
}

/// Key-to-message table of the file browser, per mode.
pub open spec fn key_to_msg(mode: InputMode, key: Key) -> FileTreeMsg {
    if mode == InputMode::Search {
        match key {
            Key::Enter => FileTreeMsg::OpenPath,
            Key::Char(c) => if c == ' ' {
                FileTreeMsg::CreateFile
            } else {
                FileTreeMsg::TextEntered(c)
            },
            Key::Backspace => FileTreeMsg::DeleteChar,
            Key::Left => FileTreeMsg::CursorLeft,
            Key::Right => FileTreeMsg::CursorRight,
            _ => FileTreeMsg::NoneMsg,
        }
    } else {
        match key {
            Key::Backspace => FileTreeMsg::OpenPath,
            Key::Char(c) => if c == 'j' {
                FileTreeMsg::CursorDown
            } else if c == 'k' {
                FileTreeMsg::CursorUp
            } else if c == 'd' {
                FileTreeMsg::DeleteFile
            } else if c == 'y' || c == 'Y' {
                FileTreeMsg::Confirm
            } else if c == 'n' || c == 'N' {
                FileTreeMsg::Cancel
            } else {
                FileTreeMsg::NoneMsg
            },
            _ => FileTreeMsg::NoneMsg,
        }
    }
}

/// One r/w/x triplet of a permission digit (the low three bits).
pub open spec fn triplet_spec(bits: u32) -> Seq<char> {
    seq![
        if bits & 4 != 0 {
            'r'
        } else {
            '-'
        },
        if bits & 2 != 0 {
            'w'
        } else {
            '-'
        },
        if bits & 1 != 0 {
            'x'
        } else {
            '-'
        },
    ]
}

/// The nine-character rendering of the owner/group/other permission
/// triplets of a mode word.
pub open spec fn perm_spec(mode: u32) -> Seq<char> {
    triplet_spec((mode >> 6) & 7) + triplet_spec((mode >> 3) & 7) + triplet_spec(mode & 7)
}

/// The icon glyph for an entry kind; entries of no known kind get none.
pub open spec fn icon_spec(kind: FileKind) -> Seq<char> {
    match kind {
        FileKind::File => seq!['\u{f15c}'],
        FileKind::Dir => seq!['\u{e5fe}'],
        FileKind::Symlink => seq!['\u{f0337}'],
        FileKind::Other => Seq::<char>::empty(),
    }
}

/// One listing row: index, path, kind icon, permissions, and size in
/// whole kibibytes, separated by `" | "`.
pub open spec fn dir_line_spec(num: int, path: Seq<char>, meta: FileMeta) -> Seq<char> {
    dec_spec(num) + seq![':', ' '] + path + seq![' ', '|', ' '] + icon_spec(meta.kind) + seq![
        ' ',
        '|',
        ' ',
    ] + perm_spec(meta.mode) + seq![' ', '|', ' '] + dec_spec((meta.len / 1024) as int) + seq![
        'K',
        'B',
    ]
}

fn push_triplet(v: &mut Vec<char>, bits: u32)
    ensures
        final(v)@ == old(v)@ + triplet_spec(bits),
{
    if bits & 4 != 0 {
        v.push('r');
    } else {
        v.push('-');
    }
    if bits & 2 != 0 {
        v.push('w');
    } else {
        v.push('-');
    }
    if bits & 1 != 0 {
        v.push('x');
    } else {
        v.push('-');
    }
    assert(v@ =~= old(v)@ + triplet_spec(bits));
}

fn push_sep(v: &mut Vec<char>)
    ensures
        final(v)@ == old(v)@ + seq![' ', '|', ' '],
{
    v.push(' ');
    v.push('|');
    v.push(' ');
    assert(v@ =~= old(v)@ + seq![' ', '|', ' ']);
}

impl FileTreeApp {
    /// Render one listing row for display: entry number, path, kind icon,
    /// the nine permission characters, and the byte length in whole
    /// kibibytes.
    pub fn format_dir_data(&self, num: usize, path: &Vec<char>, metadata: &FileMeta) -> (r: Vec<
        char,
    >)
        ensures
            r@ == dir_line_spec(num as int, path@, *metadata),
    {
        let mut r: Vec<char> = Vec::new();
        push_u64_dec(&mut r, num as u64);
        r.push(':');
        r.push(' ');
        push_all(&mut r, path);
        push_sep(&mut r);
        match metadata.kind {
            FileKind::File => r.push('\u{f15c}'),
            FileKind::Dir => r.push('\u{e5fe}'),
            FileKind::Symlink => r.push('\u{f0337}'),
            FileKind::Other => (),
        }
        push_sep(&mut r);
        let mode = metadata.mode;
        push_triplet(&mut r, (mode >> 6) & 7);
        push_triplet(&mut r, (mode >> 3) & 7);
        push_triplet(&mut r, mode & 7);
        push_sep(&mut r);
        push_u64_dec(&mut r, metadata.len / 1024);
        r.push('K');
        r.push('B');
        assert(r@ =~= dir_line_spec(num as int, path@, *metadata));
        r
    }
}

/// The state after a whole sequence of messages, applied in arrival order.
pub open spec fn run_msgs(s: FileTreeView, msgs: Seq<FileTreeMsg>) -> FileTreeView
    decreases msgs.len(),
{
    if msgs.len() == 0 {
        s
    } else {
        run_msgs(step(s, msgs[0]).0, msgs.drop_first())
    }
}

/// One message keeps the browser's invariants.
pub proof fn lemma_step_preserves_wf(s: FileTreeView, msg: FileTreeMsg)
    requires
        s.wf(),
    ensures
        step(s, msg).0.wf(),
{
}

/// Clamp law: after every step of any sequence of messages — cursor moves
/// included — the cursor stays inside `[0, codepoint-count(input)]`.
pub proof fn lemma_cursor_always_in_range(s: FileTreeView, msgs: Seq<FileTreeMsg>)
    requires
        s.wf(),
    ensures
        run_msgs(s, msgs).wf(),
        0 <= run_msgs(s, msgs).cursor <= run_msgs(s, msgs).input.len(),
    decreases msgs.len(),
{
    if msgs.len() > 0 {
        lemma_step_preserves_wf(s, msgs[0]);
        lemma_cursor_always_in_range(step(s, msgs[0]).0, msgs.drop_first());
    }
}

/// Insert-then-read round trip: in Search mode, inserting the codepoint
/// `c` stores exactly `c` at the cursor and keeps every existing
/// codepoint intact — multi-byte characters are whole codepoints here, so
/// no insertion can split one.
pub proof fn lemma_insert_round_trip(s: FileTreeView, c: char)
    requires
        s.wf(),
        s.mode == InputMode::Search,
    ensures
        ({
            let t = step(s, FileTreeMsg::TextEntered(c)).0;
            &&& t.input.len() == s.input.len() + 1
            &&& t.input[s.cursor] == c
            &&& forall|i: int| 0 <= i < s.cursor ==> t.input[i] == s.input[i]
            &&& forall|i: int| s.cursor <= i < s.input.len() ==> t.input[i + 1] == s.input[i]
        }),
{
}

/// An equal copy of a codepoint buffer.
fn clone_chars(v: &Vec<char>) -> (r: Vec<char>)
    ensures
        r@ == v@,
{
    let mut r: Vec<char> = Vec::new();
    let mut i: usize = 0;
    while i < v.len()
        invariant
            i <= v.len(),
            r@ == v@.subrange(0, i as int),
        decreases v.len() - i,
    {
        r.push(v[i]);
        i = i + 1;
        assert(r@ =~= v@.subrange(0, i as int));
    }
    assert(r@ =~= v@);
    r
}

} // verus!
