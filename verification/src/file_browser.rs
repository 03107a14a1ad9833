//! The file browser: a cursor over the listing of one directory, from which
//! the user goes up, goes down, or picks a file.
//!
//! The browser keeps the listing it was given and never asks the filesystem.
//! A transition that changes the directory empties the listing and returns
//! [`Request::ReadDirectory`]; the caller lists the new directory and hands the
//! names to [`FileBrowser::load_file_list`].

use vstd::prelude::*;
use crate::key::Key;
use crate::path::{
    is_plain_name, is_root, is_root_path, is_tidy, join, join_path, lemma_parent_of_join, parent,
    parent_of, slash_join, slash_joined, trimmed_len,
};
use crate::request::Request;

verus! {

/// The entry that stands for the parent directory, written `..`.
pub open spec fn parent_marker() -> Seq<char> {
    seq!['.', '.']
}

/// The entries shown for `dir`, given the names that its listing produced: the
/// parent marker comes first, unless `dir` is the root.
pub open spec fn listing(dir: Seq<char>, names: Seq<Seq<char>>) -> Seq<Seq<char>> {
    if is_root(dir) {
        names
    } else {
        seq![parent_marker()] + names
    }
}

/// The cursor after one step down a list of `len` entries: past the last entry
/// it returns to the first.
pub open spec fn cursor_down(cursor: int, len: int) -> int {
    if len <= 0 {
        cursor
    } else if cursor + 1 >= len {
        0
    } else {
        cursor + 1
    }
}

/// The cursor after one step up a list of `len` entries: before the first
/// entry it goes to the last.
pub open spec fn cursor_up(cursor: int, len: int) -> int {
    if len <= 0 {
        cursor
    } else if cursor <= 0 {
        len - 1
    } else {
        cursor - 1
    }
}

/// A name as the listing shows it: a directory is followed by a separator,
/// the parent marker and a file stand as they are.
pub open spec fn shown_name(name: Seq<char>, is_dir: bool) -> Seq<char> {
    if name != parent_marker() && is_dir {
        name + seq!['/']
    } else {
        name
    }
}

/// Mathematical model of a [`FileBrowser`].
pub ghost struct Browser {
    /// Whether the browser is shown.
    pub is_open: bool,
    /// The directory whose listing is shown.
    pub dir: Seq<char>,
    /// Index of the entry under the cursor.
    pub cursor: int,
    /// The entries of the listing, the parent marker included.
    pub entries: Seq<Seq<char>>,
    /// Name of the file picked last, if any.
    pub selected: Option<Seq<char>>,
    /// Whether the user is being asked to confirm the pick.
    pub prompt: bool,
}

impl Browser {
    /// The cursor points at an entry whenever there is one.
    pub open spec fn wf(self) -> bool {
        0 <= self.cursor && (self.entries.len() > 0 ==> self.cursor < self.entries.len())
    }

    /// The entry under the cursor.
    pub open spec fn entry_at_cursor(self) -> Option<Seq<char>> {
        if 0 <= self.cursor < self.entries.len() {
            Some(self.entries[self.cursor])
        } else {
            None
        }
    }

    /// The picked file as a path: the current directory, a separator and the
    /// file's name.
    pub open spec fn selected_path(self) -> Option<Seq<char>> {
        match self.selected {
            Some(name) => Some(slash_joined(self.dir, name)),
            None => None,
        }
    }

    /// The line that tells the user which file is picked.
    pub open spec fn selection_text(self) -> Seq<char> {
        match self.selected_path() {
            Some(path) => "Selected file: "@ + path,
            None => "Info Bar: No file selected"@,
        }
    }

    /// Shown becomes hidden and hidden becomes shown. A browser that opens
    /// starts at the top of a listing that is yet to be read.
    pub open spec fn toggle(self) -> Browser {
        if self.is_open {
            Browser { is_open: false, ..self }
        } else {
            Browser { is_open: true, cursor: 0, entries: Seq::empty(), ..self }
        }
    }

    /// The listing of the current directory replaces the entries, and the
    /// cursor returns to the top.
    pub open spec fn load(self, names: Seq<Seq<char>>) -> Browser {
        Browser { cursor: 0, entries: listing(self.dir, names), ..self }
    }

    /// The cursor moves one entry down.
    pub open spec fn move_down(self) -> Browser {
        Browser { cursor: cursor_down(self.cursor, self.entries.len() as int), ..self }
    }

    /// The cursor moves `steps` entries down, one at a time.
    pub open spec fn move_down_by(self, steps: nat) -> Browser
        decreases steps,
    {
        if steps == 0 {
            self
        } else {
            self.move_down_by((steps - 1) as nat).move_down()
        }
    }

    /// The cursor moves one entry up.
    pub open spec fn move_up(self) -> Browser {
        Browser { cursor: cursor_up(self.cursor, self.entries.len() as int), ..self }
    }

    /// The browser enters `dir`, whose listing is yet to be read.
    pub open spec fn enter(self, dir: Seq<char>) -> Browser {
        Browser { dir, cursor: 0, entries: Seq::empty(), ..self }
    }

    /// The browser goes to the parent of its directory, or stays where there
    /// is none.
    pub open spec fn ascend(self) -> Browser {
        match parent(self.dir) {
            Some(up) => self.enter(up),
            None => self,
        }
    }

    /// The file `name` is picked and awaits confirmation.
    pub open spec fn pick(self, name: Seq<char>) -> Browser {
        Browser { selected: Some(name), prompt: true, ..self }
    }

    /// The entry under the cursor is activated: the parent marker leads up, a
    /// directory is entered, a file is picked. `is_dir` says whether that
    /// entry names a directory right now.
    pub open spec fn activate(self, is_dir: bool) -> Browser {
        match self.entry_at_cursor() {
            None => self,
            Some(name) => if name == parent_marker() {
                self.ascend()
            } else if is_dir {
                self.enter(join(self.dir, name))
            } else {
                self.pick(name)
            },
        }
    }

    /// The request for confirmation is withdrawn; the pick stays.
    pub open spec fn dismiss(self) -> Browser {
        Browser { prompt: false, ..self }
    }

    /// The state after `key`.
    pub open spec fn press(self, key: Key, is_dir: bool) -> Browser {
        match key {
            Key::Down => self.move_down(),
            Key::Up => self.move_up(),
            Key::Enter => self.activate(is_dir),
            Key::Esc => self.dismiss(),
            Key::Char(_) => self.dismiss(),
            Key::Other => self,
        }
    }

    /// What going up leaves to the caller: to read the listing, where there
    /// was a parent to go to.
    pub open spec fn ascend_request(self) -> Request {
        if parent(self.dir) is Some {
            Request::ReadDirectory
        } else {
            Request::Nothing
        }
    }

    /// What activating the entry under the cursor leaves to the caller: to
    /// read the listing, where the browser has entered a directory.
    pub open spec fn activate_request(self, is_dir: bool) -> Request {
        match self.entry_at_cursor() {
            None => Request::Nothing,
            Some(name) => if name == parent_marker() {
                self.ascend_request()
            } else if is_dir {
                Request::ReadDirectory
            } else {
                Request::Nothing
            },
        }
    }

    /// What `key` leaves to the caller.
    pub open spec fn press_request(self, key: Key, is_dir: bool) -> Request {
        match key {
            Key::Enter => self.activate_request(is_dir),
            _ => Request::Nothing,
        }
    }
}

/// The browser's state.
pub struct FileBrowser {
    pub is_open: bool,
    pub current_directory: String,
    pub selected_index: usize,
    pub file_list: Vec<String>,
    pub selected_file: Option<String>,
    pub prompt_user: bool,
}

impl View for FileBrowser {
    type V = Browser;

    open spec fn view(&self) -> Browser {
        Browser {
            is_open: self.is_open,
            dir: self.current_directory@,
            cursor: self.selected_index as int,
            entries: self.file_list.deep_view(),
            selected: self.selected_file.deep_view(),
            prompt: self.prompt_user,
        }
    }
}

/// Whether `name` is the parent marker.
fn is_parent_marker(name: &str) -> (yes: bool)
    ensures
        yes == (name@ == parent_marker()),
{
    let yes = name.unicode_len() == 2 && name.get_char(0) == '.' && name.get_char(1) == '.';
    proof {
        if yes {
            assert(name@ =~= parent_marker());
        }
    }
    yes
}

/// The name of an entry as the listing shows it. `is_dir` says whether the
/// entry names a directory.
pub fn display_name(name: &str, is_dir: bool) -> (shown: String)
    ensures
        shown@ == shown_name(name@, is_dir),
{
    let mut shown = name.to_owned();
    if is_dir && !is_parent_marker(name) {
        proof {
            reveal_strlit("/");
            assert("/"@ =~= seq!['/']);
        }
        shown.append("/");
    }
    shown
}

impl FileBrowser {
    /// A closed browser that stands in `current_directory` with no listing and
    /// no pick.
    pub fn new(current_directory: String) -> (browser: FileBrowser)
        ensures
            browser@ == (Browser {
                is_open: false,
                dir: current_directory@,
                cursor: 0,
                entries: Seq::empty(),
                selected: None,
                prompt: false,
            }),
            browser@.wf(),
    {
        let browser = FileBrowser {
            is_open: false,
            current_directory,
            selected_index: 0,
            file_list: Vec::new(),
            selected_file: None,
            prompt_user: false,
        };
        assert(browser.file_list.deep_view() =~= Seq::empty());
        browser
    }

    /// Opens a closed browser and closes an open one.
    pub fn toggle(&mut self) -> (request: Request)
        ensures
            final(self)@ == old(self)@.toggle(),
            request == (if old(self).is_open {
                Request::Nothing
            } else {
                Request::ReadDirectory
            }),
            old(self)@.wf() ==> final(self)@.wf(),
    {
        self.is_open = !self.is_open;
        if self.is_open {
            self.selected_index = 0;
            self.file_list = Vec::new();
            assert(self.file_list.deep_view() =~= Seq::empty());
            Request::ReadDirectory
        } else {
            Request::Nothing
        }
    }

    /// Takes the names that listing the current directory produced.
    pub fn load_file_list(&mut self, names: Vec<String>)
        ensures
            final(self)@ == old(self)@.load(names.deep_view()),
            final(self)@.wf(),
    {
        let mut entries = names;
        if !is_root_path(self.current_directory.as_str()) {
            proof {
                reveal_strlit("..");
                assert(".."@ =~= parent_marker());
            }
            entries.insert(0, "..".to_owned());
            assert(entries.deep_view() =~= seq![parent_marker()] + names.deep_view());
        }
        self.file_list = entries;
        self.selected_index = 0;
    }

    /// Number of entries in the listing.
    pub fn get_file_count(&self) -> (count: usize)
        ensures
            count == self@.entries.len(),
    {
        self.file_list.len()
    }

    /// The entry under the cursor.
    pub fn get_selected_file(&self) -> (entry: Option<&String>)
        ensures
            entry.deep_view() == self@.entry_at_cursor(),
    {
        if self.selected_index < self.file_list.len() {
            Some(&self.file_list[self.selected_index])
        } else {
            None
        }
    }

    /// The picked file as a path.
    pub fn selected_path(&self) -> (path: Option<String>)
        ensures
            path.deep_view() == self@.selected_path(),
    {
        match &self.selected_file {
            Some(name) => Some(slash_join(self.current_directory.as_str(), name.as_str())),
            None => None,
        }
    }

    /// The line that tells the user which file is picked.
    pub fn selection_text(&self) -> (text: String)
        ensures
            text@ == self@.selection_text(),
    {
        match self.selected_path() {
            Some(path) => {
                let mut text = "Selected file: ".to_owned();
                text.append(path.as_str());
                text
            },
            None => "Info Bar: No file selected".to_owned(),
        }
    }

    /// Moves the cursor one entry down.
    pub fn move_cursor_down(&mut self)
        ensures
            final(self)@ == old(self)@.move_down(),
            old(self)@.wf() ==> final(self)@.wf(),
    {
        let count = self.file_list.len();
        if count > 0 {
            if self.selected_index >= count - 1 {
                self.selected_index = 0;
            } else {
                self.selected_index = self.selected_index + 1;
            }
        }
    }

    /// Moves the cursor one entry up.
    pub fn move_cursor_up(&mut self)
        ensures
            final(self)@ == old(self)@.move_up(),
            old(self)@.wf() ==> final(self)@.wf(),
    {
        let count = self.file_list.len();
        if count > 0 {
            if self.selected_index == 0 {
                self.selected_index = count - 1;
            } else {
                self.selected_index = self.selected_index - 1;
            }
        }
    }

    /// Enters `directory`.
    fn enter(&mut self, directory: String)
        ensures
            final(self)@ == old(self)@.enter(directory@),
            final(self)@.wf(),
    {
        self.current_directory = directory;
        self.selected_index = 0;
        self.file_list = Vec::new();
        assert(self.file_list.deep_view() =~= Seq::empty());
    }

    /// Goes to the parent directory.
    pub fn navigate_up(&mut self) -> (request: Request)
        ensures
            final(self)@ == old(self)@.ascend(),
            request == old(self)@.ascend_request(),
            old(self)@.wf() ==> final(self)@.wf(),
    {
        match parent_of(self.current_directory.as_str()) {
            Some(up) => {
                self.enter(up);
                Request::ReadDirectory
            },
            None => Request::Nothing,
        }
    }

    /// Activates the entry under the cursor.
    pub fn activate_selection(&mut self, is_dir: bool) -> (request: Request)
        ensures
            final(self)@ == old(self)@.activate(is_dir),
            request == old(self)@.activate_request(is_dir),
            old(self)@.wf() ==> final(self)@.wf(),
    {
        if self.selected_index >= self.file_list.len() {
            return Request::Nothing;
        }
        let name = self.file_list[self.selected_index].clone();
        assert(name@ == old(self)@.entries[old(self)@.cursor]);
        if is_parent_marker(name.as_str()) {
            self.navigate_up()
        } else if is_dir {
            let target = join_path(self.current_directory.as_str(), name.as_str());
            self.enter(target);
            Request::ReadDirectory
        } else {
            self.selected_file = Some(name);
            self.prompt_user = true;
            Request::Nothing
        }
    }

    /// Withdraws the request for confirmation and keeps the pick.
    pub fn dismiss_confirmation(&mut self)
        ensures
            final(self)@ == old(self)@.dismiss(),
            !old(self).prompt_user ==> final(self)@ == old(self)@,
            old(self)@.wf() ==> final(self)@.wf(),
    {
        if self.prompt_user {
            self.prompt_user = false;
        }
    }

    /// Handles one key. `is_dir` says whether the entry under the cursor names
    /// a directory right now; it is read for [`Key::Enter`] alone.
    pub fn handle_keypress(&mut self, key: Key, is_dir: bool) -> (request: Request)
        ensures
            final(self)@ == old(self)@.press(key, is_dir),
            request == old(self)@.press_request(key, is_dir),
            old(self)@.wf() ==> final(self)@.wf(),
    {
        match key {
            Key::Down => {
                self.move_cursor_down();
                Request::Nothing
            },
            Key::Up => {
                self.move_cursor_up();
                Request::Nothing
            },
            Key::Enter => self.activate_selection(is_dir),
            Key::Esc => {
                self.dismiss_confirmation();
                Request::Nothing
            },
            Key::Char(_) => {
                self.dismiss_confirmation();
                Request::Nothing
            },
            Key::Other => Request::Nothing,
        }
    }
}

/// From the first entry, fewer steps down than there are entries lead to the
/// entry of that number.
proof fn lemma_steps_down(browser: Browser, steps: nat)
    requires
        browser.cursor == 0,
        steps < browser.entries.len(),
    ensures
        browser.move_down_by(steps) == (Browser { cursor: steps as int, ..browser }),
    decreases steps,
{
    if steps > 0 {
        lemma_steps_down(browser, (steps - 1) as nat);
    }
}

/// The cursor wraps at both ends: from the first entry of a list that is not
/// empty, as many steps down as the list has entries lead back to the first
/// entry, and one step up leads to the last.
pub proof fn lemma_cursor_wraps(browser: Browser)
    requires
        browser.entries.len() > 0,
        browser.cursor == 0,
    ensures
        browser.move_down_by(browser.entries.len()) == browser,
        browser.move_up().cursor == browser.entries.len() - 1,
{
    lemma_steps_down(browser, (browser.entries.len() - 1) as nat);
}

/// Going down into a child directory and activating the parent marker of its
/// listing leads back to the directory one came from, with the cursor on the
/// first entry.
///
/// The child is a plain name under the cursor, and the directory is written
/// without a closing separator. `names` is whatever the listing of the child
/// produced, and `is_dir` whatever the filesystem says of the marker.
pub proof fn lemma_descend_then_ascend(browser: Browser, names: Seq<Seq<char>>, is_dir: bool)
    requires
        is_tidy(browser.dir),
        browser.entry_at_cursor() matches Some(name) && is_plain_name(name) && name
            != parent_marker(),
    ensures
        browser.activate(true).load(names).activate(is_dir).dir == browser.dir,
        browser.activate(true).load(names).activate(is_dir).cursor == 0,
        browser.activate(true).load(names).activate(is_dir).wf(),
{
    let name = browser.entry_at_cursor()->Some_0;
    let child = join(browser.dir, name);
    lemma_parent_of_join(browser.dir, name);
    assert(child.last() == name.last());
    assert(!is_root(child));
    let below = browser.activate(true).load(names);
    assert(below.entries[0] == parent_marker());
    assert(below.entry_at_cursor() == Some(parent_marker()));
}

/// Dismissing keeps the pick, changes nothing where no confirmation is
/// awaited, and a second dismissal adds nothing to the first.
pub proof fn lemma_dismissal(browser: Browser)
    ensures
        browser.dismiss().selected == browser.selected,
        browser.dismiss().dismiss() == browser.dismiss(),
        !browser.prompt ==> browser.dismiss() == browser,
{
}

/// At the filesystem root there is no way up: going up leaves the browser as
/// it is and asks for nothing, and the listing of the root holds the names
/// alone, with no parent marker before them.
pub proof fn lemma_root_boundary(browser: Browser, names: Seq<Seq<char>>)
    requires
        is_root(browser.dir),
    ensures
        parent(browser.dir) is None,
        browser.ascend() == browser,
        browser.ascend_request() == Request::Nothing,
        browser.load(names).entries == names,
{
    let dir = browser.dir;
    assert(dir.drop_last() =~= Seq::<char>::empty());
    assert(trimmed_len(dir.drop_last()) == 0);
    assert(trimmed_len(dir) == 0);
    assert(dir.take(0) =~= Seq::<char>::empty());
}

/// Away from the root the parent marker is the first entry of every listing.
pub proof fn lemma_marker_leads(browser: Browser, names: Seq<Seq<char>>)
    requires
        !is_root(browser.dir),
    ensures
        browser.load(names).entries.len() == names.len() + 1,
        browser.load(names).entry_at_cursor() == Some(parent_marker()),
        browser.load(names).wf(),
{
}

} // verus!
