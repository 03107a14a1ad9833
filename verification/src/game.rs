//! The quiz engine: a cursor over a grid of text cells that reveals one column
//! at a time and starts over after the last row.

use vstd::prelude::*;
use crate::file_browser::FileBrowser;
use crate::file_handler::{is_sample_of, parsed, read_and_process_csv_with_headers, LoadError};
use crate::key::Key;
use crate::request::Request;

verus! {

/// Number of rows drawn from a file for one quiz.
pub const SAMPLE_SIZE: usize = 5;

/// The key that advances the quiz.
pub open spec fn advance_key() -> Key {
    Key::Char(' ')
}

/// What stands in place of the next title once the last column is reached.
pub open spec fn next_prompt() -> Seq<char> {
    "Press space for next question!"@
}

/// The cell `at` of `cells`, or the empty text where there is none.
pub open spec fn text_at(cells: Seq<Seq<char>>, at: int) -> Seq<char> {
    if 0 <= at < cells.len() {
        cells[at]
    } else {
        Seq::empty()
    }
}

/// A title, an empty line and a body.
pub open spec fn titled(title: Seq<char>, body: Seq<char>) -> Seq<char> {
    title + seq!['\n', '\n'] + body
}

/// Mathematical model of a [`Game`].
pub ghost struct Quiz {
    /// Whether the quiz screen is shown.
    pub is_open: bool,
    /// Index of the row under study.
    pub row: int,
    /// Index of the column reached in that row.
    pub col: int,
    /// The rows, each a sequence of cells.
    pub grid: Seq<Seq<Seq<char>>>,
    /// One title per column.
    pub headers: Seq<Seq<char>>,
    /// Whether the cell at the cursor is shown.
    pub revealed: bool,
}

impl Quiz {
    /// The cursor lies inside the grid; on an empty grid it rests at the origin
    /// with nothing revealed.
    pub open spec fn wf(self) -> bool {
        if self.grid.len() == 0 {
            self.row == 0 && self.col == 0 && !self.revealed
        } else {
            &&& 0 <= self.row < self.grid.len()
            &&& 0 <= self.col
            &&& self.col == 0 || self.col < self.grid[self.row].len()
        }
    }

    /// Whether the cursor stands on the last column of its row. A row without
    /// cells counts as finished.
    pub open spec fn at_row_end(self) -> bool {
        self.col + 1 >= self.grid[self.row].len()
    }

    /// Every row holds `width` cells.
    pub open spec fn is_rectangular(self, width: nat) -> bool {
        forall|r: int| 0 <= r < self.grid.len() ==> (#[trigger] self.grid[r]).len() == width
    }

    /// The state after `presses` presses of the advance key.
    pub open spec fn advance_by(self, presses: nat) -> Quiz
        decreases presses,
    {
        if presses == 0 {
            self
        } else {
            self.advance_by((presses - 1) as nat).advance()
        }
    }

    /// Whether a row lies under the cursor.
    pub open spec fn has_row(self) -> bool {
        0 <= self.row < self.grid.len()
    }

    /// A new grid replaces the old one, and the cursor returns to the first
    /// cell, hidden.
    pub open spec fn load(self, headers: Seq<Seq<char>>, grid: Seq<Seq<Seq<char>>>) -> Quiz {
        Quiz { row: 0, col: 0, revealed: false, grid, headers, ..self }
    }

    /// Shown becomes hidden and hidden becomes shown.
    pub open spec fn toggle(self) -> Quiz {
        Quiz { is_open: !self.is_open, ..self }
    }

    /// The state after `key`: the advance key advances, any other key does
    /// nothing.
    pub open spec fn press(self, key: Key) -> Quiz {
        if key == advance_key() {
            self.advance()
        } else {
            self
        }
    }

    /// The question pane: the first title above the first cell of the row
    /// under the cursor. Without a row the pane is empty.
    pub open spec fn question_text(self) -> Seq<char> {
        if self.has_row() {
            titled(text_at(self.headers, 0), text_at(self.grid[self.row], 0))
        } else {
            Seq::empty()
        }
    }

    /// The answer pane. Past the first column, a revealed cell is shown under
    /// its title; a hidden one gives way to the title of the next column, or
    /// to the prompt for the next question after the last column. On the first
    /// column the pane announces the second one by its title.
    pub open spec fn answer_text(self) -> Seq<char> {
        if self.has_row() && self.col > 0 {
            if self.revealed {
                titled(text_at(self.headers, self.col), text_at(self.grid[self.row], self.col))
            } else if self.col + 1 >= self.headers.len() {
                next_prompt()
            } else {
                self.headers[self.col + 1]
            }
        } else {
            text_at(self.headers, self.col + 1)
        }
    }

    /// The state after one press of the advance key.
    ///
    /// A revealed cell is hidden again and the cursor stays. Otherwise the
    /// cursor moves one column on and reveals it, unless it already stands on
    /// the last column: then the next row begins, hidden, and after the last
    /// row the first one.
    pub open spec fn advance(self) -> Quiz {
        if !self.has_row() {
            self
        } else if self.revealed {
            Quiz { revealed: false, ..self }
        } else if !self.at_row_end() {
            Quiz { col: self.col + 1, revealed: true, ..self }
        } else {
            Quiz {
                row: if self.row + 1 >= self.grid.len() { 0 } else { self.row + 1 },
                col: 0,
                revealed: false,
                ..self
            }
        }
    }
}

/// The quiz: the loaded grid, its column titles and the cursor.
pub struct Game {
    pub is_open: bool,
    pub current_row: usize,
    pub current_col: usize,
    pub data: Vec<Vec<String>>,
    pub headers: Vec<String>,
    pub answer_visible: bool,
}

impl View for Game {
    type V = Quiz;

    open spec fn view(&self) -> Quiz {
        Quiz {
            is_open: self.is_open,
            row: self.current_row as int,
            col: self.current_col as int,
            grid: self.data.deep_view(),
            headers: self.headers.deep_view(),
            revealed: self.answer_visible,
        }
    }
}

/// The cell `at` of `cells`, or the empty text where there is none.
fn cell_text(cells: &Vec<String>, at: usize) -> (text: String)
    ensures
        text@ == text_at(cells.deep_view(), at as int),
{
    if at < cells.len() {
        cells[at].clone()
    } else {
        String::new()
    }
}

/// A title, an empty line and a body.
fn titled_text(title: String, body: &str) -> (text: String)
    ensures
        text@ == titled(title@, body@),
{
    let mut text = title;
    proof {
        reveal_strlit("\n\n");
        assert("\n\n"@ =~= seq!['\n', '\n']);
    }
    text.append("\n\n");
    text.append(body);
    text
}

impl Game {
    /// A closed quiz with no grid.
    pub fn new() -> (game: Game)
        ensures
            game@ == (Quiz {
                is_open: false,
                row: 0,
                col: 0,
                grid: Seq::empty(),
                headers: Seq::empty(),
                revealed: false,
            }),
            game@.wf(),
    {
        let game = Game {
            is_open: false,
            current_row: 0,
            current_col: 0,
            data: Vec::new(),
            headers: Vec::new(),
            answer_visible: false,
        };
        assert(game.data.deep_view() =~= Seq::empty());
        assert(game.headers.deep_view() =~= Seq::empty());
        game
    }

    /// One press of the advance key.
    pub fn next(&mut self)
        ensures
            final(self)@ == old(self)@.advance(),
            old(self)@.wf() ==> final(self)@.wf(),
    {
        if self.current_row < self.data.len() {
            if self.answer_visible {
                self.answer_visible = false;
            } else {
                let width: usize = self.data[self.current_row].len();
                assert(width == old(self)@.grid[old(self)@.row].len());
                if width == 0 || self.current_col >= width - 1 {
                    self.current_col = 0;
                    self.current_row = self.current_row + 1;
                    if self.current_row >= self.data.len() {
                        self.current_row = 0;
                    }
                } else {
                    self.current_col = self.current_col + 1;
                    self.answer_visible = true;
                }
            }
        }
    }

    /// Replaces the grid and starts over at its first cell.
    ///
    /// Without rows the quiz is left empty, every later advance does nothing,
    /// and the caller is told so by [`LoadError::EmptySelection`].
    pub fn load(&mut self, headers: Vec<String>, rows: Vec<Vec<String>>) -> (loaded: Result<
        (),
        LoadError,
    >)
        ensures
            final(self)@ == old(self)@.load(headers.deep_view(), rows.deep_view()),
            final(self)@.wf(),
            loaded == (if rows.len() == 0 {
                Err::<(), LoadError>(LoadError::EmptySelection)
            } else {
                Ok::<(), LoadError>(())
            }),
    {
        let any = rows.len() > 0;
        self.headers = headers;
        self.data = rows;
        self.current_row = 0;
        self.current_col = 0;
        self.answer_visible = false;
        if any {
            Ok(())
        } else {
            Err(LoadError::EmptySelection)
        }
    }

    /// Loads the quiz from `content`, the bytes of the file picked in
    /// `file_browser`: the header row and a random sample of at most
    /// [`SAMPLE_SIZE`] data rows.
    ///
    /// Fails, and leaves the quiz as it was, where no file is picked or the
    /// parser rejects the content. A file without data rows gives an empty
    /// quiz and is no failure.
    pub fn load_csv(&mut self, file_browser: &FileBrowser, content: &[u8]) -> (loaded: Result<
        (),
        LoadError,
    >)
        ensures
            file_browser@.selected is None ==> loaded == Err::<(), LoadError>(
                LoadError::NoFileSelected,
            ),
            file_browser@.selected is Some && parsed(content@) is None ==> loaded == Err::<
                (),
                LoadError,
            >(LoadError::Malformed),
            file_browser@.selected is Some && parsed(content@) is Some ==> loaded is Ok,
            loaded is Err ==> final(self)@ == old(self)@,
            loaded is Ok ==> {
                &&& parsed(content@) matches Some((all_headers, all_rows))
                &&& final(self)@ == old(self)@.load(all_headers, final(self)@.grid)
                &&& is_sample_of(final(self)@.grid, all_rows, SAMPLE_SIZE as nat)
            },
            old(self)@.wf() ==> final(self)@.wf(),
    {
        if file_browser.selected_file.is_none() {
            return Err(LoadError::NoFileSelected);
        }
        match read_and_process_csv_with_headers(content, SAMPLE_SIZE) {
            Ok((headers, rows)) => {
                let _ = self.load(headers, rows);
                Ok(())
            },
            Err(error) => Err(error),
        }
    }

    /// Opens a closed quiz and closes an open one. A quiz that opens while a
    /// file is picked asks for that file.
    pub fn toggle(&mut self, file_browser: &FileBrowser) -> (request: Request)
        ensures
            final(self)@ == old(self)@.toggle(),
            request == (if !old(self).is_open && file_browser@.selected is Some {
                Request::ReadFile
            } else {
                Request::Nothing
            }),
            old(self)@.wf() ==> final(self)@.wf(),
    {
        self.is_open = !self.is_open;
        if self.is_open && file_browser.selected_file.is_some() {
            Request::ReadFile
        } else {
            Request::Nothing
        }
    }

    /// Handles one key: the space bar advances the quiz.
    pub fn handle_keypress(&mut self, key: Key)
        ensures
            final(self)@ == old(self)@.press(key),
            old(self)@.wf() ==> final(self)@.wf(),
    {
        match key {
            Key::Char(c) => {
                if c == ' ' {
                    self.next();
                }
            },
            _ => {},
        }
    }

    /// The text of the question pane.
    pub fn question_text(&self) -> (text: String)
        ensures
            text@ == self@.question_text(),
    {
        if self.current_row < self.data.len() {
            let title = cell_text(&self.headers, 0);
            let body = cell_text(&self.data[self.current_row], 0);
            titled_text(title, body.as_str())
        } else {
            String::new()
        }
    }

    /// The text of the answer pane.
    pub fn answer_text(&self) -> (text: String)
        ensures
            text@ == self@.answer_text(),
    {
        if self.current_row < self.data.len() && self.current_col > 0 {
            if self.answer_visible {
                let title = cell_text(&self.headers, self.current_col);
                let body = cell_text(&self.data[self.current_row], self.current_col);
                titled_text(title, body.as_str())
            } else if self.current_col >= self.headers.len() || self.current_col + 1
                >= self.headers.len() {
                "Press space for next question!".to_owned()
            } else {
                self.headers[self.current_col + 1].clone()
            }
        } else if self.current_col < self.headers.len() {
            cell_text(&self.headers, self.current_col + 1)
        } else {
            String::new()
        }
    }
}

/// Number of presses that lead through one row of `width` cells: each cell
/// after the first is revealed and hidden, and one more press leaves the row.
pub open spec fn presses_per_row(width: nat) -> nat {
    if width == 0 {
        1
    } else {
        (2 * width - 1) as nat
    }
}

/// Presses add up.
proof fn lemma_advance_by_sum(quiz: Quiz, first: nat, then: nat)
    ensures
        quiz.advance_by(first + then) == quiz.advance_by(first).advance_by(then),
    decreases then,
{
    if then > 0 {
        lemma_advance_by_sum(quiz, first, (then - 1) as nat);
    }
}

/// From the hidden first cell of a row, two presses per column lead to that
/// column, hidden again.
proof fn lemma_within_row(quiz: Quiz, width: nat, column: nat)
    requires
        quiz.has_row(),
        quiz.is_rectangular(width),
        quiz.col == 0,
        !quiz.revealed,
        column < width,
    ensures
        quiz.advance_by(2 * column) == (Quiz { col: column as int, ..quiz }),
    decreases column,
{
    if column > 0 {
        lemma_within_row(quiz, width, (column - 1) as nat);
        let before = quiz.advance_by((2 * column - 2) as nat);
        assert(before.grid[before.row].len() == width);
        assert(quiz.advance_by((2 * column - 1) as nat) == before.advance());
        assert(quiz.advance_by(2 * column) == before.advance().advance());
    }
}

/// From the hidden first cell of a row, the presses of one row lead to the
/// hidden first cell of the next row, or of the first row after the last.
proof fn lemma_through_row(quiz: Quiz, width: nat)
    requires
        quiz.has_row(),
        quiz.is_rectangular(width),
        quiz.col == 0,
        !quiz.revealed,
    ensures
        quiz.advance_by(presses_per_row(width)) == (Quiz {
            row: if quiz.row + 1 >= quiz.grid.len() {
                0
            } else {
                quiz.row + 1
            },
            ..quiz
        }),
{
    assert(quiz.grid[quiz.row].len() == width);
    if width == 0 {
        assert(quiz.advance_by(1) == quiz.advance_by(0).advance());
    } else {
        lemma_within_row(quiz, width, (width - 1) as nat);
        let last = quiz.advance_by((2 * width - 2) as nat);
        assert(last.grid[last.row].len() == width);
        assert(quiz.advance_by((2 * width - 1) as nat) == last.advance());
    }
}

/// From the start of the grid, the presses of `rows` rows lead to the hidden
/// first cell of the row of that number.
proof fn lemma_through_rows(quiz: Quiz, width: nat, rows: nat)
    requires
        quiz.is_rectangular(width),
        quiz.row == 0,
        quiz.col == 0,
        !quiz.revealed,
        rows < quiz.grid.len(),
    ensures
        quiz.advance_by(rows * presses_per_row(width)) == (Quiz { row: rows as int, ..quiz }),
    decreases rows,
{
    let per_row = presses_per_row(width);
    if rows > 0 {
        let fewer = (rows - 1) as nat;
        let before = fewer * per_row;
        lemma_through_rows(quiz, width, fewer);
        lemma_through_row(quiz.advance_by(before), width);
        lemma_advance_by_sum(quiz, before, per_row);
        assert(before + per_row == rows * per_row) by (nonlinear_arith)
            requires
                rows == fewer + 1,
                before == fewer * per_row,
        ;
    } else {
        assert(rows * per_row == 0) by (nonlinear_arith)
            requires
                rows == 0,
        ;
    }
}

/// A pass through the whole grid ends where it began.
///
/// Where every row holds `width` cells, a quiz that stands on the hidden first
/// cell of the first row is back there after the presses of all its rows:
/// for each row, two for every column after the first, and one to leave it.
pub proof fn lemma_full_cycle(quiz: Quiz, width: nat)
    requires
        quiz.grid.len() > 0,
        quiz.is_rectangular(width),
        quiz.row == 0,
        quiz.col == 0,
        !quiz.revealed,
    ensures
        quiz.advance_by(quiz.grid.len() * presses_per_row(width)) == quiz,
{
    let per_row = presses_per_row(width);
    let rows = quiz.grid.len();
    let fewer = (rows - 1) as nat;
    let before = fewer * per_row;
    lemma_through_rows(quiz, width, fewer);
    lemma_through_row(quiz.advance_by(before), width);
    lemma_advance_by_sum(quiz, before, per_row);
    assert(before + per_row == rows * per_row) by (nonlinear_arith)
        requires
            rows == fewer + 1,
            before == fewer * per_row,
    ;
}

/// An advance keeps the cursor inside the grid, never touches the grid or its
/// titles, and does nothing at all to a quiz without rows.
pub proof fn lemma_advance_keeps(quiz: Quiz)
    requires
        quiz.wf(),
    ensures
        quiz.advance().wf(),
        quiz.advance().grid == quiz.grid,
        quiz.advance().headers == quiz.headers,
        quiz.advance().is_open == quiz.is_open,
        quiz.grid.len() == 0 ==> quiz.advance() == quiz,
{
}

} // verus!
