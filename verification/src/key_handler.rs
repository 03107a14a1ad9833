//! The application's modes and the transition that one key causes.

use vstd::prelude::*;
use crate::file_browser::{Browser, FileBrowser};
use crate::file_handler::LoadError;
use crate::game::{Game, Quiz};
use crate::key::Key;
use crate::request::Request;

verus! {

/// The screen that is active. Exactly one is at any time.
#[derive(Debug, Clone, Copy, PartialEq, Eq, Structural)]
pub enum AppState {
    /// The welcome screen, from which a quiz is started.
    Welcome,
    /// The settings screen, from which the file browser is opened.
    Settings,
    /// The information screen.
    Info,
    /// The file browser.
    FileBrowser,
    /// The application is about to end.
    Exit,
    /// The quiz.
    Game,
    /// A quiz was asked for while no file was picked.
    SelectFile,
}

/// The screen once a load has ended: a load that succeeds leaves it as it is,
/// one that fails leads back to the welcome screen, from which it was asked
/// for.
pub open spec fn state_after_load(state: AppState, loaded: Result<(), LoadError>) -> AppState {
    match loaded {
        Ok(_) => state,
        Err(_) => AppState::Welcome,
    }
}

/// The quiz once a load has ended: a load that succeeds leaves it as it is,
/// one that fails closes it.
pub open spec fn quiz_after_load(quiz: Quiz, loaded: Result<(), LoadError>) -> Quiz {
    match loaded {
        Ok(_) => quiz,
        Err(_) => Quiz { is_open: false, ..quiz },
    }
}

/// Mathematical model of the whole application.
pub ghost struct App {
    /// The active screen.
    pub state: AppState,
    /// The file browser.
    pub browser: Browser,
    /// The quiz.
    pub quiz: Quiz,
}

impl App {
    /// Both parts are well formed.
    pub open spec fn wf(self) -> bool {
        self.browser.wf() && self.quiz.wf()
    }

    /// The screen after `key`.
    ///
    /// `1`, `2` and `3` lead to the welcome, settings and information screens
    /// and `q` ends the application, from anywhere. `l` on the settings screen
    /// toggles the file browser and shows it if it is then open. `s` on the
    /// welcome screen toggles the quiz: with a file picked it shows the quiz if
    /// it is then open, without one it asks for a file. Anything else changes
    /// nothing.
    pub open spec fn next_state(self, key: Key) -> AppState {
        match key {
            Key::Char(c) => if c == '1' {
                AppState::Welcome
            } else if c == '2' {
                AppState::Settings
            } else if c == '3' {
                AppState::Info
            } else if c == 'q' {
                AppState::Exit
            } else if c == 'l' && self.state == AppState::Settings {
                if self.browser.is_open {
                    AppState::Settings
                } else {
                    AppState::FileBrowser
                }
            } else if c == 's' && self.state == AppState::Welcome {
                if self.browser.selected is None {
                    AppState::SelectFile
                } else if self.quiz.is_open {
                    AppState::Welcome
                } else {
                    AppState::Game
                }
            } else {
                self.state
            },
            _ => self.state,
        }
    }

    /// The file browser after the mode change that `key` causes: `2` closes
    /// it, `l` on the settings screen toggles it.
    pub open spec fn browser_after(self, key: Key) -> Browser {
        if key == Key::Char('2') {
            Browser { is_open: false, ..self.browser }
        } else if key == Key::Char('l') && self.state == AppState::Settings {
            self.browser.toggle()
        } else {
            self.browser
        }
    }

    /// The quiz after the mode change that `key` causes: `s` on the welcome
    /// screen toggles it.
    pub open spec fn quiz_after(self, key: Key) -> Quiz {
        if key == Key::Char('s') && self.state == AppState::Welcome {
            self.quiz.toggle()
        } else {
            self.quiz
        }
    }

    /// What the mode change that `key` causes leaves to the caller: a browser
    /// that opens needs its listing, a quiz that opens needs the picked file.
    pub open spec fn request_after(self, key: Key) -> Request {
        if key == Key::Char('l') && self.state == AppState::Settings && !self.browser.is_open {
            Request::ReadDirectory
        } else if key == Key::Char('s') && self.state == AppState::Welcome && !self.quiz.is_open
            && self.browser.selected is Some {
            Request::ReadFile
        } else {
            Request::Nothing
        }
    }

    /// The application after the mode change that `key` causes.
    pub open spec fn change_mode(self, key: Key) -> App {
        App {
            state: self.next_state(key),
            browser: self.browser_after(key),
            quiz: self.quiz_after(key),
        }
    }

    /// The application after `key` has been handled in full: first the mode
    /// change, then the key is forwarded to the part whose screen is then
    /// active, the file browser or the quiz.
    pub open spec fn handle(self, key: Key, is_dir: bool) -> App {
        let changed = self.change_mode(key);
        match changed.state {
            AppState::FileBrowser => App {
                browser: changed.browser.press(key, is_dir),
                ..changed
            },
            AppState::Game => App { quiz: changed.quiz.press(key), ..changed },
            _ => changed,
        }
    }

    /// The application once the load that [`Request::ReadFile`] asked for has
    /// ended with `loaded`.
    pub open spec fn finish_load(self, loaded: Result<(), LoadError>) -> App {
        App {
            state: state_after_load(self.state, loaded),
            quiz: quiz_after_load(self.quiz, loaded),
            ..self
        }
    }

    /// What handling `key` in full leaves to the caller.
    pub open spec fn handle_request(self, key: Key, is_dir: bool) -> Request {
        let changed = self.change_mode(key);
        if self.request_after(key) != Request::Nothing {
            self.request_after(key)
        } else if changed.state == AppState::FileBrowser {
            changed.browser.press_request(key, is_dir)
        } else {
            Request::Nothing
        }
    }
}

/// The model of an application in `state` with the given parts.
pub open spec fn app_of(state: AppState, file_browser: FileBrowser, game: Game) -> App {
    App { state, browser: file_browser@, quiz: game@ }
}

/// The mode change that `key` causes in `current_state`.
///
/// Returns the next screen and what is left to the caller. No key is an
/// error: one that means nothing on the current screen changes nothing.
///
/// Where a file is asked for, the quiz screen stands only as long as the load
/// succeeds: the caller hands the outcome to [`finish_load`], which takes the
/// user back to the welcome screen after a failure.
pub fn handle_keypress(
    key: Key,
    current_state: AppState,
    file_browser: &mut FileBrowser,
    game: &mut Game,
) -> (next: (AppState, Request))
    ensures
        app_of(next.0, *final(file_browser), *final(game)) == app_of(
            current_state,
            *old(file_browser),
            *old(game),
        ).change_mode(key),
        next.1 == app_of(current_state, *old(file_browser), *old(game)).request_after(key),
        old(file_browser)@.wf() ==> final(file_browser)@.wf(),
        old(game)@.wf() ==> final(game)@.wf(),
{
    match key {
        Key::Char(c) => {
            if c == '1' {
                (AppState::Welcome, Request::Nothing)
            } else if c == '2' {
                file_browser.is_open = false;
                (AppState::Settings, Request::Nothing)
            } else if c == '3' {
                (AppState::Info, Request::Nothing)
            } else if c == 'q' {
                (AppState::Exit, Request::Nothing)
            } else if c == 'l' && current_state == AppState::Settings {
                let request = file_browser.toggle();
                if file_browser.is_open {
                    (AppState::FileBrowser, request)
                } else {
                    (AppState::Settings, request)
                }
            } else if c == 's' && current_state == AppState::Welcome {
                let request = game.toggle(file_browser);
                if file_browser.selected_file.is_some() {
                    if game.is_open {
                        (AppState::Game, request)
                    } else {
                        (AppState::Welcome, request)
                    }
                } else {
                    (AppState::SelectFile, request)
                }
            } else {
                (current_state, Request::Nothing)
            }
        },
        _ => (current_state, Request::Nothing),
    }
}

/// Handles `key` in full: the mode change, then the key is forwarded to the
/// file browser or the quiz if its screen is then active.
///
/// `is_dir` says whether the entry under the browser's cursor names a
/// directory right now; it is read only where [`Key::Enter`] reaches the
/// browser.
///
/// After [`Request::ReadFile`] the caller loads the quiz and hands the outcome
/// to [`finish_load`].
pub fn dispatch(
    key: Key,
    current_state: AppState,
    file_browser: &mut FileBrowser,
    game: &mut Game,
    is_dir: bool,
) -> (next: (AppState, Request))
    ensures
        app_of(next.0, *final(file_browser), *final(game)) == app_of(
            current_state,
            *old(file_browser),
            *old(game),
        ).handle(key, is_dir),
        next.1 == app_of(current_state, *old(file_browser), *old(game)).handle_request(
            key,
            is_dir,
        ),
        old(file_browser)@.wf() ==> final(file_browser)@.wf(),
        old(game)@.wf() ==> final(game)@.wf(),
{
    let (state, request) = handle_keypress(key, current_state, file_browser, game);
    match state {
        AppState::FileBrowser => {
            let listing = file_browser.handle_keypress(key, is_dir);
            match request {
                Request::Nothing => (state, listing),
                _ => (state, request),
            }
        },
        AppState::Game => {
            game.handle_keypress(key);
            (state, request)
        },
        _ => (state, request),
    }
}

/// Ends the load that [`Request::ReadFile`] asked for. `loaded` is what
/// [`Game::load_csv`] returned, or [`LoadError::Unreadable`] where the file
/// could not be read.
///
/// After a load that succeeded nothing changes. After one that failed the quiz
/// is closed and the welcome screen is shown again.
pub fn finish_load(current_state: AppState, game: &mut Game, loaded: Result<(), LoadError>) -> (next:
    AppState)
    ensures
        next == state_after_load(current_state, loaded),
        final(game)@ == quiz_after_load(old(game)@, loaded),
        old(game)@.wf() ==> final(game)@.wf(),
{
    match loaded {
        Ok(_) => current_state,
        Err(_) => {
            game.is_open = false;
            AppState::Welcome
        },
    }
}

/// A load is asked for by the start key on the welcome screen alone, with a
/// file picked and the quiz closed, and the quiz screen is shown while the
/// load is under way.
pub proof fn lemma_load_is_asked_from_welcome(app: App, key: Key, is_dir: bool)
    requires
        app.handle_request(key, is_dir) == Request::ReadFile,
    ensures
        key == Key::Char('s'),
        app.state == AppState::Welcome,
        app.browser.selected is Some,
        !app.quiz.is_open,
        app.handle(key, is_dir).state == AppState::Game,
{
}

/// A load that fails undoes the key that asked for it: the application is
/// what it was before, on the screen it was on.
pub proof fn lemma_failed_load_changes_nothing(
    app: App,
    key: Key,
    is_dir: bool,
    error: LoadError,
)
    requires
        app.handle_request(key, is_dir) == Request::ReadFile,
    ensures
        app.handle(key, is_dir).finish_load(Err(error)) == app,
{
}

/// A load that succeeds leaves the screen and both parts as they are.
pub proof fn lemma_successful_load_stays(app: App)
    ensures
        app.finish_load(Ok(())) == app,
{
}

/// In the file browser, with no confirmation awaited, the dismiss key leaves
/// the whole application as it is: the screen, the pick and everything else.
pub proof fn lemma_idle_dismissal(app: App, is_dir: bool)
    requires
        app.state == AppState::FileBrowser,
        !app.browser.prompt,
    ensures
        app.handle(Key::Esc, is_dir) == app,
        app.handle_request(Key::Esc, is_dir) == Request::Nothing,
{
}

/// The quit key ends the application from every screen, and leaves both parts
/// as they are.
pub proof fn lemma_quit_from_anywhere(app: App, is_dir: bool)
    ensures
        app.handle(Key::Char('q'), is_dir).state == AppState::Exit,
        app.handle(Key::Char('q'), is_dir).browser == app.browser,
        app.handle(Key::Char('q'), is_dir).quiz == app.quiz,
{
}

} // verus!
