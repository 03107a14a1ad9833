use trashcards::file_browser::FileBrowser;
use trashcards::file_handler::LoadError;
use trashcards::game::Game;
use trashcards::key::Key;
use trashcards::request::Request;

fn row(cells: &[&str]) -> Vec<String> {
    cells.iter().map(|cell| cell.to_string()).collect()
}

fn two_by_two() -> Game {
    let mut game = Game::new();
    game.load(row(&["Question", "Answer"]), vec![row(&["Q1", "A1"]), row(&["Q2", "A2"])])
        .unwrap();
    game
}

fn cursor(game: &Game) -> (usize, usize, bool) {
    (game.current_row, game.current_col, game.answer_visible)
}

#[test]
fn test_game_initialization() {
    let game = Game::new();
    assert_eq!(game.is_open, false);
    assert_eq!(game.current_row, 0);
    assert_eq!(game.current_col, 0);
    assert_eq!(game.data.len(), 0);
    assert_eq!(game.headers.len(), 0);
    assert_eq!(game.answer_visible, false);
}

#[test]
fn test_game_toggle() {
    let mut game = Game::new();
    let file_browser = FileBrowser::new(String::from("/home/user"));

    game.toggle(&file_browser);
    assert!(game.is_open);

    game.toggle(&file_browser);
    assert!(!game.is_open);
}

#[test]
fn test_next_question() {
    let mut game = Game::new();
    game.headers = vec!["Question".to_string(), "Answer".to_string()];
    game.data = vec![
        vec!["What is Rust?".to_string(), "A systems programming language.".to_string()],
        vec!["What is Cargo?".to_string(), "Rust's package manager.".to_string()],
    ];

    assert_eq!(game.current_row, 0);
    assert_eq!(game.current_col, 0);

    game.next();
    assert!(game.answer_visible);
    assert_eq!(game.current_col, 1);

    game.next();
    game.next();
    assert!(!game.answer_visible);
    assert_eq!(game.current_row, 1);
    assert_eq!(game.current_col, 0);
}

#[test]
fn test_answer_visibility_toggle() {
    let mut game = Game::new();
    game.headers = vec!["Question".to_string(), "Answer".to_string()];
    game.data =
        vec![vec!["What is Rust?".to_string(), "A systems programming language.".to_string()]];

    assert!(!game.answer_visible);

    game.next();
    assert!(game.answer_visible);

    game.next();
    assert!(!game.answer_visible);
}

#[test]
fn test_loop_back_to_start() {
    let mut game = Game::new();
    game.headers = vec!["Question".to_string(), "Answer".to_string()];
    game.data =
        vec![vec!["What is Rust?".to_string(), "A systems programming language.".to_string()]];

    game.next();
    game.next();
    game.next();

    assert_eq!(game.current_row, 0);
    assert_eq!(game.current_col, 0);
    assert!(!game.answer_visible);
}

#[test]
fn two_by_two_grid_step_by_step() {
    let mut game = two_by_two();
    assert_eq!(cursor(&game), (0, 0, false));

    game.next();
    assert_eq!(cursor(&game), (0, 1, true));
    game.next();
    assert_eq!(cursor(&game), (0, 1, false));
    game.next();
    assert_eq!(cursor(&game), (1, 0, false));
    game.next();
    assert_eq!(cursor(&game), (1, 1, true));
    game.next();
    assert_eq!(cursor(&game), (1, 1, false));
    game.next();
    assert_eq!(cursor(&game), (0, 0, false));
}

#[test]
fn first_advance_reveals_the_first_answer() {
    let mut game = two_by_two();

    game.next();
    assert_eq!(game.current_col, 1);
    assert!(game.answer_visible);
    assert_eq!(game.data[game.current_row][game.current_col], "A1");
    assert_eq!(game.answer_text(), "Answer\n\nA1");
    assert_eq!(game.question_text(), "Question\n\nQ1");

    game.next();
    assert_eq!(cursor(&game), (0, 1, false));
    assert_eq!(game.answer_text(), "Press space for next question!");

    game.next();
    assert_eq!(cursor(&game), (1, 0, false));
    assert_eq!(game.question_text(), "Question\n\nQ2");
    assert_eq!(game.answer_text(), "Answer");
}

#[test]
fn three_columns_are_revealed_one_by_one() {
    let mut game = Game::new();
    game.load(row(&["Word", "Meaning", "Example"]), vec![row(&["chat", "cat", "le chat dort"])])
        .unwrap();
    assert_eq!(game.answer_text(), "Meaning");

    game.next();
    assert_eq!(cursor(&game), (0, 1, true));
    assert_eq!(game.answer_text(), "Meaning\n\ncat");
    game.next();
    assert_eq!(cursor(&game), (0, 1, false));
    assert_eq!(game.answer_text(), "Example");
    game.next();
    assert_eq!(cursor(&game), (0, 2, true));
    assert_eq!(game.answer_text(), "Example\n\nle chat dort");
    game.next();
    assert_eq!(cursor(&game), (0, 2, false));
    assert_eq!(game.answer_text(), "Press space for next question!");
    game.next();
    assert_eq!(cursor(&game), (0, 0, false));
}

#[test]
fn single_column_rows_roll_over_at_once() {
    let mut game = Game::new();
    game.load(row(&["Word"]), vec![row(&["a"]), row(&["b"])]).unwrap();
    game.next();
    assert_eq!(cursor(&game), (1, 0, false));
    game.next();
    assert_eq!(cursor(&game), (0, 0, false));
}

#[test]
fn advancing_an_empty_quiz_does_nothing() {
    let mut game = Game::new();
    game.next();
    assert_eq!(cursor(&game), (0, 0, false));
    assert_eq!(game.question_text(), "");
    assert_eq!(game.answer_text(), "");

    assert_eq!(game.load(row(&["Question", "Answer"]), Vec::new()), Err(LoadError::EmptySelection));
    game.next();
    assert_eq!(cursor(&game), (0, 0, false));
    assert_eq!(game.headers, row(&["Question", "Answer"]));
    assert_eq!(game.answer_text(), "Answer");
}

#[test]
fn loading_starts_over() {
    let mut game = two_by_two();
    game.next();
    game.next();
    game.next();
    game.next();
    assert_eq!(cursor(&game), (1, 1, true));

    assert_eq!(game.load(row(&["H"]), vec![row(&["x"])]), Ok(()));
    assert_eq!(cursor(&game), (0, 0, false));
    assert_eq!(game.data, vec![row(&["x"])]);
    assert_eq!(game.headers, row(&["H"]));
}

#[test]
fn only_the_space_bar_advances() {
    let mut game = two_by_two();
    game.handle_keypress(Key::Enter);
    game.handle_keypress(Key::Char('x'));
    game.handle_keypress(Key::Down);
    assert_eq!(cursor(&game), (0, 0, false));
    game.handle_keypress(Key::Char(' '));
    assert_eq!(cursor(&game), (0, 1, true));
}

#[test]
fn opening_asks_for_the_picked_file() {
    let mut game = Game::new();
    let mut file_browser = FileBrowser::new(String::from("/decks"));
    assert_eq!(game.toggle(&file_browser), Request::Nothing);
    assert_eq!(game.toggle(&file_browser), Request::Nothing);

    file_browser.selected_file = Some(String::from("french.csv"));
    assert_eq!(game.toggle(&file_browser), Request::ReadFile);
    assert!(game.is_open);
    assert_eq!(game.toggle(&file_browser), Request::Nothing);
    assert!(!game.is_open);
}

#[test]
fn load_csv_needs_a_picked_file() {
    let mut game = two_by_two();
    let file_browser = FileBrowser::new(String::from("/decks"));
    let loaded = game.load_csv(&file_browser, b"Question;Answer\nQ;A\n");
    assert_eq!(loaded, Err(LoadError::NoFileSelected));
    assert_eq!(game.data.len(), 2);
}

#[test]
fn load_csv_rejects_a_malformed_file_and_keeps_the_quiz() {
    let mut game = two_by_two();
    game.next();
    let mut file_browser = FileBrowser::new(String::from("/decks"));
    file_browser.selected_file = Some(String::from("bad.csv"));
    let loaded = game.load_csv(&file_browser, b"Question;Answer\nonly one\nQ;A;extra\n");
    assert_eq!(loaded, Err(LoadError::Malformed));
    assert_eq!(cursor(&game), (0, 1, true));
    assert_eq!(game.data, vec![row(&["Q1", "A1"]), row(&["Q2", "A2"])]);
}

#[test]
fn load_csv_draws_at_most_five_rows() {
    let mut game = two_by_two();
    game.next();
    let mut file_browser = FileBrowser::new(String::from("/decks"));
    file_browser.selected_file = Some(String::from("deck.csv"));
    let content = b"Q;A\n1;a\n2;b\n3;c\n4;d\n5;e\n6;f\n7;g\n";
    assert_eq!(game.load_csv(&file_browser, content), Ok(()));
    assert_eq!(game.headers, row(&["Q", "A"]));
    assert_eq!(game.data.len(), 5);
    assert_eq!(cursor(&game), (0, 0, false));
    for (i, cells) in game.data.iter().enumerate() {
        assert_eq!(cells.len(), 2);
        assert!(!game.data[..i].contains(cells));
    }
}

#[test]
fn load_csv_accepts_a_file_without_rows() {
    let mut game = two_by_two();
    let mut file_browser = FileBrowser::new(String::from("/decks"));
    file_browser.selected_file = Some(String::from("deck.csv"));
    assert_eq!(game.load_csv(&file_browser, b"Question;Answer\n"), Ok(()));
    assert!(game.data.is_empty());
    assert_eq!(game.headers, row(&["Question", "Answer"]));
    game.next();
    assert_eq!(cursor(&game), (0, 0, false));
}

#[test]
fn a_pass_through_the_whole_grid_ends_where_it_began() {
    for (rows, width) in [(1usize, 1usize), (1, 2), (2, 2), (3, 3), (4, 1), (2, 5)] {
        let headers: Vec<String> = (0..width).map(|c| format!("H{}", c)).collect();
        let grid: Vec<Vec<String>> =
            (0..rows).map(|r| (0..width).map(|c| format!("{}{}", r, c)).collect()).collect();
        let mut game = Game::new();
        game.load(headers, grid).unwrap();

        let presses = rows * (2 * width - 1);
        for press in 1..presses {
            game.next();
            assert_ne!(cursor(&game), (0, 0, false), "after {} of {} presses", press, presses);
        }
        game.next();
        assert_eq!(cursor(&game), (0, 0, false));
    }
}
