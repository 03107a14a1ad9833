use trashcards::file_handler::{read_and_process_csv_with_headers, LoadError};

#[test]
fn test_read_and_process_csv_with_headers_success() {
    let content = "Question;Answer\nWhat is Rust?;A systems programming language.\nWhat is Cargo?;Rust's package manager.\n";

    let result = read_and_process_csv_with_headers(content.as_bytes(), 1);

    assert!(result.is_ok());
    let (headers, rows) = result.unwrap();

    assert_eq!(headers, vec!["Question", "Answer"]);

    assert_eq!(rows.len(), 1);
    assert_eq!(rows[0].len(), 2);
}

#[test]
fn test_read_and_process_csv_with_headers_empty_csv() {
    let content = "Question;Answer\n";

    let result = read_and_process_csv_with_headers(content.as_bytes(), 1);

    assert!(result.is_ok());
    let (headers, rows) = result.unwrap();

    assert_eq!(headers, vec!["Question", "Answer"]);

    assert_eq!(rows.len(), 0);
}

#[test]
fn test_read_and_process_csv_with_headers_n_larger_than_rows() {
    let content = "Question;Answer\nWhat is Rust?;A systems programming language.\n";

    let result = read_and_process_csv_with_headers(content.as_bytes(), 5);

    assert!(result.is_ok());
    let (headers, rows) = result.unwrap();

    assert_eq!(headers, vec!["Question", "Answer"]);

    assert_eq!(rows.len(), 1);
}

#[test]
fn test_read_and_process_csv_with_headers_semicolon_delimiter() {
    let content = "Question;Answer\nWhat is Rust?;A systems programming language.\nWhat is Cargo?;Rust's package manager.\n";

    let result = read_and_process_csv_with_headers(content.as_bytes(), 2);

    assert!(result.is_ok());
    let (headers, rows) = result.unwrap();

    assert_eq!(headers, vec!["Question", "Answer"]);

    assert_eq!(rows.len(), 2);
}

#[test]
fn all_rows_come_back_when_fewer_than_asked_for() {
    let content = "Q;A\n1;a\n2;b\n3;c\n";
    let (headers, mut rows) = read_and_process_csv_with_headers(content.as_bytes(), 10).unwrap();
    assert_eq!(headers, vec!["Q", "A"]);
    rows.sort();
    assert_eq!(rows, vec![vec!["1", "a"], vec!["2", "b"], vec!["3", "c"]]);
}

#[test]
fn sample_rows_are_distinct_source_rows() {
    let content = "Q;A\n1;a\n2;b\n3;c\n4;d\n5;e\n6;f\n";
    let source = vec![
        vec!["1", "a"],
        vec!["2", "b"],
        vec!["3", "c"],
        vec!["4", "d"],
        vec!["5", "e"],
        vec!["6", "f"],
    ];
    for n in 0..=6 {
        for _ in 0..20 {
            let (_, rows) = read_and_process_csv_with_headers(content.as_bytes(), n).unwrap();
            assert_eq!(rows.len(), n);
            for (i, cells) in rows.iter().enumerate() {
                assert!(source.iter().any(|s| s == cells));
                assert!(!rows[..i].contains(cells));
            }
        }
    }
}

#[test]
fn asking_for_no_rows_gives_none() {
    let (headers, rows) =
        read_and_process_csv_with_headers("Q;A\n1;a\n2;b\n".as_bytes(), 0).unwrap();
    assert_eq!(headers, vec!["Q", "A"]);
    assert!(rows.is_empty());
}

#[test]
fn fields_are_split_at_semicolons_only() {
    let content = "Word,kind;Meaning\n\"a;b\";c,d\n";
    let (headers, rows) = read_and_process_csv_with_headers(content.as_bytes(), 5).unwrap();
    assert_eq!(headers, vec!["Word,kind", "Meaning"]);
    assert_eq!(rows, vec![vec!["a;b", "c,d"]]);
}

#[test]
fn empty_content_is_an_empty_table() {
    let (headers, rows) = read_and_process_csv_with_headers(b"", 5).unwrap();
    assert!(headers.is_empty());
    assert!(rows.is_empty());
}

#[test]
fn rows_of_unequal_length_are_malformed() {
    let content = "Q;A\n1;a\n2;b;extra\n";
    assert_eq!(
        read_and_process_csv_with_headers(content.as_bytes(), 5),
        Err(LoadError::Malformed)
    );
}

#[test]
fn a_header_that_is_not_text_is_malformed() {
    let content: &[u8] = &[0xff, 0xfe, b';', b'A', b'\n', b'1', b';', b'a', b'\n'];
    assert_eq!(read_and_process_csv_with_headers(content, 5), Err(LoadError::Malformed));
}

#[test]
fn a_row_that_is_not_text_is_malformed() {
    let content: &[u8] = &[b'Q', b';', b'A', b'\n', 0xff, b';', b'a', b'\n'];
    assert_eq!(read_and_process_csv_with_headers(content, 5), Err(LoadError::Malformed));
}

#[test]
fn every_failure_has_its_words() {
    assert_eq!(LoadError::NoFileSelected.message(), "No file selected");
    assert_eq!(LoadError::EmptySelection.message(), "No rows to study");
    assert_eq!(LoadError::Malformed.message(), "Malformed file");
    assert_eq!(LoadError::Unreadable.message(), "File could not be read");
}
