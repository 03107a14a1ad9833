//! The deck loader: from the bytes of a delimited file to its header row and a
//! bounded random sample of its data rows.
//!
//! The `csv` crate parses and the `rand` crate draws the sample. What they
//! return is taken on trust, as the contracts of [`header_row`],
//! [`data_rows`] and [`choose_rows`] state it; everything else is proved.

use rand::seq::SliceRandom;
use vstd::prelude::*;

verus! {

/// The delimiter between the fields of a record: a semicolon.
pub const DELIMITER: u8 = 59;

/// Why a deck could not be loaded.
#[derive(Clone, Copy, Debug, PartialEq, Eq, Structural)]
pub enum LoadError {
    /// No file has been picked in the browser.
    NoFileSelected,
    /// No rows were supplied.
    EmptySelection,
    /// The parser rejected the file.
    Malformed,
    /// The file could not be read.
    Unreadable,
}

impl LoadError {
    /// The failure in words, as it is shown to the user.
    pub open spec fn message_text(self) -> Seq<char> {
        match self {
            LoadError::NoFileSelected => "No file selected"@,
            LoadError::EmptySelection => "No rows to study"@,
            LoadError::Malformed => "Malformed file"@,
            LoadError::Unreadable => "File could not be read"@,
        }
    }

    /// The failure in words, as it is shown to the user.
    pub fn message(&self) -> (text: String)
        ensures
            text@ == self.message_text(),
    {
        match self {
            LoadError::NoFileSelected => "No file selected".to_owned(),
            LoadError::EmptySelection => "No rows to study".to_owned(),
            LoadError::Malformed => "Malformed file".to_owned(),
            LoadError::Unreadable => "File could not be read".to_owned(),
        }
    }
}

/// The parser's error. Nothing is read from it; it is told apart from success
/// and replaced by [`LoadError::Malformed`].
#[verifier::external_type_specification]
#[verifier::external_body]
pub struct ExCsvError(csv::Error);

/// The header row that the `csv` parser finds in `content` when fields are
/// separated by `delimiter`, or `None` where it reports an error.
pub uninterp spec fn csv_headers(content: Seq<u8>, delimiter: u8) -> Option<Seq<Seq<char>>>;

/// The data rows that the `csv` parser finds after the header row of `content`
/// when fields are separated by `delimiter`, in the order of the file, or
/// `None` where it reports an error on any of them.
pub uninterp spec fn csv_records(content: Seq<u8>, delimiter: u8) -> Option<
    Seq<Seq<Seq<char>>>,
>;

/// A header row and all data rows.
pub type Table = (Seq<Seq<char>>, Seq<Seq<Seq<char>>>);

/// What the parser makes of `content`: the header row and all data rows, or
/// `None` where it rejects either.
pub open spec fn parsed(content: Seq<u8>) -> Option<Table> {
    match (csv_headers(content, DELIMITER), csv_records(content, DELIMITER)) {
        (Some(headers), Some(rows)) => Some((headers, rows)),
        _ => None,
    }
}

/// `picks` names `count` different rows of a source of `len` rows.
pub open spec fn are_distinct_picks(picks: Seq<int>, count: int, len: int) -> bool {
    &&& picks.len() == count
    &&& picks.no_duplicates()
    &&& forall|i: int| 0 <= i < picks.len() ==> 0 <= #[trigger] picks[i] < len
}

/// `sample` is a draw of `amount` rows from `source` without replacement: it
/// holds `amount` rows, or all of them where `source` has fewer, and each one
/// comes from a source row of its own.
pub open spec fn is_sample_of(
    sample: Seq<Seq<Seq<char>>>,
    source: Seq<Seq<Seq<char>>>,
    amount: nat,
) -> bool {
    &&& sample.len() == if amount <= source.len() {
        amount
    } else {
        source.len()
    }
    &&& exists|picks: Seq<int>|
        {
            &&& #[trigger] are_distinct_picks(picks, sample.len() as int, source.len() as int)
            &&& forall|i: int| 0 <= i < sample.len() ==> sample[i] == source[picks[i]]
        }
}

/// Calls `csv::Reader::headers` on a reader over `content` that expects a
/// header row and splits fields at `delimiter`.
///
/// Trusted: the fields returned are the header row that the parser finds; an
/// error is returned exactly where the parser reports one.
#[verifier::external_body]
fn header_row(content: &[u8], delimiter: u8) -> (row: Result<Vec<String>, csv::Error>)
    ensures
        match row {
            Ok(fields) => csv_headers(content@, delimiter) == Some(fields.deep_view()),
            Err(_) => csv_headers(content@, delimiter) is None,
        },
{
    let mut reader =
        csv::ReaderBuilder::new().has_headers(true).delimiter(delimiter).from_reader(content);
    let headers = reader.headers()?;
    Ok(headers.iter().map(|field| field.to_string()).collect())
}

/// Calls `csv::Reader::records` on a reader over `content` that expects a
/// header row and splits fields at `delimiter`, and collects the records up to
/// the first error.
///
/// Trusted: the rows returned are the data rows that the parser finds, in
/// order; an error is returned exactly where the parser reports one.
#[verifier::external_body]
fn data_rows(content: &[u8], delimiter: u8) -> (rows: Result<Vec<Vec<String>>, csv::Error>)
    ensures
        match rows {
            Ok(all) => csv_records(content@, delimiter) == Some(all.deep_view()),
            Err(_) => csv_records(content@, delimiter) is None,
        },
{
    let mut reader =
        csv::ReaderBuilder::new().has_headers(true).delimiter(delimiter).from_reader(content);
    let records = reader.records();
    records.map(|rec| rec.map(|r| r.iter().map(|field| field.to_string()).collect())).collect()
}

/// Calls `rand::seq::SliceRandom::choose_multiple` on `rows` with the
/// thread's generator, and copies the rows drawn.
///
/// Trusted: the draw holds `amount` rows, or all of them where there are
/// fewer, each from a source row of its own. Which rows, and in what order, is
/// left open: two calls may differ.
#[verifier::external_body]
fn choose_rows(rows: &Vec<Vec<String>>, amount: usize) -> (sample: Vec<Vec<String>>)
    ensures
        is_sample_of(sample.deep_view(), rows.deep_view(), amount as nat),
{
    let mut rng = rand::thread_rng();
    rows.choose_multiple(&mut rng, amount).cloned().collect()
}

/// Parses `content` and draws at most `n` of its data rows at random, without
/// replacement.
///
/// Returns the header row and the sample, or [`LoadError::Malformed`] exactly
/// where the parser rejects the header row or a data row.
pub fn read_and_process_csv_with_headers(content: &[u8], n: usize) -> (loaded: Result<
    (Vec<String>, Vec<Vec<String>>),
    LoadError,
>)
    ensures
        match loaded {
            Ok((headers, rows)) => {
                &&& parsed(content@) matches Some((all_headers, all_rows))
                &&& headers.deep_view() == all_headers
                &&& is_sample_of(rows.deep_view(), all_rows, n as nat)
            },
            Err(error) => error == LoadError::Malformed && parsed(content@) is None,
        },
{
    let headers = match header_row(content, DELIMITER) {
        Ok(fields) => fields,
        Err(_) => {
            return Err(LoadError::Malformed);
        },
    };
    let records = match data_rows(content, DELIMITER) {
        Ok(all) => all,
        Err(_) => {
            return Err(LoadError::Malformed);
        },
    };
    let sample = choose_rows(&records, n);
    Ok((headers, sample))
}

/// The size of a sample is the smaller of what was asked for and what the
/// source holds: all rows of a source that has fewer than asked for, and
/// exactly as many as asked for otherwise. Every row of it is a row of the
/// source, and no source row is drawn twice.
pub proof fn lemma_sample_bound(
    sample: Seq<Seq<Seq<char>>>,
    source: Seq<Seq<Seq<char>>>,
    amount: nat,
)
    requires
        is_sample_of(sample, source, amount),
    ensures
        source.len() < amount ==> sample.len() == source.len(),
        amount <= source.len() ==> sample.len() == amount,
        forall|i: int| 0 <= i < sample.len() ==> source.contains(#[trigger] sample[i]),
        exists|picks: Seq<int>|
            {
                &&& #[trigger] are_distinct_picks(picks, sample.len() as int, source.len() as int)
                &&& forall|i: int, j: int|
                    0 <= i < j < sample.len() ==> picks[i] != picks[j] && sample[i]
                        == source[picks[i]] && sample[j] == source[picks[j]]
            },
{
    let picks = choose|picks: Seq<int>|
        {
            &&& #[trigger] are_distinct_picks(picks, sample.len() as int, source.len() as int)
            &&& forall|i: int| 0 <= i < sample.len() ==> sample[i] == source[picks[i]]
        };
    assert forall|i: int| 0 <= i < sample.len() implies source.contains(#[trigger] sample[i]) by {
        assert(0 <= picks[i] < source.len());
        assert(source[picks[i]] == sample[i]);
    }
    assert(are_distinct_picks(picks, sample.len() as int, source.len() as int));
}

} // verus!
