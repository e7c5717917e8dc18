//! Locating the executable inside a downloaded zip archive.
//!
//! Matching is deliberately permissive: the first entry, in index order,
//! whose name ends with or contains the configured relative path is the one
//! that is extracted. Distributions differ in their top-level directory, and
//! this tolerates that.

use std::io::Cursor;
use std::io::Read;
use vstd::prelude::*;
use vstd::string::*;
use zip::ZipArchive;

use crate::error::{Error, ErrorView};
use crate::models::texts;
use crate::text::{contains, ends_with, lemma_suffix_is_substring, str_contains, str_ends_with};

verus! {

/// `zip::ZipArchive`, the reader of an archive over any source of bytes.
/// Nothing is known of what is inside a value but what `archive_entries`
/// says.
#[verifier::external_type_specification]
#[verifier::external_body]
#[verifier::reject_recursive_types(R)]
pub struct ExZipArchive<R>(ZipArchive<R>);

/// `std::io::Cursor`, which makes bytes in memory a source that can be read
/// and sought in. It is only ever handed to the archive reader.
#[verifier::external_type_specification]
#[verifier::external_body]
#[verifier::reject_recursive_types(T)]
pub struct ExCursor<T>(Cursor<T>);

/// What an opened archive holds: for each entry, in index order, its name
/// and what reading it gives. That is the entry's data, or the text of the
/// failure: the outer one where the entry cannot be opened, the inner one
/// where it opens but its data cannot be read.
pub uninterp spec fn archive_entries(archive: ZipArchive<Cursor<Vec<u8>>>) -> Seq<
    (Seq<char>, Result<Result<Seq<u8>, Seq<char>>, Seq<char>>),
>;

/// What `bytes` hold when read as a zip archive: the entries of the archive
/// that opening them gives, or the text of the failure to open them.
pub uninterp spec fn zip_entries(bytes: Seq<u8>) -> Result<
    Seq<(Seq<char>, Result<Result<Seq<u8>, Seq<char>>, Seq<char>>)>,
    Seq<char>,
>;

/// `ZipArchive::new` on an in-memory reader, the error rendered as text.
/// Opening is a function of the bytes alone: what it gives is what
/// `zip_entries` names.
#[verifier::external_body]
fn open_archive(bytes: Vec<u8>) -> (r: Result<ZipArchive<Cursor<Vec<u8>>>, String>)
    ensures
        match r {
            Ok(archive) => zip_entries(bytes@) == Ok::<_, Seq<char>>(archive_entries(archive)),
            Err(text) => zip_entries(bytes@) == Err::<
                Seq<(Seq<char>, Result<Result<Seq<u8>, Seq<char>>, Seq<char>>)>,
                _,
            >(text@),
        },
{
    match ZipArchive::new(Cursor::new(bytes)) {
        Ok(archive) => Ok(archive),
        Err(e) => Err(e.to_string()),
    }
}

/// `ZipArchive::len`: the number of entries.
#[verifier::external_body]
fn entry_count(archive: &ZipArchive<Cursor<Vec<u8>>>) -> (n: usize)
    ensures
        n == archive_entries(*archive).len(),
{
    archive.len()
}

/// `ZipArchive::name_for_index`: the name of the entry at `index`, which is
/// present exactly for the indices below the entry count.
#[verifier::external_body]
fn entry_name(archive: &ZipArchive<Cursor<Vec<u8>>>, index: usize) -> (name: Option<String>)
    ensures
        match name {
            Some(n) => index < archive_entries(*archive).len() && n@ == archive_entries(
                *archive,
            )[index as int].0,
            None => index >= archive_entries(*archive).len(),
        },
{
    match archive.name_for_index(index) {
        Some(name) => Some(name.to_string()),
        None => None,
    }
}

/// `ZipArchive::by_index`, then `Read::read_to_end` on the entry it gives,
/// each error rendered as text. Neither call changes what the archive
/// holds, and what comes back is what the archive holds at `index`.
#[verifier::external_body]
fn read_entry(archive: &mut ZipArchive<Cursor<Vec<u8>>>, index: usize) -> (r: Result<
    Result<Vec<u8>, String>,
    String,
>)
    requires
        index < archive_entries(*old(archive)).len(),
    ensures
        archive_entries(*final(archive)) == archive_entries(*old(archive)),
        read_text(r) == archive_entries(*old(archive))[index as int].1,
{
    let mut entry = match archive.by_index(index) {
        Ok(entry) => entry,
        Err(e) => return Err(e.to_string()),
    };
    let mut data = Vec::new();
    match entry.read_to_end(&mut data) {
        Ok(_) => Ok(Ok(data)),
        Err(e) => Ok(Err(e.to_string())),
    }
}

/// What the reading of an entry gave, as plain values.
pub open spec fn read_text(r: Result<Result<Vec<u8>, String>, String>) -> Result<
    Result<Seq<u8>, Seq<char>>,
    Seq<char>,
> {
    match r {
        Ok(Ok(data)) => Ok(Ok(data@)),
        Ok(Err(text)) => Ok(Err(text@)),
        Err(text) => Err(text@),
    }
}

/// Whether an entry of this name is taken for the executable at `pattern`.
pub open spec fn matches_entry(name: Seq<char>, pattern: Seq<char>) -> bool {
    ends_with(name, pattern) || contains(name, pattern)
}

/// Whether `index` is the first of `names` that matches `pattern`.
pub open spec fn is_first_match(names: Seq<Seq<char>>, pattern: Seq<char>, index: int) -> bool {
    &&& 0 <= index < names.len()
    &&& matches_entry(names[index], pattern)
    &&& forall|j: int| 0 <= j < index ==> !matches_entry(#[trigger] names[j], pattern)
}

/// Whether none of `names` matches `pattern`.
pub open spec fn no_match(names: Seq<Seq<char>>, pattern: Seq<char>) -> bool {
    forall|j: int| 0 <= j < names.len() ==> !matches_entry(#[trigger] names[j], pattern)
}

/// The index of the first of `names` that matches `pattern`, if any does.
pub open spec fn first_match(names: Seq<Seq<char>>, pattern: Seq<char>) -> Option<int> {
    if exists|i: int| is_first_match(names, pattern, i) {
        Some(choose|i: int| is_first_match(names, pattern, i))
    } else {
        None
    }
}

/// The names of a list of entries.
pub open spec fn names_of(
    entries: Seq<(Seq<char>, Result<Result<Seq<u8>, Seq<char>>, Seq<char>>)>,
) -> Seq<Seq<char>> {
    entries.map_values(|e: (Seq<char>, Result<Result<Seq<u8>, Seq<char>>, Seq<char>>)| e.0)
}

/// The message of the failure to find `pattern` in an archive.
pub open spec fn not_found_message(pattern: Seq<char>) -> Seq<char> {
    "Could not find executable at path: "@ + pattern
}

/// What extracting `pattern` from an archive gives: the data of the first
/// matching entry; an extraction failure where no entry matches; a zip
/// failure where the archive or the matching entry cannot be opened; an I/O
/// failure where the entry's data cannot be read.
pub open spec fn extraction(
    archive: Result<Seq<(Seq<char>, Result<Result<Seq<u8>, Seq<char>>, Seq<char>>)>, Seq<char>>,
    pattern: Seq<char>,
) -> Result<Seq<u8>, ErrorView> {
    match archive {
        Err(text) => Err(ErrorView::Zip(text)),
        Ok(entries) => match first_match(names_of(entries), pattern) {
            None => Err(ErrorView::Extraction(not_found_message(pattern))),
            Some(i) => match entries[i].1 {
                Ok(Ok(data)) => Ok(data),
                Ok(Err(text)) => Err(ErrorView::Io(text)),
                Err(text) => Err(ErrorView::Zip(text)),
            },
        },
    }
}

/// Data or an error, as plain values.
pub open spec fn data_view(r: Result<Vec<u8>, Error>) -> Result<Seq<u8>, ErrorView> {
    match r {
        Ok(data) => Ok(data@),
        Err(e) => Err(e@),
    }
}

/// Among names there is one first match at most, and `first_match` is it.
pub proof fn lemma_first_match_is(names: Seq<Seq<char>>, pattern: Seq<char>, index: int)
    requires
        is_first_match(names, pattern, index),
    ensures
        first_match(names, pattern) == Some(index),
{
    let other = choose|i: int| is_first_match(names, pattern, i);
    if other < index {
        assert(!matches_entry(names[other], pattern));
    } else if index < other {
        assert(!matches_entry(names[index], pattern));
    }
}

/// There is a first match exactly where some name matches.
pub proof fn lemma_first_match_exists(names: Seq<Seq<char>>, pattern: Seq<char>)
    ensures
        first_match(names, pattern) is None <==> no_match(names, pattern),
        first_match(names, pattern) matches Some(i) ==> is_first_match(names, pattern, i),
{
    if no_match(names, pattern) {
        if first_match(names, pattern) is Some {
            let i = choose|i: int| is_first_match(names, pattern, i);
            assert(!matches_entry(names[i], pattern));
        }
    } else {
        let k = choose|j: int| 0 <= j < names.len() && matches_entry(#[trigger] names[j], pattern);
        lemma_least_match(names, pattern, k);
    }
}

/// Where the name at `upto` matches, some name is the first to match.
proof fn lemma_least_match(names: Seq<Seq<char>>, pattern: Seq<char>, upto: int)
    requires
        0 <= upto < names.len(),
        matches_entry(names[upto], pattern),
    ensures
        exists|i: int| is_first_match(names, pattern, i),
    decreases upto,
{
    if exists|j: int| 0 <= j < upto && matches_entry(#[trigger] names[j], pattern) {
        let j = choose|j: int| 0 <= j < upto && matches_entry(#[trigger] names[j], pattern);
        lemma_least_match(names, pattern, j);
    } else {
        assert(is_first_match(names, pattern, upto));
    }
}

/// Matching is by substring: an entry matches exactly where its name
/// contains the pattern, at its end or anywhere else.
pub proof fn lemma_matching_is_containment(name: Seq<char>, pattern: Seq<char>)
    ensures
        matches_entry(name, pattern) <==> contains(name, pattern),
        ends_with(name, pattern) ==> matches_entry(name, pattern),
{
    if ends_with(name, pattern) {
        lemma_suffix_is_substring(name, pattern);
    }
}

/// An archive fails to yield the executable for want of a match exactly
/// where none of its entries matches; otherwise what comes of the
/// extraction is what reading the first match gives.
pub proof fn lemma_extraction_by_first_match(
    entries: Seq<(Seq<char>, Result<Result<Seq<u8>, Seq<char>>, Seq<char>>)>,
    pattern: Seq<char>,
)
    ensures
        no_match(names_of(entries), pattern) <==> extraction(Ok(entries), pattern) == Err::<
            Seq<u8>,
            ErrorView,
        >(ErrorView::Extraction(not_found_message(pattern))),
        forall|i: int|
            is_first_match(names_of(entries), pattern, i) ==> extraction(Ok(entries), pattern)
                == match (#[trigger] entries[i]).1 {
                Ok(Ok(data)) => Ok::<Seq<u8>, ErrorView>(data),
                Ok(Err(text)) => Err(ErrorView::Io(text)),
                Err(text) => Err(ErrorView::Zip(text)),
            },
{
    lemma_first_match_exists(names_of(entries), pattern);
    assert forall|i: int| is_first_match(names_of(entries), pattern, i) implies extraction(
        Ok(entries),
        pattern,
    ) == match (#[trigger] entries[i]).1 {
        Ok(Ok(data)) => Ok::<Seq<u8>, ErrorView>(data),
        Ok(Err(text)) => Err(ErrorView::Io(text)),
        Err(text) => Err(ErrorView::Zip(text)),
    } by {
        lemma_first_match_is(names_of(entries), pattern, i);
    }
}

/// Whether an entry called `name` is taken for the executable at `pattern`.
pub fn entry_matches(name: &str, pattern: &str) -> (r: bool)
    ensures
        r == matches_entry(name@, pattern@),
{
    str_ends_with(name, pattern) || str_contains(name, pattern)
}

/// The index of the first name that matches `pattern`, if any does.
pub fn find_executable(names: &Vec<String>, pattern: &str) -> (r: Option<usize>)
    ensures
        match r {
            Some(i) => first_match(texts(names@), pattern@) == Some(i as int),
            None => first_match(texts(names@), pattern@) is None,
        },
{
    let mut i: usize = 0;
    while i < names.len()
        invariant
            i <= names.len(),
            forall|j: int| 0 <= j < i ==> !matches_entry(#[trigger] texts(names@)[j], pattern@),
        decreases names.len() - i,
    {
        if entry_matches(names[i].as_str(), pattern) {
            proof {
                lemma_first_match_is(texts(names@), pattern@, i as int);
            }
            return Some(i);
        }
        i += 1;
    }
    proof {
        lemma_first_match_exists(texts(names@), pattern@);
    }
    None
}

/// The names of the entries of an archive, in index order.
fn entry_names(archive: &ZipArchive<Cursor<Vec<u8>>>) -> (names: Vec<String>)
    ensures
        texts(names@) == names_of(archive_entries(*archive)),
{
    let count = entry_count(archive);
    let mut names: Vec<String> = Vec::new();
    let mut i: usize = 0;
    while i < count
        invariant
            i <= count,
            count == archive_entries(*archive).len(),
            names.len() == i,
            forall|j: int|
                0 <= j < i ==> (#[trigger] names@[j])@ == archive_entries(*archive)[j].0,
        decreases count - i,
    {
        if let Some(name) = entry_name(archive, i) {
            names.push(name);
            i += 1;
        }
    }
    assert(texts(names@) =~= names_of(archive_entries(*archive)));
    names
}

/// Extracts the executable from an opened archive.
fn extract_from(archive: &mut ZipArchive<Cursor<Vec<u8>>>, pattern: &str) -> (r: Result<
    Vec<u8>,
    Error,
>)
    ensures
        archive_entries(*final(archive)) == archive_entries(*old(archive)),
        data_view(r) == extraction(Ok(archive_entries(*old(archive))), pattern@),
{
    let names = entry_names(archive);
    match find_executable(&names, pattern) {
        Some(i) => {
            proof {
                lemma_first_match_exists(texts(names@), pattern@);
            }
            match read_entry(archive, i) {
                Ok(Ok(data)) => Ok(data),
                Ok(Err(text)) => Err(Error::Io(text)),
                Err(text) => Err(Error::Zip(text)),
            }
        },
        None => Err(
            Error::Extraction(
                String::from_str("Could not find executable at path: ").concat(pattern),
            ),
        ),
    }
}

/// Extracts the executable from the bytes of a zip archive: the data of the
/// first entry, in index order, whose name ends with or contains `pattern`.
///
/// Fails with a zip error where the bytes are no archive or the matching
/// entry cannot be opened, with an extraction error where no entry matches,
/// and with an I/O error where the matching entry's data cannot be read.
pub fn extract_archive(bytes: Vec<u8>, pattern: &str) -> (r: Result<Vec<u8>, Error>)
    ensures
        data_view(r) == extraction(zip_entries(bytes@), pattern@),
{
    match open_archive(bytes) {
        Ok(archive) => {
            let mut archive = archive;
            extract_from(&mut archive, pattern)
        },
        Err(text) => Err(Error::Zip(text)),
    }
}

} // verus!
