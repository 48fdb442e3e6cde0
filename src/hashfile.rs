//! Checksum listings: lines of the form `[<algorithm>] <digest> [*]<path>`.
use crate::algorithm::{algorithm_from_name, algorithm_named, Algorithm, Mode};
use crate::text::{split_tokens, tokens, views, white_space};
use vstd::prelude::*;
use vstd::string::StrSliceExecFns;

verus! {

/// Why a listing could not be parsed.
#[derive(Debug, Clone, Copy, PartialEq, Eq, Structural)]
pub enum ParseError {
    /// A line lacks its digest or its path.
    Format,
    /// An algorithm token names no known algorithm.
    UnknownAlgorithm,
}

/// The fields of an entry: algorithm, digest, mode and path.
pub type EntryView = (Option<Algorithm>, Seq<char>, Mode, Seq<char>);

/// One line of a listing.
#[derive(Debug)]
pub struct HashEntry {
    /// The algorithm named on the line; absent where the line has two fields.
    pub algorithm: Option<Algorithm>,
    /// The recorded digest, verbatim.
    pub hash: String,
    pub mode: Mode,
    /// The path, without the `*` that marks binary mode.
    pub file: String,
}

impl View for HashEntry {
    type V = EntryView;

    open spec fn view(&self) -> EntryView {
        (self.algorithm, self.hash@, self.mode, self.file@)
    }
}

/// The entry made of a digest token and a path token: a leading `*` on the
/// path marks binary mode and is not part of the path, which must not be empty.
pub open spec fn entry_of(algorithm: Option<Algorithm>, hash: Seq<char>, file: Seq<char>) -> Result<
    EntryView,
    ParseError,
> {
    if file.len() > 0 && file[0] == '*' {
        if file.len() == 1 {
            Err(ParseError::Format)
        } else {
            Ok((algorithm, hash, Mode::Binary, file.drop_first()))
        }
    } else {
        Ok((algorithm, hash, Mode::Text, file))
    }
}

/// A `*` in front of a path token changes only the mode: algorithm, digest
/// and path stay the same, so a verification reads the same file against the
/// same digest either way.
pub proof fn lemma_star_changes_only_mode(algorithm: Option<Algorithm>, hash: Seq<char>, file: Seq<char>)
    requires
        file.len() > 0,
        file[0] != '*',
    ensures
        entry_of(algorithm, hash, file) == Ok::<EntryView, ParseError>(
            (algorithm, hash, Mode::Text, file),
        ),
        entry_of(algorithm, hash, seq!['*'] + file) == Ok::<EntryView, ParseError>(
            (algorithm, hash, Mode::Binary, file),
        ),
{
    assert((seq!['*'] + file).drop_first() =~= file);
}

/// What a line of a listing denotes. Two tokens are a digest and a path;
/// three or more are an algorithm, a digest and a path, and the rest is not read.
pub open spec fn line_entry(line: Seq<char>) -> Result<EntryView, ParseError> {
    let t = tokens(line);
    if t.len() < 2 {
        Err(ParseError::Format)
    } else if t.len() == 2 {
        entry_of(None, t[0], t[1])
    } else {
        match algorithm_named(t[0]) {
            None => Err(ParseError::UnknownAlgorithm),
            Some(a) => entry_of(Some(a), t[1], t[2]),
        }
    }
}

pub proof fn lemma_tokens_nonempty(s: Seq<char>)
    ensures
        forall|i: int| 0 <= i < tokens(s).len() ==> #[trigger] tokens(s)[i].len() > 0,
        s.len() > 0 && !white_space(s.last()) ==> tokens(s).len() > 0,
    decreases s.len(),
{
    if s.len() > 0 {
        let prev = tokens(s.drop_last());
        lemma_tokens_nonempty(s.drop_last());
        if s.len() > 1 {
            assert(s.drop_last().last() == s[s.len() - 2]);
        }
        let t = tokens(s);
        assert forall|i: int| 0 <= i < t.len() implies #[trigger] t[i].len() > 0 by {
            if i < prev.len() - 1 || (i == prev.len() - 1 && t.len() > prev.len()) {
                assert(t[i] == prev[i]);
            }
        }
    }
}

/// A parsed entry always has a non-empty digest and a non-empty path.
pub proof fn lemma_entry_fields_nonempty(line: Seq<char>)
    requires
        line_entry(line) is Ok,
    ensures
        line_entry(line)->Ok_0.1.len() > 0,
        line_entry(line)->Ok_0.3.len() > 0,
{
    lemma_tokens_nonempty(line);
}

impl HashEntry {
    /// Parses one line of a listing.
    pub fn parse_line(s: &str) -> (r: Result<HashEntry, ParseError>)
        ensures
            match r {
                Ok(e) => line_entry(s@) == Ok::<EntryView, ParseError>(e@),
                Err(err) => line_entry(s@) == Err::<EntryView, ParseError>(err),
            },
    {
        let toks = split_tokens(s);
        let ghost t = tokens(s@);
        assert(forall|i: int| 0 <= i < toks@.len() ==> #[trigger] t[i] == toks@[i]@);
        if toks.len() < 2 {
            return Err(ParseError::Format);
        }
        let algorithm: Option<Algorithm>;
        let hash_at: usize;
        if toks.len() == 2 {
            algorithm = None;
            hash_at = 0;
        } else {
            match algorithm_from_name(toks[0].as_str()) {
                None => {
                    return Err(ParseError::UnknownAlgorithm);
                },
                Some(a) => {
                    algorithm = Some(a);
                    hash_at = 1;
                },
            }
        }
        let hash = toks[hash_at].clone();
        let file_token = toks[hash_at + 1].as_str();
        let n = file_token.unicode_len();
        if n > 0 && file_token.get_char(0) == '*' {
            if n == 1 {
                return Err(ParseError::Format);
            }
            let file = file_token.substring_char(1, n).to_owned();
            assert(file@ =~= file_token@.drop_first());
            Ok(HashEntry { algorithm, hash, mode: Mode::Binary, file })
        } else {
            let file = file_token.to_owned();
            Ok(HashEntry { algorithm, hash, mode: Mode::Text, file })
        }
    }
}

impl std::str::FromStr for HashEntry {
    type Err = ParseError;

    fn from_str(s: &str) -> (r: Result<HashEntry, ParseError>)
        ensures
            match r {
                Ok(e) => line_entry(s@) == Ok::<EntryView, ParseError>(e@),
                Err(err) => line_entry(s@) == Err::<EntryView, ParseError>(err),
            },
    {
        HashEntry::parse_line(s)
    }
}

/// A parsed listing.
#[derive(Debug)]
pub struct HashFile {
    /// An algorithm for every entry that names none; listings carry no such
    /// header, so parsing leaves it absent.
    pub algorithm: Option<Algorithm>,
    pub entries: Vec<HashEntry>,
}

pub open spec fn entry_views(v: Seq<HashEntry>) -> Seq<EntryView> {
    v.map_values(|e: HashEntry| e@)
}

/// The entries of a listing's lines in order, or the error of its first bad line.
pub open spec fn listing_entries(lines: Seq<Seq<char>>) -> Result<Seq<EntryView>, ParseError>
    decreases lines.len(),
{
    if lines.len() == 0 {
        Ok(seq![])
    } else {
        match listing_entries(lines.drop_last()) {
            Err(e) => Err(e),
            Ok(es) => match line_entry(lines.last()) {
                Err(e) => Err(e),
                Ok(x) => Ok(es.push(x)),
            },
        }
    }
}

proof fn lemma_error_persists(lines: Seq<Seq<char>>, i: int, e: ParseError)
    requires
        0 <= i <= lines.len(),
        listing_entries(lines.subrange(0, i)) == Err::<Seq<EntryView>, ParseError>(e),
    ensures
        listing_entries(lines) == Err::<Seq<EntryView>, ParseError>(e),
    decreases lines.len() - i,
{
    if i == lines.len() {
        assert(lines.subrange(0, i) =~= lines);
    } else {
        assert(lines.subrange(0, i + 1).drop_last() =~= lines.subrange(0, i));
        lemma_error_persists(lines, i + 1, e);
    }
}

proof fn lemma_valid_prefix(lines: Seq<Seq<char>>)
    requires
        forall|j: int| 0 <= j < lines.len() ==> #[trigger] line_entry(lines[j]) is Ok,
    ensures
        listing_entries(lines) is Ok,
    decreases lines.len(),
{
    if lines.len() > 0 {
        lemma_valid_prefix(lines.drop_last());
    }
}

/// A line with fewer than two tokens fails the whole listing with a format
/// error, however many valid lines precede it.
pub proof fn lemma_short_line_rejects_listing(lines: Seq<Seq<char>>, k: int)
    requires
        0 <= k < lines.len(),
        tokens(lines[k]).len() < 2,
        forall|j: int| 0 <= j < k ==> #[trigger] line_entry(lines[j]) is Ok,
    ensures
        listing_entries(lines) == Err::<Seq<EntryView>, ParseError>(ParseError::Format),
{
    let prefix = lines.subrange(0, k);
    assert forall|j: int| 0 <= j < prefix.len() implies #[trigger] line_entry(prefix[j]) is Ok by {
        assert(prefix[j] == lines[j]);
    }
    lemma_valid_prefix(prefix);
    assert(lines.subrange(0, k + 1).drop_last() =~= prefix);
    lemma_error_persists(lines, k + 1, ParseError::Format);
}

impl HashFile {
    /// Parses a listing given as its lines; the first bad line fails the whole listing.
    pub fn parse(lines: &Vec<String>) -> (r: Result<HashFile, ParseError>)
        ensures
            match r {
                Ok(f) => f.algorithm is None && listing_entries(views(lines@)) == Ok::<
                    Seq<EntryView>,
                    ParseError,
                >(entry_views(f.entries@)),
                Err(e) => listing_entries(views(lines@)) == Err::<Seq<EntryView>, ParseError>(e),
            },
    {
        let ghost all = views(lines@);
        let mut entries: Vec<HashEntry> = Vec::new();
        let mut i: usize = 0;
        assert(all.subrange(0, 0) =~= Seq::<Seq<char>>::empty());
        assert(entry_views(entries@) =~= Seq::<EntryView>::empty());
        while i < lines.len()
            invariant
                all == views(lines@),
                i <= lines@.len(),
                listing_entries(all.subrange(0, i as int)) == Ok::<Seq<EntryView>, ParseError>(
                    entry_views(entries@),
                ),
            decreases lines@.len() - i,
        {
            let ghost next = all.subrange(0, i + 1);
            assert(next.drop_last() =~= all.subrange(0, i as int));
            assert(next.last() == lines@[i as int]@);
            match HashEntry::parse_line(lines[i].as_str()) {
                Err(e) => {
                    proof {
                        lemma_error_persists(all, i + 1, e);
                    }
                    return Err(e);
                },
                Ok(entry) => {
                    let ghost old_entries = entries@;
                    entries.push(entry);
                    assert(entry_views(entries@) =~= entry_views(old_entries).push(entry@));
                },
            }
            i = i + 1;
        }
        assert(all.subrange(0, lines@.len() as int) =~= all);
        Ok(HashFile { algorithm: None, entries })
    }
}

} // verus!
