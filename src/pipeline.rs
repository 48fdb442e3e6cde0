//! Collecting and rendering results: hash mode drops directories, fails on
//! the first other failure and orders records by path; verify mode compares
//! recomputed digests with the recorded ones.
use crate::algorithm::{hex_digest, Algorithm, Mode};
use crate::hashfile::{HashEntry, HashFile};
use crate::text::{
    lemma_text_le_antisymmetric, lemma_text_le_reflexive, lemma_text_le_total,
    lemma_text_le_transitive, text_eq, text_le, text_le_exec,
};
use vstd::prelude::*;
use vstd::relations::{sorted_by, total_ordering};
use vstd::seq_lib::lemma_sorted_unique;
use vstd::string::StrSliceExecFns;
use vstd::string::StringExecFns;

verus! {

/// What hashing one path gave.
#[derive(Debug)]
pub enum Outcome {
    /// The path's digest, in hexadecimal.
    Digest(String),
    /// The path is a directory; it is left out without error.
    Directory,
    /// Any other failure; it fails the whole batch.
    Failed,
}

/// A hash-mode record: path and digest.
pub type Record = (Seq<char>, Seq<char>);

/// Records are ordered by path, byte-wise; equal paths by digest.
pub open spec fn record_le(x: Record, y: Record) -> bool {
    if x.0 == y.0 {
        text_le(x.1, y.1)
    } else {
        text_le(x.0, y.0)
    }
}

pub open spec fn record_order() -> spec_fn(Record, Record) -> bool {
    |x: Record, y: Record| record_le(x, y)
}

pub proof fn lemma_record_order_total()
    ensures
        total_ordering(record_order()),
{
    let r = record_order();
    assert forall|x: Record| #[trigger] r(x, x) by {
        lemma_text_le_reflexive(x.1);
    }
    assert forall|x: Record, y: Record| #[trigger] r(x, y) && #[trigger] r(y, x) implies x == y by {
        if x.0 == y.0 {
            lemma_text_le_antisymmetric(x.1, y.1);
        } else {
            lemma_text_le_antisymmetric(x.0, y.0);
        }
    }
    assert forall|x: Record, y: Record, z: Record| #[trigger] r(x, y) && #[trigger] r(y, z) implies r(
        x,
        z,
    ) by {
        if x.0 == y.0 && y.0 == z.0 {
            lemma_text_le_transitive(x.1, y.1, z.1);
        } else if x.0 == y.0 || y.0 == z.0 {
        } else {
            lemma_text_le_transitive(x.0, y.0, z.0);
            if x.0 == z.0 {
                lemma_text_le_antisymmetric(x.0, y.0);
            }
        }
    }
    assert forall|x: Record, y: Record| #[trigger] r(x, y) || #[trigger] r(y, x) by {
        lemma_text_le_total(x.0, y.0);
        lemma_text_le_total(x.1, y.1);
    }
}

/// The records of the paths that were hashed, in input order.
pub open spec fn digested(items: Seq<(String, Outcome)>) -> Seq<Record>
    decreases items.len(),
{
    if items.len() == 0 {
        seq![]
    } else {
        let rest = digested(items.drop_last());
        match items.last().1 {
            Outcome::Digest(d) => rest.push((items.last().0@, d@)),
            _ => rest,
        }
    }
}

/// How many of the paths are directories.
pub open spec fn directory_count(items: Seq<(String, Outcome)>) -> nat
    decreases items.len(),
{
    if items.len() == 0 {
        0
    } else {
        directory_count(items.drop_last()) + if items.last().1 is Directory {
            1nat
        } else {
            0nat
        }
    }
}

/// Whether `r` is the record of a path whose digest was computed.
pub open spec fn digest_of_some_path(items: Seq<(String, Outcome)>, r: Record) -> bool {
    exists|i: int|
        0 <= i < items.len() && #[trigger] items[i].1 is Digest && r == (
            items[i].0@,
            items[i].1->Digest_0@,
        )
}

/// Where no path failed, every path but the directories gives exactly one
/// record, and every record is the digest of a path that was hashed.
pub proof fn lemma_directories_skipped(items: Seq<(String, Outcome)>)
    requires
        forall|i: int| 0 <= i < items.len() ==> !(#[trigger] items[i].1 is Failed),
    ensures
        digested(items).len() + directory_count(items) == items.len(),
        forall|k: int|
            0 <= k < digested(items).len() ==> digest_of_some_path(items, #[trigger] digested(items)[k]),
    decreases items.len(),
{
    if items.len() > 0 {
        let rest = items.drop_last();
        assert forall|i: int| 0 <= i < rest.len() implies !(#[trigger] rest[i].1 is Failed) by {
            assert(rest[i] == items[i]);
        }
        lemma_directories_skipped(rest);
        let d = digested(items);
        assert forall|k: int| 0 <= k < d.len() implies digest_of_some_path(items, #[trigger] d[k]) by {
            if k < digested(rest).len() {
                assert(digest_of_some_path(rest, digested(rest)[k]));
                let i = choose|i: int|
                    0 <= i < rest.len() && #[trigger] rest[i].1 is Digest && digested(rest)[k] == (
                        rest[i].0@,
                        rest[i].1->Digest_0@,
                    );
                assert(rest[i] == items[i]);
            } else {
                assert(items[items.len() - 1].1 is Digest);
            }
        }
    }
}

/// The hash-mode output order of a set of records.
pub open spec fn in_output_order(records: Seq<Record>) -> Seq<Record> {
    records.sort_by(record_order())
}

pub open spec fn record_views(v: Seq<(String, String)>) -> Seq<Record> {
    v.map_values(|p: (String, String)| (p.0@, p.1@))
}

/// Hash-mode output does not depend on the order in which the paths were
/// processed: any two arrangements of the same records come out as one list.
pub proof fn lemma_output_order_independent(a: Seq<Record>, b: Seq<Record>)
    requires
        a.to_multiset() == b.to_multiset(),
    ensures
        in_output_order(a) == in_output_order(b),
{
    lemma_record_order_total();
    a.lemma_sort_by_ensures(record_order());
    b.lemma_sort_by_ensures(record_order());
    lemma_sorted_unique(in_output_order(a), in_output_order(b), record_order());
}

/// The records that `items` gives, as a multiset, after removing item `i`.
proof fn lemma_digested_remove(s: Seq<(String, Outcome)>, i: int)
    requires
        0 <= i < s.len(),
    ensures
        digested(s).to_multiset() == match s[i].1 {
            Outcome::Digest(d) => digested(s.remove(i)).to_multiset().insert((s[i].0@, d@)),
            _ => digested(s.remove(i)).to_multiset(),
        },
    decreases s.len(),
{
    broadcast use vstd::seq_lib::group_to_multiset_ensures;
    broadcast use vstd::multiset::group_multiset_axioms;

    let r = s.remove(i);
    if i == s.len() - 1 {
        assert(r =~= s.drop_last());
    } else {
        assert(r.drop_last() =~= s.drop_last().remove(i));
        assert(r.last() == s.last());
        assert(s.drop_last()[i] == s[i]);
        lemma_digested_remove(s.drop_last(), i);
        let ms = digested(s.drop_last()).to_multiset();
        let mr = digested(r.drop_last()).to_multiset();
        if let Outcome::Digest(d) = s.last().1 {
            if let Outcome::Digest(e) = s[i].1 {
                assert(ms.insert((s.last().0@, d@)) =~= mr.insert((s[i].0@, e@)).insert(
                    (s.last().0@, d@),
                ));
                assert(digested(r).to_multiset() =~= mr.insert((s.last().0@, d@)));
            }
        }
    }
}

/// Hash-mode output does not depend on the order of the input paths, nor on
/// the order in which their outcomes were gathered: any rearrangement of the
/// same outcomes gives the same output list.
pub proof fn lemma_input_order_irrelevant(a: Seq<(String, Outcome)>, b: Seq<(String, Outcome)>)
    requires
        a.to_multiset() == b.to_multiset(),
    ensures
        digested(a).to_multiset() == digested(b).to_multiset(),
        in_output_order(digested(a)) == in_output_order(digested(b)),
    decreases a.len(),
{
    broadcast use vstd::seq_lib::group_to_multiset_ensures;
    broadcast use vstd::multiset::group_multiset_axioms;

    if a.len() == 0 {
        assert(b.to_multiset().len() == 0);
        assert(b =~= Seq::<(String, Outcome)>::empty());
    } else {
        let x = a.last();
        assert(a.to_multiset().contains(x));
        assert(b.to_multiset().contains(x));
        let j = choose|j: int| 0 <= j < b.len() && b[j] == x;
        assert(a.remove(a.len() - 1) =~= a.drop_last());
        vstd::seq_lib::to_multiset_remove(a, a.len() - 1);
        vstd::seq_lib::to_multiset_remove(b, j);
        lemma_input_order_irrelevant(a.drop_last(), b.remove(j));
        lemma_digested_remove(a, a.len() - 1);
        lemma_digested_remove(b, j);
    }
    lemma_output_order_independent(digested(a), digested(b));
}

fn record_le_exec(a: &(String, String), b: &(String, String)) -> (r: bool)
    ensures
        r == record_le((a.0@, a.1@), (b.0@, b.1@)),
{
    if text_eq(a.0.as_str(), b.0.as_str()) {
        text_le_exec(a.1.as_str(), b.1.as_str())
    } else {
        text_le_exec(a.0.as_str(), b.0.as_str())
    }
}

/// Inserts `x` into a sorted list, after every record not above it.
fn insert_sorted(out: &mut Vec<(String, String)>, x: (String, String))
    requires
        sorted_by(record_views(old(out)@), record_order()),
    ensures
        sorted_by(record_views(final(out)@), record_order()),
        record_views(final(out)@).to_multiset() == record_views(old(out)@).to_multiset().insert(
            (x.0@, x.1@),
        ),
{
    proof {
        lemma_record_order_total();
    }
    let ghost xv = (x.0@, x.1@);
    let ghost before = record_views(out@);
    let mut p: usize = 0;
    while p < out.len()
        invariant
            before == record_views(out@),
            xv == (x.0@, x.1@),
            p <= out@.len(),
            forall|k: int| 0 <= k < p ==> record_le(#[trigger] before[k], xv),
        ensures
            p <= out@.len(),
            forall|k: int| 0 <= k < p ==> record_le(#[trigger] before[k], xv),
            p < out@.len() ==> !record_le(before[p as int], xv),
        decreases out@.len() - p,
    {
        assert(before[p as int] == (out@[p as int].0@, out@[p as int].1@));
        let le = record_le_exec(&out[p], &x);
        if !le {
            break;
        }
        p = p + 1;
    }
    out.insert(p, x);
    let ghost after = record_views(out@);
    assert(after =~= before.insert(p as int, xv));
    proof {
        vstd::seq_lib::to_multiset_insert(before, p as int, xv);
        let r = record_order();
        assert forall|i: int, j: int| 0 <= i < j < after.len() implies #[trigger] r(
            after[i],
            after[j],
        ) by {
            if j == p {
                assert(record_le(before[i], xv));
            } else if i == p {
                assert(!record_le(before[p as int], xv));
                assert(!r(before[p as int], xv));
                assert(r(xv, before[p as int]));
                if j > p + 1 {
                    assert(r(before[p as int], before[j - 1]));
                }
            } else {
                let ii = if i < p { i } else { i - 1 };
                let jj = if j < p { j } else { j - 1 };
                assert(r(before[ii], before[jj]));
            }
        }
    }
}

/// Hash mode's collection step. The first failed path, in input order, fails
/// the batch and is returned by index; otherwise directories are dropped and
/// the digested paths come out ordered by path.
pub fn collect_digests(items: &Vec<(String, Outcome)>) -> (r: Result<Vec<(String, String)>, usize>)
    ensures
        match r {
            Ok(v) => {
                &&& forall|i: int| 0 <= i < items@.len() ==> !(#[trigger] items@[i].1 is Failed)
                &&& record_views(v@) == in_output_order(digested(items@))
                &&& v@.len() == digested(items@).len()
            },
            Err(k) => {
                &&& k < items@.len()
                &&& items@[k as int].1 is Failed
                &&& forall|j: int| 0 <= j < k ==> !(#[trigger] items@[j].1 is Failed)
            },
        },
{
    let mut i: usize = 0;
    while i < items.len()
        invariant
            i <= items@.len(),
            forall|j: int| 0 <= j < i ==> !(#[trigger] items@[j].1 is Failed),
        decreases items@.len() - i,
    {
        if let Outcome::Failed = items[i].1 {
            return Err(i);
        }
        i = i + 1;
    }
    let mut out: Vec<(String, String)> = Vec::new();
    let mut i: usize = 0;
    assert(items@.subrange(0, 0) =~= Seq::<(String, Outcome)>::empty());
    assert(record_views(out@) =~= Seq::<Record>::empty());
    while i < items.len()
        invariant
            i <= items@.len(),
            sorted_by(record_views(out@), record_order()),
            record_views(out@).to_multiset() == digested(items@.subrange(0, i as int)).to_multiset(),
        decreases items@.len() - i,
    {
        let ghost prefix = items@.subrange(0, i as int);
        assert(items@.subrange(0, i + 1).drop_last() =~= prefix);
        assert(items@.subrange(0, i + 1).last() == items@[i as int]);
        if let Outcome::Digest(d) = &items[i].1 {
            let path = items[i].0.clone();
            let digest = d.clone();
            insert_sorted(&mut out, (path, digest));
            proof {
                vstd::seq_lib::to_multiset_build(digested(prefix), (items@[i as int].0@, d@));
            }
        }
        i = i + 1;
    }
    assert(items@.subrange(0, items@.len() as int) =~= items@);
    proof {
        let all = digested(items@);
        lemma_record_order_total();
        all.lemma_sort_by_ensures(record_order());
        lemma_sorted_unique(record_views(out@), in_output_order(all), record_order());
        vstd::seq_lib::to_multiset_len(record_views(out@));
        vstd::seq_lib::to_multiset_len(all);
    }
    Ok(out)
}

/// The algorithm an entry is checked with: its own, else the listing's, else BLAKE3.
pub open spec fn effective_algorithm(entry: Option<Algorithm>, listing: Option<Algorithm>) -> Algorithm {
    match entry {
        Some(a) => a,
        None => match listing {
            Some(a) => a,
            None => Algorithm::Blake3,
        },
    }
}

/// Resolves the algorithm for an entry through the fallback chain.
pub fn resolve_algorithm(entry: Option<Algorithm>, listing: Option<Algorithm>) -> (r: Algorithm)
    ensures
        r == effective_algorithm(entry, listing),
{
    match entry {
        Some(a) => a,
        None => match listing {
            Some(a) => a,
            None => Algorithm::Blake3,
        },
    }
}

impl HashFile {
    /// Whether `data`, the contents of the file that entry `i` names, has the
    /// recorded digest under the entry's effective algorithm.
    pub fn check(&self, i: usize, data: &[u8]) -> (r: bool)
        requires
            i < self.entries@.len(),
        ensures
            r == (hex_digest(
                effective_algorithm(self.entries@[i as int].algorithm, self.algorithm),
                data@,
            ) == self.entries@[i as int].hash@),
    {
        let entry: &HashEntry = &self.entries[i];
        let alg = resolve_algorithm(entry.algorithm, self.algorithm);
        let digest = alg.hash_bytes(data);
        self.matches_digest(i, &digest)
    }

    /// Whether `digest` is, character for character, the digest recorded for entry `i`.
    pub fn matches_digest(&self, i: usize, digest: &String) -> (r: bool)
        requires
            i < self.entries@.len(),
        ensures
            r == (digest@ == self.entries@[i as int].hash@),
    {
        *digest == self.entries[i].hash
    }
}

fn space() -> (r: &'static str)
    ensures
        r@ == seq![' '],
{
    proof {
        reveal_strlit(" ");
    }
    " "
}

fn newline() -> (r: &'static str)
    ensures
        r@ == seq!['\n'],
{
    proof {
        reveal_strlit("\n");
    }
    "\n"
}

/// One hash-mode output line: `[<algorithm> ]<digest> <marker><path>`.
pub open spec fn hash_line(alg: Algorithm, prefix: bool, mode: Mode, rec: Record) -> Seq<char> {
    (if prefix {
        alg.spec_name() + seq![' ']
    } else {
        seq![]
    }) + rec.1 + seq![' ', mode.spec_marker()] + rec.0 + seq!['\n']
}

pub open spec fn hash_report_text(alg: Algorithm, prefix: bool, mode: Mode, recs: Seq<Record>) -> Seq<
    char,
>
    decreases recs.len(),
{
    if recs.len() == 0 {
        seq![]
    } else {
        hash_report_text(alg, prefix, mode, recs.drop_last()) + hash_line(
            alg,
            prefix,
            mode,
            recs.last(),
        )
    }
}

/// The mode changes a hash-mode line only in its marker character.
pub proof fn lemma_mode_only_marks(alg: Algorithm, prefix: bool, rec: Record)
    ensures
        ({
            let t = hash_line(alg, prefix, Mode::Text, rec);
            let b = hash_line(alg, prefix, Mode::Binary, rec);
            let k = t.len() - rec.0.len() - 2;
            &&& t.len() == b.len()
            &&& t[k] == ' ' && b[k] == '*'
            &&& forall|i: int| 0 <= i < t.len() && i != k ==> t[i] == b[i]
        }),
{
}

/// Renders hash-mode results, one line per record, in the order given.
pub fn hash_report(alg: Algorithm, prefix: bool, mode: Mode, records: &Vec<(String, String)>) -> (r:
    String)
    ensures
        r@ == hash_report_text(alg, prefix, mode, record_views(records@)),
{
    let ghost recs = record_views(records@);
    let mut out = String::new();
    let mut i: usize = 0;
    assert(recs.subrange(0, 0) =~= Seq::<Record>::empty());
    while i < records.len()
        invariant
            recs == record_views(records@),
            i <= records@.len(),
            out@ == hash_report_text(alg, prefix, mode, recs.subrange(0, i as int)),
        decreases records@.len() - i,
    {
        assert(recs.subrange(0, i + 1).drop_last() =~= recs.subrange(0, i as int));
        let ghost start = out@;
        if prefix {
            out.append(alg.name());
            out.append(space());
        }
        out.append(records[i].1.as_str());
        out.append(space());
        out.append(mode.marker());
        out.append(records[i].0.as_str());
        out.append(newline());
        assert(out@ =~= start + hash_line(alg, prefix, mode, recs[i as int]));
        i = i + 1;
    }
    assert(recs.subrange(0, records@.len() as int) =~= recs);
    out
}

/// The widest path, in characters.
pub open spec fn max_width(paths: Seq<Seq<char>>) -> nat
    decreases paths.len(),
{
    if paths.len() == 0 {
        0
    } else {
        let w = max_width(paths.drop_last());
        if paths.last().len() > w {
            paths.last().len()
        } else {
            w
        }
    }
}

/// `n` spaces.
pub open spec fn spaces(n: nat) -> Seq<char> {
    Seq::new(n, |_i: int| ' ')
}

/// One verify-mode line: the path padded with spaces to `width`, then `OK` or `ERR`.
pub open spec fn verify_line(path: Seq<char>, width: nat, ok: bool) -> Seq<char> {
    path + spaces(
        if width > path.len() {
            (width - path.len()) as nat
        } else {
            0
        },
    ) + seq![' '] + (if ok {
        "OK"@
    } else {
        "ERR"@
    }) + seq!['\n']
}

pub open spec fn verify_lines(rs: Seq<(Seq<char>, bool)>, width: nat) -> Seq<char>
    decreases rs.len(),
{
    if rs.len() == 0 {
        seq![]
    } else {
        verify_lines(rs.drop_last(), width) + verify_line(rs.last().0, width, rs.last().1)
    }
}

/// The entries' paths, each with its check result.
pub open spec fn verify_results(f: HashFile, matched: Seq<bool>) -> Seq<(Seq<char>, bool)> {
    Seq::new(matched.len(), |i: int| (f.entries@[i].file@, matched[i]))
}

/// Renders verify-mode results in entry order, paths padded to the widest one.
pub fn verify_report(f: &HashFile, matched: &Vec<bool>) -> (r: String)
    requires
        matched@.len() == f.entries@.len(),
    ensures
        ({
            let rs = verify_results(*f, matched@);
            r@ == verify_lines(rs, max_width(rs.map_values(|p: (Seq<char>, bool)| p.0)))
        }),
{
    let ghost rs = verify_results(*f, matched@);
    let ghost paths = rs.map_values(|p: (Seq<char>, bool)| p.0);
    let n = matched.len();
    let mut width: usize = 0;
    let mut i: usize = 0;
    assert(paths.subrange(0, 0) =~= Seq::<Seq<char>>::empty());
    while i < n
        invariant
            n == matched@.len(),
            n == f.entries@.len(),
            rs == verify_results(*f, matched@),
            paths == rs.map_values(|p: (Seq<char>, bool)| p.0),
            i <= n,
            width as nat == max_width(paths.subrange(0, i as int)),
        decreases n - i,
    {
        assert(paths.subrange(0, i + 1).drop_last() =~= paths.subrange(0, i as int));
        let len = f.entries[i].file.as_str().unicode_len();
        if len > width {
            width = len;
        }
        i = i + 1;
    }
    assert(paths.subrange(0, n as int) =~= paths);
    let mut out = String::new();
    let mut i: usize = 0;
    assert(rs.subrange(0, 0) =~= Seq::<(Seq<char>, bool)>::empty());
    while i < n
        invariant
            n == matched@.len(),
            n == f.entries@.len(),
            rs == verify_results(*f, matched@),
            width as nat == max_width(paths),
            paths == rs.map_values(|p: (Seq<char>, bool)| p.0),
            i <= n,
            out@ == verify_lines(rs.subrange(0, i as int), width as nat),
        decreases n - i,
    {
        assert(rs.subrange(0, i + 1).drop_last() =~= rs.subrange(0, i as int));
        let ghost start = out@;
        let path = f.entries[i].file.as_str();
        out.append(path);
        let len = path.unicode_len();
        let mut pad: usize = len;
        let ghost padded = out@;
        assert(padded == start + path@);
        assert(out@ =~= padded + spaces(0));
        while pad < width
            invariant
                len <= pad,
                len <= width ==> pad <= width,
                len > width ==> pad == len,
                out@ == padded + spaces((pad - len) as nat),
                len == path@.len(),
            decreases width - pad,
        {
            out.append(space());
            pad = pad + 1;
            assert(out@ =~= padded + spaces((pad - len) as nat));
        }
        assert(rs[i as int].0 == path@);
        assert((pad - len) as nat == (if width > len {
            (width - len) as nat
        } else {
            0
        }));
        out.append(space());
        if matched[i] {
            out.append("OK");
        } else {
            out.append("ERR");
        }
        out.append(newline());
        assert(out@ =~= start + verify_line(rs[i as int].0, width as nat, rs[i as int].1));
        i = i + 1;
    }
    assert(rs.subrange(0, n as int) =~= rs);
    out
}

} // verus!
