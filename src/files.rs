//! Listing and reading configuration files of a working tree, on what the
//! caller read from disk.
use vstd::prelude::*;
use vstd::string::*;
use crate::error::GitError;

verus! {

/// What a read of the filesystem found.
#[derive(Debug)]
pub enum Disk<T> {
    /// Nothing is at the path.
    Absent,
    /// Something is there but reading it failed; holds the system's message.
    Failed(String),
    /// What was read.
    Found(T),
}

/// Whether `s` ends with `suffix`.
pub open spec fn ends_with(s: Seq<char>, suffix: Seq<char>) -> bool {
    s.len() >= suffix.len() && s.subrange(s.len() - suffix.len(), s.len() as int) == suffix
}

/// A visible configuration file: not hidden, with a YAML extension.
pub open spec fn is_config_name(name: Seq<char>) -> bool {
    &&& !(name.len() > 0 && name[0] == '.')
    &&& (ends_with(name, ".yaml"@) || ends_with(name, ".yml"@))
}

/// Lexicographic order by code point from position `i` on.
pub open spec fn le_from(a: Seq<char>, b: Seq<char>, i: nat) -> bool
    decreases a.len() - i,
{
    if i >= a.len() {
        true
    } else if i >= b.len() {
        false
    } else if (a[i as int] as u32) < (b[i as int] as u32) {
        true
    } else if (a[i as int] as u32) > (b[i as int] as u32) {
        false
    } else {
        le_from(a, b, i + 1)
    }
}

/// `a` comes no later than `b` in lexicographic order by code point, the
/// order of Rust's `str`.
pub open spec fn lex_le(a: Seq<char>, b: Seq<char>) -> bool {
    le_from(a, b, 0)
}

/// The text of each string.
pub open spec fn texts(v: Seq<String>) -> Seq<Seq<char>> {
    v.map_values(|s: String| s@)
}

/// Each text comes no later than the next.
pub open spec fn is_sorted(v: Seq<Seq<char>>) -> bool {
    forall|k: int| 0 <= k < v.len() - 1 ==> lex_le(#[trigger] v[k], v[k + 1])
}

/// The configuration files among `names`, in the order given.
pub open spec fn config_names(names: Seq<Seq<char>>) -> Seq<Seq<char>> {
    names.filter(|n: Seq<char>| is_config_name(n))
}

proof fn lemma_le_from_total(a: Seq<char>, b: Seq<char>, i: nat)
    ensures
        le_from(a, b, i) || le_from(b, a, i),
    decreases a.len() - i,
{
    if i < a.len() && i < b.len() && (a[i as int] as u32) == (b[i as int] as u32) {
        lemma_le_from_total(a, b, i + 1);
    }
}

/// Whether `s` ends with `suffix`.
fn has_suffix(s: &str, suffix: &str) -> (r: bool)
    ensures
        r == ends_with(s@, suffix@),
{
    let n = s.unicode_len();
    let m = suffix.unicode_len();
    if n < m {
        return false;
    }
    let mut k: usize = 0;
    while k < m
        invariant
            n == s@.len(),
            m == suffix@.len(),
            m <= n,
            k <= m,
            forall|j: int| 0 <= j < k ==> s@[n - m + j] == suffix@[j],
        decreases m - k,
    {
        if s.get_char(n - m + k) != suffix.get_char(k) {
            assert(s@.subrange(n - m, n as int)[k as int] != suffix@[k as int]);
            return false;
        }
        k = k + 1;
    }
    assert(s@.subrange(n - m, n as int) =~= suffix@);
    true
}

/// Whether `name` is a visible configuration file.
pub fn is_config_file(name: &str) -> (r: bool)
    ensures
        r == is_config_name(name@),
{
    if name.unicode_len() > 0 && name.get_char(0) == '.' {
        return false;
    }
    has_suffix(name, ".yaml") || has_suffix(name, ".yml")
}

/// Whether `a` comes no later than `b` in lexicographic order.
pub fn text_le(a: &str, b: &str) -> (r: bool)
    ensures
        r == lex_le(a@, b@),
{
    let n = a.unicode_len();
    let m = b.unicode_len();
    let mut i: usize = 0;
    while i < n && i < m
        invariant
            n == a@.len(),
            m == b@.len(),
            i <= n,
            i <= m,
            lex_le(a@, b@) == le_from(a@, b@, i as nat),
        decreases n - i,
    {
        let x = a.get_char(i) as u32;
        let y = b.get_char(i) as u32;
        if x < y {
            return true;
        }
        if x > y {
            return false;
        }
        i = i + 1;
    }
    i >= n
}

/// The configuration files among `names`, in the order given.
fn keep_config_files(names: &Vec<String>) -> (r: Vec<String>)
    ensures
        texts(r@) == config_names(texts(names@)),
{
    let ghost keep = |n: Seq<char>| is_config_name(n);
    let mut kept: Vec<String> = Vec::new();
    let mut i: usize = 0;
    while i < names.len()
        invariant
            i <= names@.len(),
            keep == (|n: Seq<char>| is_config_name(n)),
            texts(kept@) == texts(names@.take(i as int)).filter(keep),
        decreases names@.len() - i,
    {
        let name = names[i].clone();
        let ghost before = texts(names@.take(i as int));
        let ghost text = names@[i as int]@;
        assert(texts(names@.take(i as int + 1)) =~= before.push(text));
        proof {
            before.lemma_filter_push(text, keep);
        }
        let ghost old_kept = kept@;
        if is_config_file(names[i].as_str()) {
            assert(keep(text));
            kept.push(name);
            assert(texts(kept@) =~= texts(old_kept).push(text));
        } else {
            assert(!keep(text));
        }
        i = i + 1;
    }
    assert(names@.take(names@.len() as int) =~= names@);
    kept
}

/// `items` in lexicographic order.
fn sort_texts(items: Vec<String>) -> (r: Vec<String>)
    ensures
        is_sorted(texts(r@)),
        texts(r@).to_multiset() == texts(items@).to_multiset(),
{
    broadcast use vstd::seq_lib::group_to_multiset_ensures;
    let mut sorted: Vec<String> = Vec::new();
    let mut j: usize = 0;
    assert(texts(items@.take(0)) =~= Seq::<Seq<char>>::empty());
    assert(texts(sorted@) =~= Seq::<Seq<char>>::empty());
    while j < items.len()
        invariant
            j <= items@.len(),
            is_sorted(texts(sorted@)),
            texts(sorted@).to_multiset() == texts(items@.take(j as int)).to_multiset(),
        decreases items@.len() - j,
    {
        let item = items[j].clone();
        assert(item@ == items@[j as int]@);
        let mut p: usize = sorted.len();
        while p > 0 && !text_le(sorted[p - 1].as_str(), item.as_str())
            invariant
                p <= sorted@.len(),
                p < sorted@.len() ==> lex_le(item@, sorted@[p as int]@),
            decreases p,
        {
            proof {
                lemma_le_from_total(sorted@[p - 1]@, item@, 0);
            }
            p = p - 1;
        }
        let ghost old_texts = texts(sorted@);
        sorted.insert(p, item);
        let ghost new_texts = texts(sorted@);
        assert(new_texts =~= old_texts.insert(p as int, item@));
        proof {
            vstd::seq_lib::to_multiset_insert(old_texts, p as int, item@);
            old_texts.insert_ensures(p as int, item@);
        }
        assert(texts(items@.take(j as int + 1)) =~= texts(items@.take(j as int)).push(item@));
        proof {
            vstd::seq_lib::to_multiset_build(texts(items@.take(j as int)), item@);
        }
        assert(new_texts.to_multiset() == texts(items@.take(j as int + 1)).to_multiset());
        assert forall|k: int| 0 <= k < new_texts.len() - 1 implies lex_le(#[trigger] new_texts[k], new_texts[k + 1]) by {
            if k + 1 < p {
                assert(lex_le(old_texts[k], old_texts[k + 1]));
            } else if k + 1 == p {
            } else if k == p {
            } else {
                assert(lex_le(old_texts[k - 1], old_texts[k]));
            }
        }
        j = j + 1;
    }
    assert(items@.take(items@.len() as int) =~= items@);
    sorted
}

/// The configuration files among `names`, sorted.
pub fn select_config_files(names: Vec<String>) -> (r: Vec<String>)
    ensures
        is_sorted(texts(r@)),
        texts(r@).to_multiset() == config_names(texts(names@)).to_multiset(),
{
    sort_texts(keep_config_files(&names))
}

/// The visible configuration files of the directory `dir`, sorted, from the
/// names of the regular files that were read there.
pub fn list_files(dir: &str, listing: Disk<Vec<String>>) -> (r: Result<Vec<String>, GitError>)
    ensures
        listing is Absent ==> (r matches Err(GitError::FileNotFound(p)) && p@ == dir@),
        listing matches Disk::Failed(m) ==> (r matches Err(GitError::Io(e)) && e@ == m@),
        listing matches Disk::Found(names) ==> (r matches Ok(files) && is_sorted(texts(files@))
            && texts(files@).to_multiset() == config_names(texts(names@)).to_multiset()),
{
    match listing {
        Disk::Absent => Err(GitError::FileNotFound(dir.to_string())),
        Disk::Failed(m) => Err(GitError::Io(m)),
        Disk::Found(names) => Ok(select_config_files(names)),
    }
}

/// The standard padded base64 text of `bytes`, as the `base64` crate writes it.
pub uninterp spec fn base64_of(bytes: Seq<u8>) -> Seq<char>;

/// The length of the padded base64 text of `n` bytes.
pub open spec fn base64_len(n: nat) -> nat {
    4 * ((n + 2) / 3)
}

/// Relies on `base64::Engine::encode` of `base64::engine::general_purpose::STANDARD`:
/// padded standard-alphabet base64, four characters for each started group of
/// three bytes (it panics where that length overflows `usize`).
#[verifier::external_body]
fn encode_base64(bytes: &[u8]) -> (r: String)
    requires
        base64_len(bytes@.len()) <= usize::MAX,
    ensures
        r@ == base64_of(bytes@),
        r@.len() == base64_len(bytes@.len()),
{
    base64::Engine::encode(&base64::engine::general_purpose::STANDARD, bytes)
}

/// The content of the file at `path`, base64-encoded, from what was read there.
pub fn read_file(path: &str, content: Disk<Vec<u8>>) -> (r: Result<String, GitError>)
    requires
        content matches Disk::Found(b) ==> base64_len(b@.len()) <= usize::MAX,
    ensures
        content is Absent ==> (r matches Err(GitError::FileNotFound(p)) && p@ == path@),
        content matches Disk::Failed(m) ==> (r matches Err(GitError::Io(e)) && e@ == m@),
        content matches Disk::Found(b) ==> (r matches Ok(text) && text@ == base64_of(b@)
            && text@.len() == base64_len(b@.len())),
{
    match content {
        Disk::Absent => Err(GitError::FileNotFound(path.to_string())),
        Disk::Failed(m) => Err(GitError::Io(m)),
        Disk::Found(bytes) => Ok(encode_base64(bytes.as_slice())),
    }
}

} // verus!
