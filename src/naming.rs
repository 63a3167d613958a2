//! Document ids: making a base id unique in a folder, and the names of the
//! two files that a document is stored in.
use vstd::prelude::*;

use crate::text::{decimal_int, opt_chars, push_decimal_i64, strip_suffix, strip_suffix_of};

verus! {

/// How many numbered candidates are tried before the clock is used.
pub const MAX_PROBES: i64 = 1000;

/// The ids held by a list of strings.
pub open spec fn ids_of(v: Seq<String>) -> Seq<Seq<char>> {
    v.map_values(|s: String| s@)
}

/// The `k`-th numbered candidate for `base`: `base_k`.
pub open spec fn candidate_id(base: Seq<char>, k: int) -> Seq<char> {
    base + seq!['_'] + decimal_int(k)
}

/// The first numbered candidate from the `k`-th on that is not taken; when
/// all up to `MAX_PROBES` are, the candidate numbered by `now`.
pub open spec fn probe_from(taken: Seq<Seq<char>>, base: Seq<char>, k: int, now: int) -> Seq<char>
    decreases MAX_PROBES + 1 - k,
{
    if k > MAX_PROBES {
        candidate_id(base, now)
    } else if !taken.contains(candidate_id(base, k)) {
        candidate_id(base, k)
    } else {
        probe_from(taken, base, k + 1, now)
    }
}

/// The id that a new document with base id `base` gets, when `taken` holds
/// the ids already in use: `base` itself where it is free, else the first
/// free `base_1`, `base_2`, ..., else `base_<now>`.
pub open spec fn unique_id(taken: Seq<Seq<char>>, base: Seq<char>, now: int) -> Seq<char> {
    if !taken.contains(base) {
        base
    } else {
        probe_from(taken, base, 1, now)
    }
}

fn candidate(base: &str, k: i64) -> (r: String)
    ensures
        r@ == candidate_id(base@, k as int),
{
    let mut r = String::from_str(base);
    r.push('_');
    push_decimal_i64(&mut r, k);
    assert(r@ =~= candidate_id(base@, k as int));
    r
}

fn is_taken(existing: &Vec<String>, id: &String) -> (r: bool)
    ensures
        r == ids_of(existing@).contains(id@),
{
    let ghost ids = ids_of(existing@);
    let mut i: usize = 0;
    while i < existing.len()
        invariant
            i <= existing.len(),
            ids == ids_of(existing@),
            forall|j: int| 0 <= j < i ==> ids[j] != id@,
        decreases existing.len() - i,
    {
        if existing[i] == *id {
            assert(ids[i as int] == id@);
            return true;
        }
        i += 1;
    }
    false
}

/// A free id for a new document whose base id is `base_name`, where
/// `existing` lists the ids of the documents already in the folder and `now`
/// is the current time in milliseconds.
pub fn generate_unique_filename(existing: &Vec<String>, base_name: &str, now: i64) -> (r: String)
    ensures
        r@ == unique_id(ids_of(existing@), base_name@, now as int),
{
    let ghost taken = ids_of(existing@);
    let base = String::from_str(base_name);
    if !is_taken(existing, &base) {
        return base;
    }
    let mut k: i64 = 1;
    while k <= MAX_PROBES
        invariant
            1 <= k <= MAX_PROBES + 1,
            taken == ids_of(existing@),
            taken.contains(base_name@),
            unique_id(taken, base_name@, now as int) == probe_from(
                taken,
                base_name@,
                k as int,
                now as int,
            ),
        decreases MAX_PROBES + 1 - k,
    {
        let c = candidate(base_name, k);
        if !is_taken(existing, &c) {
            return c;
        }
        k += 1;
    }
    candidate(base_name, now)
}

/// The name of the file that holds the content of document `id`.
pub open spec fn content_file(id: Seq<char>) -> Seq<char> {
    id + ".md"@
}

/// The name of the file that holds the metadata of document `id`.
pub open spec fn meta_file(id: Seq<char>) -> Seq<char> {
    id + ".meta.json"@
}

/// The id of the document whose content file is named `name`, if it is one:
/// a non-empty stem before the `.md` extension.
pub open spec fn content_file_id(name: Seq<char>) -> Option<Seq<char>> {
    match strip_suffix(name, ".md"@) {
        Some(stem) => if stem.len() > 0 {
            Some(stem)
        } else {
            None
        },
        None => None,
    }
}

/// The id of the document whose metadata file is named `name`, if it is one.
pub open spec fn meta_file_id(name: Seq<char>) -> Option<Seq<char>> {
    strip_suffix(name, ".meta.json"@)
}

/// The name of the content file of document `id`.
pub fn content_file_name(id: &str) -> (r: String)
    ensures
        r@ == content_file(id@),
{
    String::from_str(id).concat(".md")
}

/// The name of the metadata file of document `id`.
pub fn meta_file_name(id: &str) -> (r: String)
    ensures
        r@ == meta_file(id@),
{
    String::from_str(id).concat(".meta.json")
}

/// The document id that a content file name stands for.
pub fn id_from_content_file(name: &str) -> (r: Option<String>)
    ensures
        opt_chars(r) == content_file_id(name@),
{
    match strip_suffix_of(name, ".md") {
        Some(stem) => if stem.as_str().unicode_len() > 0 {
            Some(stem)
        } else {
            None
        },
        None => None,
    }
}

/// The document id that a metadata file name stands for.
pub fn id_from_meta_file(name: &str) -> (r: Option<String>)
    ensures
        opt_chars(r) == meta_file_id(name@),
{
    strip_suffix_of(name, ".meta.json")
}

} // verus!
