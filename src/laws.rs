//! Properties that hold across the operations of the store.
use vstd::prelude::*;

use crate::codec::{decode_meta, json_i64_member, json_str_member, status_member};
use crate::model::{MetaView, document_of, meta_of};
use crate::naming::{MAX_PROBES, candidate_id, probe_from, unique_id};
use crate::sanitize::sanitized;
use crate::store::{created_document, status_or_default, updated_document};

verus! {

/// `p` is where `s` begins.
pub open spec fn is_prefix(p: Seq<char>, s: Seq<char>) -> bool {
    p.len() <= s.len() && s.subrange(0, p.len() as int) == p
}

proof fn lemma_candidate_prefix(base: Seq<char>, k: int)
    ensures
        is_prefix(base, candidate_id(base, k)),
        candidate_id(base, k) != base,
{
    let c = candidate_id(base, k);
    assert(c.subrange(0, base.len() as int) =~= base);
    assert(c.len() > base.len());
}

proof fn lemma_probe_prefix(taken: Seq<Seq<char>>, base: Seq<char>, k: int, now: int)
    ensures
        is_prefix(base, probe_from(taken, base, k, now)),
    decreases MAX_PROBES + 1 - k,
{
    lemma_candidate_prefix(base, k);
    lemma_candidate_prefix(base, now);
    if k <= MAX_PROBES && taken.contains(candidate_id(base, k)) {
        lemma_probe_prefix(taken, base, k + 1, now);
    }
}

/// A unique id always begins with its base id.
pub proof fn lemma_unique_id_prefix(taken: Seq<Seq<char>>, base: Seq<char>, now: int)
    ensures
        is_prefix(base, unique_id(taken, base, now)),
{
    assert(base.subrange(0, base.len() as int) =~= base);
    lemma_probe_prefix(taken, base, 1, now);
}

/// A free base id is kept as it is; where it is taken, `base_1` is used if it
/// is free, and `base_2` where `base_1` is taken too and `base_2` is free.
pub proof fn lemma_first_free_id(taken: Seq<Seq<char>>, base: Seq<char>, now: int)
    ensures
        !taken.contains(base) ==> unique_id(taken, base, now) == base,
        taken.contains(base) && !taken.contains(candidate_id(base, 1)) ==> unique_id(
            taken,
            base,
            now,
        ) == candidate_id(base, 1),
        taken.contains(base) && taken.contains(candidate_id(base, 1)) && !taken.contains(
            candidate_id(base, 2),
        ) ==> unique_id(taken, base, now) == candidate_id(base, 2),
{
    if taken.contains(base) && taken.contains(candidate_id(base, 1)) {
        assert(probe_from(taken, base, 1, now) == probe_from(taken, base, 2, now));
    }
}

/// Creating two documents with the same title, the second after the first
/// one's id is in use, gives the base id and then `base_1`, where neither was
/// in use before.
pub proof fn lemma_same_title_twice(
    taken: Seq<Seq<char>>,
    title: Seq<char>,
    content: Seq<char>,
    start_date: i64,
    end_date: i64,
    status: Option<Seq<char>>,
    now: i64,
    later: i64,
)
    requires
        !taken.contains(sanitized(title)),
        !taken.contains(candidate_id(sanitized(title), 1)),
    ensures
        created_document(taken, title, content, start_date, end_date, status, now).id == sanitized(
            title,
        ),
        created_document(
            taken.push(sanitized(title)),
            title,
            content,
            start_date,
            end_date,
            status,
            later,
        ).id == candidate_id(sanitized(title), 1),
{
    let base = sanitized(title);
    let t2 = taken.push(base);
    lemma_candidate_prefix(base, 1);
    assert(t2[t2.len() - 1] == base);
    if t2.contains(candidate_id(base, 1)) {
        let i = choose|i: int| 0 <= i < t2.len() && t2[i] == candidate_id(base, 1);
        if i < taken.len() {
            assert(taken[i] == t2[i]);
        }
    }
    lemma_first_free_id(taken, base, now as int);
    lemma_first_free_id(t2, base, later as int);
}

/// A created document reads back as itself: the metadata written beside it,
/// with its id and content, make the same document, and it holds the title,
/// content, dates and status that it was created with.
pub proof fn lemma_created_reads_back(
    taken: Seq<Seq<char>>,
    title: Seq<char>,
    content: Seq<char>,
    start_date: i64,
    end_date: i64,
    status: Option<Seq<char>>,
    now: i64,
)
    ensures
        ({
            let d = created_document(taken, title, content, start_date, end_date, status, now);
            &&& document_of(d.id, d.content, meta_of(d)) == d
            &&& d.title == title
            &&& d.content == content
            &&& d.start_date == start_date
            &&& d.end_date == end_date
            &&& d.status == status_or_default(status)
        }),
{
}

/// Metadata in the older shape, with a `date` and without a `startDate`,
/// reads with that date as both its start and its end date.
pub proof fn lemma_legacy_date(text: Seq<char>)
    requires
        json_i64_member(text, "startDate"@) is None,
        json_str_member(text, "title"@) is Some,
        json_i64_member(text, "date"@) is Some,
        status_member(text) is Some,
        json_i64_member(text, "createdAt"@) is Some,
        json_i64_member(text, "updatedAt"@) is Some,
    ensures
        decode_meta(text) == Some(
            MetaView {
                title: json_str_member(text, "title"@)->Some_0,
                start_date: json_i64_member(text, "date"@)->Some_0,
                end_date: json_i64_member(text, "date"@)->Some_0,
                status: status_member(text)->Some_0,
                created_at: json_i64_member(text, "createdAt"@)->Some_0,
                updated_at: json_i64_member(text, "updatedAt"@)->Some_0,
            },
        ),
{
}

/// Retitling a document to a title whose base id is not where its id begins
/// moves it to a new id that begins with that base id; content and creation
/// time are kept, and the update time moves on to `now`.
pub proof fn lemma_retitle_moves(
    taken: Seq<Seq<char>>,
    id: Seq<char>,
    content: Seq<char>,
    m: MetaView,
    new_title: Seq<char>,
    now: i64,
)
    requires
        new_title != m.title,
        !is_prefix(sanitized(new_title), id),
        now > m.updated_at,
    ensures
        ({
            let d = updated_document(
                taken,
                id,
                content,
                m,
                Some(new_title),
                None,
                None,
                None,
                None,
                now,
            );
            &&& d.id != id
            &&& is_prefix(sanitized(new_title), d.id)
            &&& d.title == new_title
            &&& d.content == content
            &&& d.created_at == m.created_at
            &&& d.updated_at > m.updated_at
        }),
{
    let base = sanitized(new_title);
    if base == id {
        assert(id.subrange(0, id.len() as int) =~= id);
    }
    let others = crate::store::others(taken, id);
    lemma_unique_id_prefix(others, base, now as int);
}

} // verus!
