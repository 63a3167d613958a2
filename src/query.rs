//! The views over all documents: newest first, one month, and text search.
use vstd::prelude::*;
use vstd::multiset::Multiset;

use crate::calendar::{month_bounds, overlaps, overlaps_month};
use crate::codec::{decode_meta, parse_document_meta};
use crate::model::{Document, DocumentSummary, DocumentView, SummaryView, document_of, summary_of};
use crate::text::{contains_run, contains_str};

verus! {

/// The lower-case form of `s` by Unicode's rules.
pub uninterp spec fn lowercase_of(s: Seq<char>) -> Seq<char>;

/// Relies on `str::to_lowercase`: the result depends on the characters alone,
/// and an empty string stays empty.
#[verifier::external_body]
fn lowercase(s: &str) -> (r: String)
    ensures
        r@ == lowercase_of(s@),
        s@.len() == 0 ==> r@.len() == 0,
{
    s.to_lowercase()
}

pub open spec fn document_views(s: Seq<Document>) -> Seq<DocumentView> {
    s.map_values(|d: Document| d@)
}

pub open spec fn summary_views(s: Seq<DocumentSummary>) -> Seq<SummaryView> {
    s.map_values(|d: DocumentSummary| d@)
}

/// Newest first: no document was updated later than one before it.
pub open spec fn documents_newest_first(s: Seq<DocumentView>) -> bool {
    forall|i: int, j: int| 0 <= i < j < s.len() ==> s[i].updated_at >= s[j].updated_at
}

/// Newest first: no summary was updated later than one before it.
pub open spec fn summaries_newest_first(s: Seq<SummaryView>) -> bool {
    forall|i: int, j: int| 0 <= i < j < s.len() ==> s[i].updated_at >= s[j].updated_at
}

/// Whether a document with this title and content matches an already
/// lower-cased query.
pub open spec fn document_matches(folded_query: Seq<char>, title: Seq<char>, content: Seq<char>) -> bool {
    contains_run(lowercase_of(title), folded_query) || contains_run(lowercase_of(content), folded_query)
}

proof fn lemma_insert_to_multiset<A>(s: Seq<A>, p: int, a: A)
    requires
        0 <= p <= s.len(),
    ensures
        s.insert(p, a).to_multiset() == s.to_multiset().insert(a),
{
    broadcast use vstd::seq_lib::group_to_multiset_ensures;

    let left = s.subrange(0, p);
    let right = s.subrange(p, s.len() as int);
    assert(s =~= left + right);
    vstd::seq_lib::lemma_multiset_commutative(left, right);
    vstd::seq_lib::lemma_multiset_commutative(left.push(a), right);
    assert(s.insert(p, a) =~= left.push(a) + right);
}

proof fn lemma_filter_step<A>(s: Seq<A>, i: int, pred: spec_fn(A) -> bool)
    requires
        0 <= i < s.len(),
    ensures
        s.subrange(0, i + 1).filter(pred) == if pred(s[i]) {
            s.subrange(0, i).filter(pred).push(s[i])
        } else {
            s.subrange(0, i).filter(pred)
        },
{
    reveal(Seq::filter);
    assert(s.subrange(0, i + 1).drop_last() =~= s.subrange(0, i));
}

proof fn lemma_filter_all<A>(s: Seq<A>, pred: spec_fn(A) -> bool)
    requires
        forall|i: int| 0 <= i < s.len() ==> pred(#[trigger] s[i]),
    ensures
        s.filter(pred) == s,
    decreases s.len(),
{
    reveal(Seq::filter);
    if s.len() > 0 {
        lemma_filter_all(s.drop_last(), pred);
        assert(s.drop_last().push(s.last()) =~= s);
    }
}

proof fn lemma_empty_run(hay: Seq<char>, needle: Seq<char>)
    requires
        needle.len() == 0,
    ensures
        contains_run(hay, needle),
{
    assert(hay.subrange(0, 0 + needle.len() as int) =~= needle);
}

/// A copy of a document, field by field.
pub fn copy_document(d: &Document) -> (r: Document)
    ensures
        r@ == d@,
{
    Document {
        id: d.id.clone(),
        title: d.title.clone(),
        content: d.content.clone(),
        start_date: d.start_date,
        end_date: d.end_date,
        status: d.status.clone(),
        created_at: d.created_at,
        updated_at: d.updated_at,
    }
}

/// The documents, most recently updated first.
pub fn sort_documents(docs: &Vec<Document>) -> (r: Vec<Document>)
    ensures
        document_views(r@).to_multiset() == document_views(docs@).to_multiset(),
        documents_newest_first(document_views(r@)),
{
    let mut r: Vec<Document> = Vec::new();
    let mut i: usize = 0;
    assert(document_views(r@) =~= document_views(docs@.subrange(0, 0)));
    while i < docs.len()
        invariant
            i <= docs.len(),
            document_views(r@).to_multiset() == document_views(docs@.subrange(0, i as int)).to_multiset(),
            documents_newest_first(document_views(r@)),
        decreases docs.len() - i,
    {
        let d = copy_document(&docs[i]);
        let mut p: usize = 0;
        while p < r.len() && r[p].updated_at >= d.updated_at
            invariant
                p <= r.len(),
                documents_newest_first(document_views(r@)),
                forall|k: int| 0 <= k < p ==> r@[k].updated_at >= d.updated_at,
            decreases r.len() - p,
        {
            p += 1;
        }
        let ghost before = r@;
        r.insert(p, d);
        proof {
            assert(document_views(r@) =~= document_views(before).insert(p as int, d@));
            lemma_insert_to_multiset(document_views(before), p as int, d@);
            let bv = document_views(before);
            let nv = document_views(r@);
            bv.insert_ensures(p as int, d@);
            assert forall|a: int, b: int| 0 <= a < b < nv.len() implies nv[a].updated_at
                >= nv[b].updated_at by {
                if p < bv.len() {
                    assert(bv[p as int].updated_at < d.updated_at);
                }
                if b > p {
                    assert(nv[b] == bv[b - 1]);
                    assert(bv[b - 1].updated_at <= d.updated_at);
                }
                if a > p {
                    assert(nv[a] == bv[a - 1]);
                }
                if a < p {
                    assert(nv[a] == bv[a]);
                }
            }
            assert(docs@.subrange(0, i + 1) =~= docs@.subrange(0, i as int).push(docs@[i as int]));
            assert(document_views(docs@.subrange(0, i + 1)) =~= document_views(
                docs@.subrange(0, i as int),
            ).push(d@));
            broadcast use vstd::seq_lib::group_to_multiset_ensures;

            assert(document_views(before).to_multiset().insert(d@) == document_views(
                docs@.subrange(0, i as int),
            ).push(d@).to_multiset());
        }
        i += 1;
    }
    assert(docs@.subrange(0, docs.len() as int) =~= docs@);
    r
}

/// The documents whose date range meets the given month, in their order.
pub fn get_documents_for_month(docs: &Vec<Document>, year: i32, month: u32) -> (r: Vec<Document>)
    ensures
        document_views(r@) == document_views(docs@).filter(
            |d: DocumentView| overlaps_month(d.start_date, d.end_date, year, month),
        ),
{
    let ghost pred = |d: DocumentView| overlaps_month(d.start_date, d.end_date, year, month);
    let ghost all = document_views(docs@);
    let bounds = month_bounds(year, month);
    let mut r: Vec<Document> = Vec::new();
    let mut i: usize = 0;
    while i < docs.len()
        invariant
            i <= docs.len(),
            all == document_views(docs@),
            bounds.0 == crate::calendar::month_start(year, month),
            bounds.1 == crate::calendar::month_end(year, month),
            pred == (|d: DocumentView| overlaps_month(d.start_date, d.end_date, year, month)),
            document_views(r@) == all.subrange(0, i as int).filter(pred),
        decreases docs.len() - i,
    {
        proof {
            lemma_filter_step(all, i as int, pred);
        }
        if overlaps(docs[i].start_date, docs[i].end_date, bounds) {
            let d = copy_document(&docs[i]);
            r.push(d);
            assert(document_views(r@) =~= all.subrange(0, i + 1).filter(pred));
        }
        i += 1;
    }
    assert(all.subrange(0, docs.len() as int) =~= all);
    r
}

/// Whether `folded_text`, already lower-cased, holds `folded_query`.
pub fn matches_folded(folded_query: &str, folded_text: &str) -> (r: bool)
    ensures
        r == contains_run(folded_text@, folded_query@),
{
    contains_str(folded_text, folded_query)
}

/// The documents whose title or content holds `query`, ignoring case, in
/// their order. An empty query matches every document.
pub fn search_documents(docs: &Vec<Document>, query: &str) -> (r: Vec<Document>)
    ensures
        document_views(r@) == document_views(docs@).filter(
            |d: DocumentView| document_matches(lowercase_of(query@), d.title, d.content),
        ),
        query@.len() == 0 ==> document_views(r@) == document_views(docs@),
{
    let folded = lowercase(query);
    let ghost pred = |d: DocumentView| document_matches(lowercase_of(query@), d.title, d.content);
    let ghost all = document_views(docs@);
    let mut r: Vec<Document> = Vec::new();
    let mut i: usize = 0;
    while i < docs.len()
        invariant
            i <= docs.len(),
            all == document_views(docs@),
            folded@ == lowercase_of(query@),
            pred == (|d: DocumentView| document_matches(lowercase_of(query@), d.title, d.content)),
            document_views(r@) == all.subrange(0, i as int).filter(pred),
        decreases docs.len() - i,
    {
        proof {
            lemma_filter_step(all, i as int, pred);
        }
        let title = lowercase(docs[i].title.as_str());
        let hit = matches_folded(folded.as_str(), title.as_str()) || {
            let content = lowercase(docs[i].content.as_str());
            matches_folded(folded.as_str(), content.as_str())
        };
        if hit {
            let d = copy_document(&docs[i]);
            r.push(d);
            assert(document_views(r@) =~= all.subrange(0, i + 1).filter(pred));
        }
        i += 1;
    }
    assert(all.subrange(0, docs.len() as int) =~= all);
    proof {
        if query@.len() == 0 {
            assert forall|k: int| 0 <= k < all.len() implies pred(#[trigger] all[k]) by {
                lemma_empty_run(lowercase_of(all[k].title), folded@);
            }
            lemma_filter_all(all, pred);
        }
    }
    r
}

/// A copy of a summary, field by field.
pub fn copy_summary(d: &DocumentSummary) -> (r: DocumentSummary)
    ensures
        r@ == d@,
{
    DocumentSummary {
        id: d.id.clone(),
        title: d.title.clone(),
        start_date: d.start_date,
        end_date: d.end_date,
        status: d.status.clone(),
        created_at: d.created_at,
        updated_at: d.updated_at,
    }
}

/// The summaries, most recently updated first.
pub fn sort_summaries(docs: &Vec<DocumentSummary>) -> (r: Vec<DocumentSummary>)
    ensures
        summary_views(r@).to_multiset() == summary_views(docs@).to_multiset(),
        summaries_newest_first(summary_views(r@)),
{
    let mut r: Vec<DocumentSummary> = Vec::new();
    let mut i: usize = 0;
    assert(summary_views(r@) =~= summary_views(docs@.subrange(0, 0)));
    while i < docs.len()
        invariant
            i <= docs.len(),
            summary_views(r@).to_multiset() == summary_views(docs@.subrange(0, i as int)).to_multiset(),
            summaries_newest_first(summary_views(r@)),
        decreases docs.len() - i,
    {
        let d = copy_summary(&docs[i]);
        let mut p: usize = 0;
        while p < r.len() && r[p].updated_at >= d.updated_at
            invariant
                p <= r.len(),
                summaries_newest_first(summary_views(r@)),
                forall|k: int| 0 <= k < p ==> r@[k].updated_at >= d.updated_at,
            decreases r.len() - p,
        {
            p += 1;
        }
        let ghost before = r@;
        r.insert(p, d);
        proof {
            assert(summary_views(r@) =~= summary_views(before).insert(p as int, d@));
            lemma_insert_to_multiset(summary_views(before), p as int, d@);
            let bv = summary_views(before);
            let nv = summary_views(r@);
            bv.insert_ensures(p as int, d@);
            assert forall|a: int, b: int| 0 <= a < b < nv.len() implies nv[a].updated_at
                >= nv[b].updated_at by {
                if p < bv.len() {
                    assert(bv[p as int].updated_at < d.updated_at);
                }
                if b > p {
                    assert(nv[b] == bv[b - 1]);
                    assert(bv[b - 1].updated_at <= d.updated_at);
                }
                if a > p {
                    assert(nv[a] == bv[a - 1]);
                }
                if a < p {
                    assert(nv[a] == bv[a]);
                }
            }
            assert(docs@.subrange(0, i + 1) =~= docs@.subrange(0, i as int).push(docs@[i as int]));
            assert(summary_views(docs@.subrange(0, i + 1)) =~= summary_views(
                docs@.subrange(0, i as int),
            ).push(d@));
            broadcast use vstd::seq_lib::group_to_multiset_ensures;

            assert(summary_views(before).to_multiset().insert(d@) == summary_views(
                docs@.subrange(0, i as int),
            ).push(d@).to_multiset());
        }
        i += 1;
    }
    assert(docs@.subrange(0, docs.len() as int) =~= docs@);
    r
}

/// The summaries whose date range meets the given month, in their order.
pub fn get_document_summaries_for_month(docs: &Vec<DocumentSummary>, year: i32, month: u32) -> (r: Vec<DocumentSummary>)
    ensures
        summary_views(r@) == summary_views(docs@).filter(
            |d: SummaryView| overlaps_month(d.start_date, d.end_date, year, month),
        ),
{
    let ghost pred = |d: SummaryView| overlaps_month(d.start_date, d.end_date, year, month);
    let ghost all = summary_views(docs@);
    let bounds = month_bounds(year, month);
    let mut r: Vec<DocumentSummary> = Vec::new();
    let mut i: usize = 0;
    while i < docs.len()
        invariant
            i <= docs.len(),
            all == summary_views(docs@),
            bounds.0 == crate::calendar::month_start(year, month),
            bounds.1 == crate::calendar::month_end(year, month),
            pred == (|d: SummaryView| overlaps_month(d.start_date, d.end_date, year, month)),
            summary_views(r@) == all.subrange(0, i as int).filter(pred),
        decreases docs.len() - i,
    {
        proof {
            lemma_filter_step(all, i as int, pred);
        }
        if overlaps(docs[i].start_date, docs[i].end_date, bounds) {
            let d = copy_summary(&docs[i]);
            r.push(d);
            assert(summary_views(r@) =~= all.subrange(0, i + 1).filter(pred));
        }
        i += 1;
    }
    assert(all.subrange(0, docs.len() as int) =~= all);
    r
}

/// The summaries whose title holds `query`, ignoring case, in their order.
/// An empty query matches every summary.
pub fn search_document_summaries(docs: &Vec<DocumentSummary>, query: &str) -> (r: Vec<DocumentSummary>)
    ensures
        summary_views(r@) == summary_views(docs@).filter(
            |d: SummaryView| contains_run(lowercase_of(d.title), lowercase_of(query@)),
        ),
        query@.len() == 0 ==> summary_views(r@) == summary_views(docs@),
{
    let folded = lowercase(query);
    let ghost pred = |d: SummaryView| contains_run(lowercase_of(d.title), lowercase_of(query@));
    let ghost all = summary_views(docs@);
    let mut r: Vec<DocumentSummary> = Vec::new();
    let mut i: usize = 0;
    while i < docs.len()
        invariant
            i <= docs.len(),
            all == summary_views(docs@),
            folded@ == lowercase_of(query@),
            pred == (|d: SummaryView| contains_run(lowercase_of(d.title), lowercase_of(query@))),
            summary_views(r@) == all.subrange(0, i as int).filter(pred),
        decreases docs.len() - i,
    {
        proof {
            lemma_filter_step(all, i as int, pred);
        }
        let title = lowercase(docs[i].title.as_str());
        let hit = matches_folded(folded.as_str(), title.as_str());
        if hit {
            let d = copy_summary(&docs[i]);
            r.push(d);
            assert(summary_views(r@) =~= all.subrange(0, i + 1).filter(pred));
        }
        i += 1;
    }
    assert(all.subrange(0, docs.len() as int) =~= all);
    proof {
        if query@.len() == 0 {
            assert forall|k: int| 0 <= k < all.len() implies pred(#[trigger] all[k]) by {
                lemma_empty_run(lowercase_of(all[k].title), folded@);
            }
            lemma_filter_all(all, pred);
        }
    }
    r
}

/// The summaries that a folder's metadata files make, as `(id, text)`
/// pairs, in their order; a file whose metadata cannot be read is left out.
pub open spec fn readable_summaries(entries: Seq<(String, String)>) -> Seq<SummaryView>
    decreases entries.len(),
{
    if entries.len() == 0 {
        Seq::empty()
    } else {
        let rest = readable_summaries(entries.drop_last());
        let (id, text) = entries.last();
        match decode_meta(text@) {
            Some(m) => rest.push(summary_of(id@, m)),
            None => rest,
        }
    }
}

/// The documents that a folder's file pairs make, as `(id, content, metadata
/// text)`, in their order; a pair whose metadata cannot be read is left out.
pub open spec fn readable_documents(entries: Seq<(String, String, String)>) -> Seq<DocumentView>
    decreases entries.len(),
{
    if entries.len() == 0 {
        Seq::empty()
    } else {
        let rest = readable_documents(entries.drop_last());
        let (id, content, text) = entries.last();
        match decode_meta(text@) {
            Some(m) => rest.push(document_of(id@, content@, m)),
            None => rest,
        }
    }
}

/// All summaries, most recently updated first, from the metadata files of a
/// folder given as `(id, text)`; one that cannot be read does not stop the
/// others.
pub fn get_all_document_summaries(entries: &Vec<(String, String)>) -> (r: Vec<DocumentSummary>)
    ensures
        summary_views(r@).to_multiset() == readable_summaries(entries@).to_multiset(),
        summaries_newest_first(summary_views(r@)),
{
    let mut found: Vec<DocumentSummary> = Vec::new();
    let mut i: usize = 0;
    while i < entries.len()
        invariant
            i <= entries.len(),
            summary_views(found@) == readable_summaries(entries@.subrange(0, i as int)),
        decreases entries.len() - i,
    {
        assert(entries@.subrange(0, i + 1).drop_last() =~= entries@.subrange(0, i as int));
        let (id, text) = &entries[i];
        match parse_document_meta(text.as_str()) {
            Ok(meta) => {
                found.push(DocumentSummary::from_meta(id.clone(), meta));
                assert(summary_views(found@) =~= readable_summaries(entries@.subrange(0, i + 1)));
            },
            Err(_) => {},
        }
        i += 1;
    }
    assert(entries@.subrange(0, entries.len() as int) =~= entries@);
    sort_summaries(&found)
}

/// All documents, most recently updated first, from the file pairs of a
/// folder given as `(id, content, metadata text)`; one that cannot be read
/// does not stop the others.
pub fn get_all_documents(entries: &Vec<(String, String, String)>) -> (r: Vec<Document>)
    ensures
        document_views(r@).to_multiset() == readable_documents(entries@).to_multiset(),
        documents_newest_first(document_views(r@)),
{
    let mut found: Vec<Document> = Vec::new();
    let mut i: usize = 0;
    while i < entries.len()
        invariant
            i <= entries.len(),
            document_views(found@) == readable_documents(entries@.subrange(0, i as int)),
        decreases entries.len() - i,
    {
        assert(entries@.subrange(0, i + 1).drop_last() =~= entries@.subrange(0, i as int));
        let (id, content, text) = &entries[i];
        match crate::store::read_document(id.clone(), content.clone(), text.as_str()) {
            Ok(doc) => {
                found.push(doc);
                assert(document_views(found@) =~= readable_documents(entries@.subrange(0, i + 1)));
            },
            Err(_) => {},
        }
        i += 1;
    }
    assert(entries@.subrange(0, entries.len() as int) =~= entries@);
    sort_documents(&found)
}

} // verus!
