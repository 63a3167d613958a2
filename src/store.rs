//! The document operations: what is written on create and update, and what
//! a document is when read back.
//!
//! The caller reads and writes the files; these functions decide ids, fill
//! in defaults and compose the records. `existing` always lists the ids of
//! the content files that are in the folder.
use vstd::prelude::*;

use crate::codec::{DecodeError, decode_meta, parse_document_meta};
use crate::model::{Document, DocumentMeta, DocumentView, MetaView, default_status, default_status_text, document_of};
use crate::naming::{generate_unique_filename, ids_of, unique_id};
use crate::sanitize::{sanitize_filename, sanitized};
use crate::text::opt_chars;

verus! {

/// The status given, or the default one.
pub open spec fn status_or_default(status: Option<Seq<char>>) -> Seq<char> {
    match status {
        Some(s) => s,
        None => default_status_text(),
    }
}

/// A given value, or the one that stood before.
pub open spec fn or_keep<T>(given: Option<T>, before: T) -> T {
    match given {
        Some(v) => v,
        None => before,
    }
}

/// The document that creating one with these values at time `now` gives.
pub open spec fn created_document(
    taken: Seq<Seq<char>>,
    title: Seq<char>,
    content: Seq<char>,
    start_date: i64,
    end_date: i64,
    status: Option<Seq<char>>,
    now: i64,
) -> DocumentView {
    DocumentView {
        id: unique_id(taken, sanitized(title), now as int),
        title,
        content,
        start_date,
        end_date,
        status: status_or_default(status),
        created_at: now,
        updated_at: now,
    }
}

/// A new document: its id is the base id of `title` made unique among
/// `existing`, its status `"none"` where none is given, and it is created and
/// updated at `now`. Its content file and metadata file are then written under
/// its id.
pub fn create_document(
    existing: &Vec<String>,
    title: String,
    content: String,
    start_date: i64,
    end_date: i64,
    status: Option<String>,
    now: i64,
) -> (r: Document)
    ensures
        r@ == created_document(
            ids_of(existing@),
            title@,
            content@,
            start_date,
            end_date,
            opt_chars(status),
            now,
        ),
{
    let status = match status {
        Some(s) => s,
        None => default_status(),
    };
    let base = sanitize_filename(title.as_str());
    let id = generate_unique_filename(existing, base.as_str(), now);
    Document {
        id,
        title,
        content,
        start_date,
        end_date,
        status,
        created_at: now,
        updated_at: now,
    }
}

/// The document `id` whose content file holds `content` and whose metadata
/// file holds `meta_json`; an error where the metadata cannot be read.
pub fn read_document(id: String, content: String, meta_json: &str) -> (r: Result<Document, DecodeError>)
    ensures
        r is Ok <==> decode_meta(meta_json@) is Some,
        r matches Ok(d) ==> d@ == document_of(id@, content@, decode_meta(meta_json@)->Some_0),
        r matches Err(e) ==> e == DecodeError::Metadata,
{
    match parse_document_meta(meta_json) {
        Ok(meta) => Ok(
            Document {
                id,
                title: meta.title,
                content,
                start_date: meta.start_date,
                end_date: meta.end_date,
                status: meta.status,
                created_at: meta.created_at,
                updated_at: meta.updated_at,
            },
        ),
        Err(e) => Err(e),
    }
}

/// The outcome of an update: the document as it now is, and the id whose
/// files are to be removed once the new ones are written, where the document
/// moved to another id.
pub struct DocumentUpdate {
    pub document: Document,
    pub stale_id: Option<String>,
}

/// Whether an update retitles the document.
pub open spec fn title_changes(title: Option<Seq<char>>, m: MetaView) -> bool {
    title is Some && title->Some_0 != m.title
}

/// The ids in `taken` other than `id`: the files of `id` go away when a
/// document moves.
pub open spec fn others(taken: Seq<Seq<char>>, id: Seq<char>) -> Seq<Seq<char>> {
    taken.filter(|x: Seq<char>| x != id)
}

/// The id of a document after an update: a new unique id where the title
/// changes and its base id is not the current id, else the current id.
pub open spec fn updated_id(
    taken: Seq<Seq<char>>,
    id: Seq<char>,
    m: MetaView,
    title: Option<Seq<char>>,
    now: i64,
) -> Seq<char> {
    if title_changes(title, m) && sanitized(title->Some_0) != id {
        unique_id(others(taken, id), sanitized(title->Some_0), now as int)
    } else {
        id
    }
}

/// The document after an update of the document `id` with content `content`
/// and metadata `m`: each field that is given replaces the old one, and it is
/// updated at `now`.
pub open spec fn updated_document(
    taken: Seq<Seq<char>>,
    id: Seq<char>,
    content: Seq<char>,
    m: MetaView,
    new_title: Option<Seq<char>>,
    new_content: Option<Seq<char>>,
    start_date: Option<i64>,
    end_date: Option<i64>,
    status: Option<Seq<char>>,
    now: i64,
) -> DocumentView {
    DocumentView {
        id: updated_id(taken, id, m, new_title, now),
        title: or_keep(new_title, m.title),
        content: or_keep(new_content, content),
        start_date: or_keep(start_date, m.start_date),
        end_date: or_keep(end_date, m.end_date),
        status: or_keep(status, m.status),
        created_at: m.created_at,
        updated_at: now,
    }
}

fn ids_other_than(existing: &Vec<String>, id: &String) -> (r: Vec<String>)
    ensures
        ids_of(r@) == others(ids_of(existing@), id@),
{
    let ghost all = ids_of(existing@);
    let ghost pred = |x: Seq<char>| x != id@;
    let mut r: Vec<String> = Vec::new();
    let mut i: usize = 0;
    while i < existing.len()
        invariant
            i <= existing.len(),
            all == ids_of(existing@),
            pred == (|x: Seq<char>| x != id@),
            ids_of(r@) == all.subrange(0, i as int).filter(pred),
        decreases existing.len() - i,
    {
        proof {
            reveal(Seq::filter);
            assert(all.subrange(0, i + 1).drop_last() =~= all.subrange(0, i as int));
        }
        if existing[i] != *id {
            r.push(existing[i].clone());
            assert(ids_of(r@) =~= all.subrange(0, i + 1).filter(pred));
        }
        i += 1;
    }
    assert(all.subrange(0, existing.len() as int) =~= all);
    r
}

/// Updates the document `id`, whose content file holds `current_content` and
/// whose metadata is `meta`, at time `now`. Fields that are not given keep
/// their values. Where the title changes and its base id differs from `id`,
/// the document moves to a new id, made unique among the other documents, and
/// the files of `id` are to be removed after the new ones are written.
pub fn update_document(
    existing: &Vec<String>,
    id: String,
    current_content: String,
    meta: DocumentMeta,
    title: Option<String>,
    content: Option<String>,
    start_date: Option<i64>,
    end_date: Option<i64>,
    status: Option<String>,
    now: i64,
) -> (r: DocumentUpdate)
    ensures
        r.document@ == updated_document(
            ids_of(existing@),
            id@,
            current_content@,
            meta@,
            opt_chars(title),
            opt_chars(content),
            start_date,
            end_date,
            opt_chars(status),
            now,
        ),
        opt_chars(r.stale_id) == if r.document@.id != id@ {
            Some(id@)
        } else {
            None::<Seq<char>>
        },
{
    let ghost m = meta@;
    let title_changed = match &title {
        Some(t) => *t != meta.title,
        None => false,
    };
    let new_title = match title {
        Some(t) => t,
        None => meta.title,
    };
    let new_content = match content {
        Some(c) => c,
        None => current_content,
    };
    let new_start = match start_date {
        Some(d) => d,
        None => meta.start_date,
    };
    let new_end = match end_date {
        Some(d) => d,
        None => meta.end_date,
    };
    let new_status = match status {
        Some(s) => s,
        None => meta.status,
    };
    let mut new_id = id.clone();
    let mut stale_id: Option<String> = None;
    if title_changed {
        let base = sanitize_filename(new_title.as_str());
        if base != id {
            let others = ids_other_than(existing, &id);
            let moved = generate_unique_filename(&others, base.as_str(), now);
            if moved != id {
                stale_id = Some(id);
            }
            new_id = moved;
        }
    }
    DocumentUpdate {
        document: Document {
            id: new_id,
            title: new_title,
            content: new_content,
            start_date: new_start,
            end_date: new_end,
            status: new_status,
            created_at: meta.created_at,
            updated_at: now,
        },
        stale_id,
    }
}

} // verus!
