//! The records of the store and their mathematical views.
use vstd::prelude::*;

verus! {

/// A document: its content and the metadata kept beside it.
#[derive(Clone, Debug, PartialEq, Eq)]
pub struct Document {
    pub id: String,
    pub title: String,
    pub content: String,
    pub start_date: i64,
    pub end_date: i64,
    pub status: String,
    pub created_at: i64,
    pub updated_at: i64,
}

/// A document without its content, for list and search views.
#[derive(Clone, Debug, PartialEq, Eq)]
pub struct DocumentSummary {
    pub id: String,
    pub title: String,
    pub start_date: i64,
    pub end_date: i64,
    pub status: String,
    pub created_at: i64,
    pub updated_at: i64,
}

/// What the metadata file of a document holds.
#[derive(Clone, Debug, PartialEq, Eq)]
pub struct DocumentMeta {
    pub title: String,
    pub start_date: i64,
    pub end_date: i64,
    pub status: String,
    pub created_at: i64,
    pub updated_at: i64,
}

/// The application's settings: the folder that documents are kept in, when
/// one was chosen.
#[derive(Clone, Debug, PartialEq, Eq)]
pub struct AppConfig {
    pub documents_folder: Option<String>,
}

pub ghost struct DocumentView {
    pub id: Seq<char>,
    pub title: Seq<char>,
    pub content: Seq<char>,
    pub start_date: i64,
    pub end_date: i64,
    pub status: Seq<char>,
    pub created_at: i64,
    pub updated_at: i64,
}

pub ghost struct SummaryView {
    pub id: Seq<char>,
    pub title: Seq<char>,
    pub start_date: i64,
    pub end_date: i64,
    pub status: Seq<char>,
    pub created_at: i64,
    pub updated_at: i64,
}

pub ghost struct MetaView {
    pub title: Seq<char>,
    pub start_date: i64,
    pub end_date: i64,
    pub status: Seq<char>,
    pub created_at: i64,
    pub updated_at: i64,
}

impl View for Document {
    type V = DocumentView;

    open spec fn view(&self) -> DocumentView {
        DocumentView {
            id: self.id@,
            title: self.title@,
            content: self.content@,
            start_date: self.start_date,
            end_date: self.end_date,
            status: self.status@,
            created_at: self.created_at,
            updated_at: self.updated_at,
        }
    }
}

impl View for DocumentSummary {
    type V = SummaryView;

    open spec fn view(&self) -> SummaryView {
        SummaryView {
            id: self.id@,
            title: self.title@,
            start_date: self.start_date,
            end_date: self.end_date,
            status: self.status@,
            created_at: self.created_at,
            updated_at: self.updated_at,
        }
    }
}

impl View for DocumentMeta {
    type V = MetaView;

    open spec fn view(&self) -> MetaView {
        MetaView {
            title: self.title@,
            start_date: self.start_date,
            end_date: self.end_date,
            status: self.status@,
            created_at: self.created_at,
            updated_at: self.updated_at,
        }
    }
}

impl View for AppConfig {
    type V = Option<Seq<char>>;

    open spec fn view(&self) -> Option<Seq<char>> {
        match self.documents_folder {
            Some(f) => Some(f@),
            None => None,
        }
    }
}

/// The document that a content and a metadata file make together.
pub open spec fn document_of(id: Seq<char>, content: Seq<char>, m: MetaView) -> DocumentView {
    DocumentView {
        id,
        title: m.title,
        content,
        start_date: m.start_date,
        end_date: m.end_date,
        status: m.status,
        created_at: m.created_at,
        updated_at: m.updated_at,
    }
}

/// The metadata that stands beside a document.
pub open spec fn meta_of(d: DocumentView) -> MetaView {
    MetaView {
        title: d.title,
        start_date: d.start_date,
        end_date: d.end_date,
        status: d.status,
        created_at: d.created_at,
        updated_at: d.updated_at,
    }
}

/// The summary of document `id` with metadata `m`.
pub open spec fn summary_of(id: Seq<char>, m: MetaView) -> SummaryView {
    SummaryView {
        id,
        title: m.title,
        start_date: m.start_date,
        end_date: m.end_date,
        status: m.status,
        created_at: m.created_at,
        updated_at: m.updated_at,
    }
}

/// The status a document has when none is given.
pub open spec fn default_status_text() -> Seq<char> {
    "none"@
}

/// The status a document has when none is given: `"none"`.
pub fn default_status() -> (r: String)
    ensures
        r@ == default_status_text(),
{
    String::from_str("none")
}

impl Document {
    /// The metadata that is written beside this document.
    pub fn meta(&self) -> (r: DocumentMeta)
        ensures
            r@ == meta_of(self@),
    {
        DocumentMeta {
            title: self.title.clone(),
            start_date: self.start_date,
            end_date: self.end_date,
            status: self.status.clone(),
            created_at: self.created_at,
            updated_at: self.updated_at,
        }
    }

    /// This document without its content.
    pub fn summary(&self) -> (r: DocumentSummary)
        ensures
            r@ == summary_of(self@.id, meta_of(self@)),
    {
        DocumentSummary {
            id: self.id.clone(),
            title: self.title.clone(),
            start_date: self.start_date,
            end_date: self.end_date,
            status: self.status.clone(),
            created_at: self.created_at,
            updated_at: self.updated_at,
        }
    }
}

impl DocumentSummary {
    /// The summary of document `id`, read from its metadata.
    pub fn from_meta(id: String, meta: DocumentMeta) -> (r: DocumentSummary)
        ensures
            r@ == summary_of(id@, meta@),
    {
        DocumentSummary {
            id,
            title: meta.title,
            start_date: meta.start_date,
            end_date: meta.end_date,
            status: meta.status,
            created_at: meta.created_at,
            updated_at: meta.updated_at,
        }
    }
}

} // verus!
