//! A document store for a calendar or journal application.
//!
//! Each document is kept as two files in one folder: `<id>.md` holds the
//! content and `<id>.meta.json` holds the metadata. This crate holds the logic
//! of the store: how ids are derived from titles and kept unique, how metadata
//! is read (including the older single-date shape) and written, and how the
//! list, month and search views are built. Reading and writing the files is
//! left to the caller.

pub mod calendar;
pub mod codec;
pub mod laws;
pub mod model;
pub mod text;
pub mod sanitize;
pub mod store;
pub mod naming;
pub mod query;

pub use sanitize::sanitize_filename;

pub use calendar::{month_bounds, overlaps};
pub use codec::{
    encode_app_config, encode_document_meta, parse_app_config, parse_document_meta, DecodeError,
};
pub use model::{default_status, AppConfig, Document, DocumentMeta, DocumentSummary};
pub use naming::{
    content_file_name, generate_unique_filename, id_from_content_file, id_from_meta_file,
    meta_file_name,
};
pub use query::{
    copy_document, copy_summary, get_all_document_summaries, get_all_documents,
    get_document_summaries_for_month, get_documents_for_month,
    matches_folded, search_document_summaries, search_documents, sort_documents, sort_summaries,
};
pub use store::{create_document, read_document, update_document, DocumentUpdate};
