//! Assembly of EPUB documents: a table of contents built from a flat stream
//! of levelled entries, the manifest derived from the registered resources,
//! and the ordered list of archive entries that make up the container.
//!
//! Every function comes with a contract over sequences of characters and
//! bytes. Verus checks the body of each against its contract, with six
//! exceptions whose contracts are taken on trust, because their bodies call
//! code that Verus does not read: `text::push_char` and `text::pop_char`
//! (`String::push` and `String::pop`), `markup::encode_text` (the
//! `html_escape` crate), `render::fill_in` (the `mustache` crate), and in
//! `epub` the two functions that ask for the time (the `chrono` crate) and
//! for a fresh identifier (the `uuid` crate). What the template engine makes
//! of a template is given a name, `render::rendered`, and is not defined.

pub mod common;
pub mod epub;
pub mod epub_content;
pub mod ident;
pub mod manifest;
pub mod markup;
pub mod metadata;
pub mod package;
pub mod render;
pub mod templates;
pub mod text;
pub mod toc;
pub mod zip;
pub mod zip_command;
pub mod zip_command_or_library;
pub mod zip_library;

pub use epub::{Builder, Content, Documents, EpubError, Version};
pub use epub_content::{EpubContent, ReferenceType};
pub use manifest::{Item, ManifestData, Reference};
pub use metadata::{Metadata, MetadataKind};
pub use toc::{Element, NavPoint, Toc};
pub use zip::{Archive, BackendError, Entry, Zip};
pub use zip_command::ZipCommand;
pub use zip_command_or_library::ZipCommandOrLibrary;
pub use zip_library::ZipLibrary;
