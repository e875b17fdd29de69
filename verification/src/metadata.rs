//! What a document says of itself.

use vstd::prelude::*;
use crate::text::texts;

verus! {

/// The fields of the metadata that a caller can set.
#[derive(Debug, Clone, Copy, PartialEq, Eq, Structural)]
pub enum MetadataKind {
    /// An author of the book. A book may have several.
    Author,
    /// The title of the book.
    Title,
    /// The language of the book.
    Lang,
    /// The program that made the document.
    Generator,
    /// The heading of the table of contents.
    TocName,
    /// A subject of the book. A book may have several.
    Subject,
    /// A description of the book. A book may have several.
    Description,
    /// The licence of the book.
    License,
}

/// The metadata of a document.
#[derive(Debug)]
pub struct Metadata {
    /// The title of the book.
    pub title: String,
    /// The authors, in the order in which they were named.
    pub author: Vec<String>,
    /// The language of the book.
    pub lang: String,
    /// The program that made the document.
    pub generator: String,
    /// The heading of the table of contents.
    pub toc_name: String,
    /// The descriptions, in the order in which they were given.
    pub description: Vec<String>,
    /// The subjects, in the order in which they were given.
    pub subject: Vec<String>,
    /// The licence, if one was given.
    pub license: Option<String>,
}

/// What [`Metadata`] stands for.
pub ghost struct MetadataView {
    pub title: Seq<char>,
    pub author: Seq<Seq<char>>,
    pub lang: Seq<char>,
    pub generator: Seq<char>,
    pub toc_name: Seq<char>,
    pub description: Seq<Seq<char>>,
    pub subject: Seq<Seq<char>>,
    pub license: Option<Seq<char>>,
}

impl View for Metadata {
    type V = MetadataView;

    open spec fn view(&self) -> MetadataView {
        MetadataView {
            title: self.title@,
            author: texts(self.author@),
            lang: self.lang@,
            generator: self.generator@,
            toc_name: self.toc_name@,
            description: texts(self.description@),
            subject: texts(self.subject@),
            license: match self.license {
                Some(s) => Some(s@),
                None => None,
            },
        }
    }
}

/// The metadata of a document of which nothing was said yet.
pub open spec fn initial_metadata() -> MetadataView {
    MetadataView {
        title: Seq::empty(),
        author: Seq::empty(),
        lang: "en"@,
        generator: "Rust EPUB library"@,
        toc_name: "Table Of Contents"@,
        description: Seq::empty(),
        subject: Seq::empty(),
        license: None,
    }
}

/// A field of several values after `value` was set: one value more, or none
/// at all where `value` is empty.
pub open spec fn collected(values: Seq<Seq<char>>, value: Seq<char>) -> Seq<Seq<char>> {
    if value.len() == 0 {
        Seq::empty()
    } else {
        values.push(value)
    }
}

/// The metadata after the field `key` was set to `value`. A field of one
/// value takes the new one; a field of several values collects it.
pub open spec fn updated(m: MetadataView, key: MetadataKind, value: Seq<char>) -> MetadataView {
    match key {
        MetadataKind::Author => MetadataView { author: collected(m.author, value), ..m },
        MetadataKind::Title => MetadataView { title: value, ..m },
        MetadataKind::Lang => MetadataView { lang: value, ..m },
        MetadataKind::Generator => MetadataView { generator: value, ..m },
        MetadataKind::TocName => MetadataView { toc_name: value, ..m },
        MetadataKind::Subject => MetadataView { subject: collected(m.subject, value), ..m },
        MetadataKind::Description => MetadataView {
            description: collected(m.description, value),
            ..m
        },
        MetadataKind::License => MetadataView { license: Some(value), ..m },
    }
}

/// Sets `value` in a field of several values.
fn collect(values: &mut Vec<String>, value: &str)
    ensures
        texts(final(values)@) == collected(texts(old(values)@), value@),
{
    if value.is_empty() {
        values.clear();
        assert(texts(values@) =~= Seq::<Seq<char>>::empty());
    } else {
        values.push(value.to_owned());
        assert(texts(values@) =~= texts(old(values)@).push(value@));
    }
}

impl Metadata {
    /// The metadata of a document of which nothing was said yet: written in
    /// English, with a table of contents under its usual heading.
    pub fn new() -> (r: Self)
        ensures
            r@ == initial_metadata(),
    {
        let r = Metadata {
            title: String::new(),
            author: Vec::new(),
            lang: "en".to_owned(),
            generator: "Rust EPUB library".to_owned(),
            toc_name: "Table Of Contents".to_owned(),
            description: Vec::new(),
            subject: Vec::new(),
            license: None,
        };
        assert(texts(r.author@) =~= Seq::<Seq<char>>::empty());
        assert(texts(r.description@) =~= Seq::<Seq<char>>::empty());
        assert(texts(r.subject@) =~= Seq::<Seq<char>>::empty());
        r
    }

    /// Sets the field `key` to `value`. Title, language, generator, heading
    /// of the table of contents and licence take the new value. Author,
    /// subject and description collect one value after the other; an empty
    /// value clears what was collected.
    pub fn set(&mut self, key: MetadataKind, value: &str)
        ensures
            final(self)@ == updated(old(self)@, key, value@),
    {
        match key {
            MetadataKind::Author => collect(&mut self.author, value),
            MetadataKind::Title => {
                self.title = value.to_owned();
            },
            MetadataKind::Lang => {
                self.lang = value.to_owned();
            },
            MetadataKind::Generator => {
                self.generator = value.to_owned();
            },
            MetadataKind::TocName => {
                self.toc_name = value.to_owned();
            },
            MetadataKind::Subject => collect(&mut self.subject, value),
            MetadataKind::Description => collect(&mut self.description, value),
            MetadataKind::License => {
                self.license = Some(value.to_owned());
            },
        }
    }
}

/// Setting a field of several values to the empty text leaves it without
/// values, whatever it held; any other value comes last in it, behind all
/// that it held.
pub proof fn empty_value_clears(m: MetadataView, value: Seq<char>)
    ensures
        updated(m, MetadataKind::Author, Seq::empty()).author == Seq::<Seq<char>>::empty(),
        updated(m, MetadataKind::Subject, Seq::empty()).subject == Seq::<Seq<char>>::empty(),
        updated(m, MetadataKind::Description, Seq::empty()).description == Seq::<
            Seq<char>,
        >::empty(),
        value.len() > 0 ==> updated(m, MetadataKind::Author, value).author == m.author.push(value),
        value.len() > 0 ==> updated(m, MetadataKind::Subject, value).subject == m.subject.push(
            value,
        ),
        value.len() > 0 ==> updated(m, MetadataKind::Description, value).description
            == m.description.push(value),
{
}

} // verus!
