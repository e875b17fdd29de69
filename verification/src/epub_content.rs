//! A page of the document, as a caller hands it over.

use vstd::prelude::*;
use crate::toc::{as_child, children_view, levelled, node_levelled, relevel_fits, Element, Node};

verus! {

/// What a page is in the structure of a book. The guide and the landmarks of
/// a document name such pages, each in its own words.
#[derive(Debug, Clone, Copy, PartialEq, Eq, Structural)]
pub enum ReferenceType {
    /// The cover page (the page, not the cover image).
    Cover,
    /// The page with title, author and publisher.
    TitlePage,
    /// The table of contents.
    Toc,
    /// The index.
    Index,
    /// The glossary.
    Glossary,
    /// The acknowledgements.
    Acknowledgements,
    /// The bibliography.
    Bibliography,
    /// The colophon.
    Colophon,
    /// The copyright page.
    Copyright,
    /// The dedication.
    Dedication,
    /// The epigraph.
    Epigraph,
    /// The foreword.
    Foreword,
    /// The list of illustrations.
    Loi,
    /// The list of tables.
    Lot,
    /// The notes.
    Notes,
    /// The preface.
    Preface,
    /// Where the text proper begins.
    Text,
}

impl ReferenceType {
    /// The word for this kind of page in the guide of a document.
    pub open spec fn guide_token(self) -> Seq<char> {
        match self {
            ReferenceType::Cover => "cover"@,
            ReferenceType::TitlePage => "title-page"@,
            ReferenceType::Toc => "toc"@,
            ReferenceType::Index => "index"@,
            ReferenceType::Glossary => "glossary"@,
            ReferenceType::Acknowledgements => "acknowledgements"@,
            ReferenceType::Bibliography => "bibliography"@,
            ReferenceType::Colophon => "colophon"@,
            ReferenceType::Copyright => "copyright"@,
            ReferenceType::Dedication => "dedication"@,
            ReferenceType::Epigraph => "epigraph"@,
            ReferenceType::Foreword => "foreword"@,
            ReferenceType::Loi => "loi"@,
            ReferenceType::Lot => "lot"@,
            ReferenceType::Notes => "notes"@,
            ReferenceType::Preface => "preface"@,
            ReferenceType::Text => "text"@,
        }
    }

    /// The word for this kind of page among the landmarks of a document.
    pub open spec fn landmark_token(self) -> Seq<char> {
        match self {
            ReferenceType::Cover => "cover"@,
            ReferenceType::TitlePage => "titlepage"@,
            ReferenceType::Toc => "toc"@,
            ReferenceType::Index => "index"@,
            ReferenceType::Glossary => "glossary"@,
            ReferenceType::Acknowledgements => "acknowledgements"@,
            ReferenceType::Bibliography => "bibliography"@,
            ReferenceType::Colophon => "colophon"@,
            ReferenceType::Copyright => "copyright-page"@,
            ReferenceType::Dedication => "dedication"@,
            ReferenceType::Epigraph => "epigraph"@,
            ReferenceType::Foreword => "foreword"@,
            ReferenceType::Loi => "loi"@,
            ReferenceType::Lot => "lot"@,
            ReferenceType::Notes => "endnotes"@,
            ReferenceType::Preface => "preface"@,
            ReferenceType::Text => "bodymatter"@,
        }
    }

    /// The word for this kind of page in the guide.
    pub fn guide_name(self) -> (r: &'static str)
        ensures
            r@ == self.guide_token(),
    {
        match self {
            ReferenceType::Cover => "cover",
            ReferenceType::TitlePage => "title-page",
            ReferenceType::Toc => "toc",
            ReferenceType::Index => "index",
            ReferenceType::Glossary => "glossary",
            ReferenceType::Acknowledgements => "acknowledgements",
            ReferenceType::Bibliography => "bibliography",
            ReferenceType::Colophon => "colophon",
            ReferenceType::Copyright => "copyright",
            ReferenceType::Dedication => "dedication",
            ReferenceType::Epigraph => "epigraph",
            ReferenceType::Foreword => "foreword",
            ReferenceType::Loi => "loi",
            ReferenceType::Lot => "lot",
            ReferenceType::Notes => "notes",
            ReferenceType::Preface => "preface",
            ReferenceType::Text => "text",
        }
    }

    /// The word for this kind of page among the landmarks.
    pub fn landmark_name(self) -> (r: &'static str)
        ensures
            r@ == self.landmark_token(),
    {
        match self {
            ReferenceType::Cover => "cover",
            ReferenceType::TitlePage => "titlepage",
            ReferenceType::Toc => "toc",
            ReferenceType::Index => "index",
            ReferenceType::Glossary => "glossary",
            ReferenceType::Acknowledgements => "acknowledgements",
            ReferenceType::Bibliography => "bibliography",
            ReferenceType::Colophon => "colophon",
            ReferenceType::Copyright => "copyright-page",
            ReferenceType::Dedication => "dedication",
            ReferenceType::Epigraph => "epigraph",
            ReferenceType::Foreword => "foreword",
            ReferenceType::Loi => "loi",
            ReferenceType::Lot => "lot",
            ReferenceType::Notes => "endnotes",
            ReferenceType::Preface => "preface",
            ReferenceType::Text => "bodymatter",
        }
    }
}

/// A page of the document: where it goes, what it holds, and how it shows in
/// the table of contents and the guide.
#[derive(Debug)]
pub struct EpubContent {
    /// Link and title of the page, with the headings inside the page.
    pub toc: Element,
    /// What the page holds.
    pub content: Vec<u8>,
    /// What the page is in the structure of the book, if that was said.
    pub reftype: Option<ReferenceType>,
}

/// What an [`EpubContent`] stands for.
pub ghost struct PageView {
    pub toc: Node,
    pub content: Seq<u8>,
    pub reftype: Option<ReferenceType>,
}

impl View for EpubContent {
    type V = PageView;

    open spec fn view(&self) -> PageView {
        PageView { toc: self.toc@, content: self.content@, reftype: self.reftype }
    }
}

impl EpubContent {
    /// A page at level 1 without a title: it will not show in the table of
    /// contents unless it gets one.
    pub fn new(href: &str, content: Vec<u8>) -> (r: Self)
        ensures
            r@ == (PageView {
                toc: Node {
                    level: 1,
                    url: href@,
                    title: Seq::empty(),
                    children: Seq::empty(),
                },
                content: content@,
                reftype: None,
            }),
            node_levelled(r@.toc),
    {
        let toc = Element::new(href, "");
        proof {
            reveal_strlit("");
            assert(""@ =~= Seq::<char>::empty());
        }
        EpubContent { toc, content, reftype: None }
    }

    /// Gives the page a title, under which it shows in the table of
    /// contents.
    pub fn title(self, title: &str) -> (r: Self)
        ensures
            r@ == (PageView { toc: Node { title: title@, ..self@.toc }, ..self@ }),
            node_levelled(self@.toc) ==> node_levelled(r@.toc),
    {
        let mut page = self;
        proof {
            children_view(&page.toc);
        }
        page.toc.title = title.to_owned();
        proof {
            children_view(&page.toc);
        }
        page
    }

    /// Sets the level at which the page shows in the table of contents,
    /// which is 1 or deeper.
    pub fn level(self, level: i32) -> (r: Self)
        requires
            level >= 1,
        ensures
            r@ == (PageView { toc: Node { level: level as int, ..self@.toc }, ..self@ }),
            levelled(self@.toc.children) ==> node_levelled(r@.toc),
    {
        let EpubContent { toc, content, reftype } = self;
        EpubContent { toc: toc.level(level), content, reftype }
    }

    /// Adds a heading inside the page, below the page's own. A heading that
    /// does not lie deeper than the page is moved one level below it first.
    pub fn child(self, elem: Element) -> (r: Self)
        requires
            elem@.level <= self@.toc.level ==> relevel_fits(elem@, self@.toc.level + 1),
        ensures
            r@ == (PageView {
                toc: Node {
                    children: self@.toc.children.push(as_child(elem@, self@.toc.level)),
                    ..self@.toc
                },
                ..self@
            }),
            node_levelled(self@.toc) && node_levelled(elem@) ==> node_levelled(r@.toc),
    {
        let EpubContent { toc, content, reftype } = self;
        EpubContent { toc: toc.child(elem), content, reftype }
    }

    /// Says what the page is in the structure of the book. Such a page is
    /// named in the guide of the document.
    pub fn reftype(self, reftype: ReferenceType) -> (r: Self)
        ensures
            r@ == (PageView { reftype: Some(reftype), ..self@ }),
            node_levelled(self@.toc) ==> node_levelled(r@.toc),
    {
        let EpubContent { toc, content, reftype: _ } = self;
        EpubContent { toc, content, reftype: Some(reftype) }
    }
}

} // verus!
