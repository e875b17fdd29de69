//! The builder of a document: it takes resources, pages and metadata, and
//! hands out the archive.

use vstd::prelude::*;
use vstd::string::*;
use crate::epub_content::{EpubContent, PageView, ReferenceType};
use crate::manifest::{
    added_file_is_listed, assemble, id_of, item_of, items_of, manifest_of, spine_of,
    ManifestData,
};
use crate::metadata::{initial_metadata, updated, Metadata, MetadataKind, MetadataView};
use crate::package::{
    nav_data, nav_data_of, navigation_data_is_unambiguous, ncx_data, ncx_data_of, opf_data,
    opf_data_is_unambiguous, opf_data_of,
};
use crate::render::{fill_in, rendered, DataView};
use crate::templates::{
    CONTAINER, CONTENT_OPF_V2, CONTENT_OPF_V3, IBOOKS, NAV_XHTML_V2, NAV_XHTML_V3, TOC_NCX,
};
use crate::toc::{
    children_view, insert, insert_keeps_levels, levelled, node_levelled, Element, Node, Toc,
};
use crate::zip::{
    archive_of, capital_is_no_marker, file_entry, marker_entry, Archive, BackendError,
    EntryView, Zip,
};

verus! {

/// The version of the format in which a document is written.
#[non_exhaustive]
#[derive(Debug, Copy, Clone, PartialOrd, PartialEq, Eq, Structural)]
pub enum Version {
    /// Version 2.0.1.
    V20,
    /// Version 3.0.1.
    V30,
}

/// Why a document could not be made.
#[derive(Debug, Clone, Copy, PartialEq, Eq, Structural)]
pub enum EpubError {
    /// Reading a resource or writing the archive failed.
    Io,
    /// The packaging tool is missing or does not work.
    BackendUnavailable,
    /// A template could not be filled in.
    Render,
    /// An entry was written where the marker entry belongs.
    InvalidEntryOrder,
}

impl EpubError {
    /// The error of the document for an error of a strategy.
    pub open spec fn spec_of_backend(e: BackendError) -> EpubError {
        match e {
            BackendError::Unavailable => EpubError::BackendUnavailable,
            BackendError::Io => EpubError::Io,
            BackendError::InvalidEntry => EpubError::InvalidEntryOrder,
        }
    }

    /// The error of the document for an error of a strategy.
    pub fn of_backend(e: BackendError) -> (r: EpubError)
        ensures
            r == EpubError::spec_of_backend(e),
    {
        match e {
            BackendError::Unavailable => EpubError::BackendUnavailable,
            BackendError::Io => EpubError::Io,
            BackendError::InvalidEntry => EpubError::InvalidEntryOrder,
        }
    }
}

/// A file of the document as the manifest knows it.
#[derive(Debug)]
pub struct Content {
    /// The path of the file, as the caller gave it.
    pub file: String,
    /// The media type of the file.
    pub mime: String,
    /// Whether the file belongs to the reading order.
    pub itemref: bool,
    /// Whether the file is the cover image.
    pub cover: bool,
    /// What the file is in the structure of the book, if that was said.
    pub reftype: Option<ReferenceType>,
    /// The title under which the guide names the file.
    pub title: String,
}

/// What a [`Content`] stands for.
pub ghost struct ContentView {
    pub file: Seq<char>,
    pub mime: Seq<char>,
    pub itemref: bool,
    pub cover: bool,
    pub reftype: Option<ReferenceType>,
    pub title: Seq<char>,
}

impl View for Content {
    type V = ContentView;

    open spec fn view(&self) -> ContentView {
        ContentView {
            file: self.file@,
            mime: self.mime@,
            itemref: self.itemref,
            cover: self.cover,
            reftype: self.reftype,
            title: self.title@,
        }
    }
}

/// The views of a sequence of files, in order.
pub open spec fn content_views(v: Seq<Content>) -> Seq<ContentView> {
    Seq::new(v.len(), |i: int| v[i]@)
}

/// A file that was only just named: outside the reading order, no cover, no
/// place in the guide.
pub open spec fn plain_file(file: Seq<char>, mime: Seq<char>) -> ContentView {
    ContentView {
        file,
        mime,
        itemref: false,
        cover: false,
        reftype: None,
        title: Seq::empty(),
    }
}

impl Content {
    /// A file outside the reading order that is neither the cover nor named
    /// in the guide.
    pub fn new(file: &str, mime: &str) -> (r: Self)
        ensures
            r@ == plain_file(file@, mime@),
    {
        Content {
            file: file.to_owned(),
            mime: mime.to_owned(),
            itemref: false,
            cover: false,
            reftype: None,
            title: String::new(),
        }
    }
}

/// Puts a document together. Resources and pages are written to the
/// strategy as they come; generating the document adds the files that are
/// made from what was gathered, and hands out the archive.
#[derive(Debug)]
pub struct Builder<Z: Zip> {
    version: Version,
    zip: Z,
    files: Vec<Content>,
    metadata: Metadata,
    toc: Toc,
    stylesheet: bool,
    inline_toc: bool,
}

/// What a [`Builder`] holds.
pub ghost struct BuilderView {
    /// The version of the format.
    pub version: Version,
    /// The tool that is to store the archive, or none where it is stored in
    /// memory: the strategy that was chosen when the document was begun.
    pub tool: Option<Seq<char>>,
    /// The files written to the strategy, in order.
    pub written: Seq<EntryView>,
    /// The files that the manifest will list, in order.
    pub files: Seq<ContentView>,
    /// The metadata.
    pub metadata: MetadataView,
    /// The table of contents.
    pub toc: Seq<Node>,
    /// Whether a stylesheet was given.
    pub stylesheet: bool,
    /// Whether the document gets a page with its table of contents.
    pub inline_toc: bool,
}

impl<Z: Zip> View for Builder<Z> {
    type V = BuilderView;

    closed spec fn view(&self) -> BuilderView {
        BuilderView {
            version: self.version,
            tool: self.zip.tool(),
            written: self.zip.written(),
            files: content_views(self.files@),
            metadata: self.metadata@,
            toc: self.toc@,
            stylesheet: self.stylesheet,
            inline_toc: self.inline_toc,
        }
    }
}

/// The two files that every document begins with.
pub open spec fn boilerplate() -> Seq<EntryView> {
    seq![
        file_entry("META-INF/container.xml"@, CONTAINER.spec_bytes()),
        file_entry("META-INF/com.apple.ibooks.display-options.xml"@, IBOOKS.spec_bytes()),
    ]
}

/// The path of a resource inside the archive, before its slashes are set
/// right.
pub open spec fn resource_path(path: Seq<char>) -> Seq<char> {
    "OEBPS/"@ + path
}

/// The builder after a file was written and listed.
pub open spec fn with_file(b: BuilderView, content: Seq<u8>, c: ContentView) -> BuilderView {
    BuilderView {
        written: b.written.push(file_entry(resource_path(c.file), content)),
        files: b.files.push(c),
        ..b
    }
}

impl<Z: Zip> Builder<Z> {
    /// Begins a document of version 2 on the strategy `zip`: the two files
    /// that every document begins with are written, and nothing else is
    /// there yet.
    pub fn new(zip: Z) -> (r: Result<Self, EpubError>)
        ensures
            r matches Ok(b) && b@ == (BuilderView {
                version: Version::V20,
                tool: zip.tool(),
                written: zip.written() + boilerplate(),
                files: Seq::empty(),
                metadata: initial_metadata(),
                toc: Seq::empty(),
                stylesheet: false,
                inline_toc: false,
            }) && levelled(b@.toc),
    {
        let mut epub = Builder {
            version: Version::V20,
            zip,
            files: Vec::new(),
            metadata: Metadata::new(),
            toc: Toc::new(),
            stylesheet: false,
            inline_toc: false,
        };
        proof {
            reveal_strlit("META-INF/container.xml");
            reveal_strlit("META-INF/com.apple.ibooks.display-options.xml");
        }
        match epub.write("META-INF/container.xml", CONTAINER.as_bytes_vec()) {
            Ok(_) => {},
            Err(e) => {
                return Err(e);
            },
        }
        match epub.write("META-INF/com.apple.ibooks.display-options.xml", IBOOKS.as_bytes_vec()) {
            Ok(_) => {},
            Err(e) => {
                return Err(e);
            },
        }
        proof {
            assert(epub.zip.written() =~= zip.written() + boilerplate());
            assert(content_views(epub.files@) =~= Seq::<ContentView>::empty());
        }
        Ok(epub)
    }

    /// Sets the version of the format. A document is of version 2 unless
    /// this is called.
    pub fn epub_version(&mut self, version: Version) -> (r: &mut Self)
        ensures
            r@ == (BuilderView { version, ..old(self)@ }),
            *final(self) == *final(r),
    {
        self.version = version;
        self
    }

    /// Sets a field of the metadata. Title, language, generator, heading of
    /// the table of contents and licence take the new value; author, subject
    /// and description collect one value after the other, and an empty value
    /// clears what was collected.
    pub fn metadata(&mut self, key: MetadataKind, value: &str) -> (r: &mut Self)
        ensures
            r@ == (BuilderView { metadata: updated(old(self)@.metadata, key, value@), ..old(self)@ }),
            *final(self) == *final(r),
    {
        self.metadata.set(key, value);
        self
    }

    /// Writes a file to the strategy. A path that begins with a capital
    /// letter is never that of the marker entry, so the file is taken.
    fn write(&mut self, path: &str, content: Vec<u8>) -> (r: Result<(), EpubError>)
        requires
            path@.len() > 0,
            'A' <= path@[0] <= 'Z',
        ensures
            r is Ok,
            final(self)@ == (BuilderView {
                written: old(self)@.written.push(file_entry(path@, content@)),
                ..old(self)@
            }),
    {
        proof {
            capital_is_no_marker(path@);
        }
        match self.zip.write_file(path, content) {
            Ok(_) => Ok(()),
            Err(e) => Err(EpubError::of_backend(e)),
        }
    }

    /// Writes a file below `OEBPS/` and lists it.
    fn put(&mut self, file: Content, content: Vec<u8>) -> (r: Result<(), EpubError>)
        ensures
            r is Ok,
            final(self)@ == with_file(old(self)@, content@, file@),
    {
        let mut target = "OEBPS/".to_owned();
        target.append(file.file.as_str());
        proof {
            reveal_strlit("OEBPS/");
        }
        match self.write(target.as_str(), content) {
            Ok(_) => {},
            Err(e) => {
                return Err(e);
            },
        }
        let ghost before = self.files@;
        self.files.push(file);
        assert(content_views(self.files@) =~= content_views(before).push(file@));
        Ok(())
    }

    /// Adds a resource that is no page: a picture, a font, a stylesheet. It
    /// is written below `OEBPS/` and listed in the manifest, outside the
    /// reading order.
    pub fn add_resource(&mut self, path: &str, content: Vec<u8>, mime_type: &str) -> (r: Result<
        &mut Self,
        EpubError,
    >)
        ensures
            r matches Ok(b) && b@ == with_file(old(self)@, content@, plain_file(path@, mime_type@))
                && *final(self) == *final(b),
    {
        match self.put(Content::new(path, mime_type), content) {
            Ok(_) => Ok(self),
            Err(e) => Err(e),
        }
    }
}

/// The template of the package document for a version.
pub open spec fn opf_template(version: Version) -> Seq<char> {
    match version {
        Version::V20 => CONTENT_OPF_V2@,
        Version::V30 => CONTENT_OPF_V3@,
    }
}

/// The template of the navigation page for a version.
pub open spec fn nav_template(version: Version) -> Seq<char> {
    match version {
        Version::V20 => NAV_XHTML_V2@,
        Version::V30 => NAV_XHTML_V3@,
    }
}

/// What filling in a template gave, as the bytes of a file or as the error
/// of the document.
pub open spec fn filled(template: Seq<char>, data: DataView) -> Result<Seq<u8>, EpubError> {
    match rendered(template, data.fields, data.lists) {
        Some(bytes) => Ok(bytes),
        None => Err(EpubError::Render),
    }
}

/// The package document of a builder, written at `date` under the identifier
/// `uuid`.
pub open spec fn opf_of(b: BuilderView, date: Seq<char>, uuid: Seq<char>) -> Result<
    Seq<u8>,
    EpubError,
> {
    filled(opf_template(b.version), opf_data_of(b.metadata, b.files, b.version, date, uuid))
}

/// The navigation map of a builder.
pub open spec fn ncx_of(b: BuilderView) -> Result<Seq<u8>, EpubError> {
    filled(TOC_NCX@, ncx_data_of(b.metadata, b.toc))
}

/// The navigation page of a builder, with a numbered list or a list without
/// numbers.
pub open spec fn nav_of(b: BuilderView, numbered: bool) -> Result<Seq<u8>, EpubError> {
    filled(nav_template(b.version), nav_data_of(b.metadata, b.files, b.toc, b.version, numbered))
}

/// The files that are made when a document is generated.
#[derive(Debug)]
pub struct Documents {
    /// The package document.
    pub opf: Vec<u8>,
    /// The navigation map.
    pub ncx: Vec<u8>,
    /// The navigation page.
    pub nav: Vec<u8>,
    /// The page with the table of contents, where the document has one.
    pub toc_page: Option<Vec<u8>>,
}

/// What [`Documents`] stands for.
pub ghost struct DocumentsView {
    pub opf: Seq<u8>,
    pub ncx: Seq<u8>,
    pub nav: Seq<u8>,
    pub toc_page: Option<Seq<u8>>,
}

impl View for Documents {
    type V = DocumentsView;

    open spec fn view(&self) -> DocumentsView {
        DocumentsView {
            opf: self.opf@,
            ncx: self.ncx@,
            nav: self.nav@,
            toc_page: match self.toc_page {
                Some(page) => Some(page@),
                None => None,
            },
        }
    }
}

/// The files made for a builder: all four templates filled in, in the order
/// package document, navigation map, navigation page, page with the table of
/// contents (that one only where the document has such a page). The first
/// error ends it.
pub open spec fn documents_of(b: BuilderView, date: Seq<char>, uuid: Seq<char>) -> Result<
    DocumentsView,
    EpubError,
> {
    match opf_of(b, date, uuid) {
        Err(e) => Err(e),
        Ok(opf) => match ncx_of(b) {
            Err(e) => Err(e),
            Ok(ncx) => match nav_of(b, true) {
                Err(e) => Err(e),
                Ok(nav) => if b.inline_toc {
                    match nav_of(b, false) {
                        Err(e) => Err(e),
                        Ok(page) => Ok(DocumentsView { opf, ncx, nav, toc_page: Some(page) }),
                    }
                } else {
                    Ok(DocumentsView { opf, ncx, nav, toc_page: None })
                },
            },
        },
    }
}

/// The entries of the files made, in the order in which they are written.
pub open spec fn document_entries(d: DocumentsView) -> Seq<EntryView> {
    seq![
        file_entry("OEBPS/content.opf"@, d.opf),
        file_entry("OEBPS/toc.ncx"@, d.ncx),
        file_entry("OEBPS/nav.xhtml"@, d.nav),
    ] + (match d.toc_page {
        Some(page) => seq![file_entry("OEBPS/toc.xhtml"@, page)],
        None => Seq::empty(),
    })
}

/// The builder with a stylesheet: as it is where it has one, and with an
/// empty one written and listed where it has none.
pub open spec fn with_stylesheet(b: BuilderView) -> BuilderView {
    if b.stylesheet {
        b
    } else {
        BuilderView {
            stylesheet: true,
            ..with_file(b, Seq::empty(), plain_file("stylesheet.css"@, "text/css"@))
        }
    }
}

/// The page with the table of contents as the manifest lists it.
pub open spec fn toc_page_file(toc_name: Seq<char>) -> ContentView {
    ContentView {
        file: "toc.xhtml"@,
        mime: "application/xhtml+xml"@,
        itemref: true,
        cover: false,
        reftype: Some(ReferenceType::Toc),
        title: toc_name,
    }
}

/// The builder after it was given a page with its table of contents: the
/// page is listed, and it has a heading in the table where the table has a
/// name.
pub open spec fn with_toc_page(b: BuilderView) -> BuilderView {
    BuilderView {
        inline_toc: true,
        toc: if b.metadata.toc_name.len() > 0 {
            insert(
                b.toc,
                Node {
                    level: 1,
                    url: "toc.xhtml"@,
                    title: b.metadata.toc_name,
                    children: Seq::empty(),
                },
            )
        } else {
            b.toc
        },
        files: b.files.push(toc_page_file(b.metadata.toc_name)),
        ..b
    }
}

/// A page as the manifest lists it. The page keeps its title there only
/// where it was said what the page is.
pub open spec fn page_file(page: PageView) -> ContentView {
    ContentView {
        file: page.toc.url,
        mime: "application/xhtml+xml"@,
        itemref: true,
        cover: false,
        reftype: page.reftype,
        title: if page.reftype is Some {
            page.toc.title
        } else {
            Seq::empty()
        },
    }
}

/// The builder after a page was added.
pub open spec fn with_page(b: BuilderView, page: PageView) -> BuilderView {
    BuilderView {
        toc: if page.toc.title.len() > 0 {
            insert(b.toc, page.toc)
        } else {
            b.toc
        },
        ..with_file(b, page.content, page_file(page))
    }
}

/// Whether generating a document from `before`, at `date` and under the
/// identifier `uuid`, gives `r` and leaves `after`. The document gets an
/// empty stylesheet if it has none. Where a template cannot be filled in
/// nothing more is written. Else the files made are written behind all that
/// was written before, the archive holds the marker entry and then every
/// file in the order in which it was written, and the strategy is left
/// without files.
pub open spec fn generated(
    before: BuilderView,
    date: Seq<char>,
    uuid: Seq<char>,
    r: Result<Archive, EpubError>,
    after: BuilderView,
) -> bool {
    let b = with_stylesheet(before);
    match documents_of(b, date, uuid) {
        Err(e) => r == Err::<Archive, EpubError>(e) && after == b,
        Ok(d) => r matches Ok(archive) && archive@ == archive_of(b.written + document_entries(d))
            && after == (BuilderView { written: Seq::empty(), ..b }),
    }
}

/// The bytes of a file made from a template, or the error of the document.
pub fn rendering(r: Result<Vec<u8>, mustache::Error>) -> (out: Result<Vec<u8>, EpubError>)
    ensures
        r matches Ok(bytes) ==> out == Ok::<Vec<u8>, EpubError>(bytes),
        r is Err ==> out == Err::<Vec<u8>, EpubError>(EpubError::Render),
{
    match r {
        Ok(bytes) => Ok(bytes),
        Err(_) => Err(EpubError::Render),
    }
}

/// How the package document writes a point in time: year, month and day,
/// the letter `T`, hour, minute and second, and `Z` for universal time.
pub const DATE_FORMAT: &'static str = "%Y-%m-%dT%H:%M:%SZ";

/// `chrono::Utc::now`, written by `DateTime::format` after the pattern
/// [`DATE_FORMAT`], which holds only items that the formatter knows. Nothing
/// is claimed of the text: it is the time of the call. On a machine whose
/// clock stands before the year 1970 the call panics; no argument can
/// prevent that.
#[verifier::external_body]
fn now_text(pattern: &str) -> (r: String)
    requires
        pattern@ == DATE_FORMAT@,
{
    chrono::Utc::now().format(pattern).to_string()
}

/// `uuid::Uuid::new_v4`, written as a `uuid::fmt::Urn`: the nine characters
/// `urn:uuid:` and the 36 characters of the hyphenated form. Which
/// identifier it is depends on chance. On a machine that hands out no random
/// bytes the call panics; no argument can prevent that.
#[verifier::external_body]
fn fresh_urn() -> (r: String)
    ensures
        r@.len() == 45,
        r@.take(9) == "urn:uuid:"@,
{
    uuid::fmt::Urn::from_uuid(uuid::Uuid::new_v4()).to_string()
}

impl<Z: Zip> Builder<Z> {
    /// Adds the cover image. It is written and listed like any resource, and
    /// the manifest names it as the cover.
    pub fn add_cover_image(&mut self, path: &str, content: Vec<u8>, mime_type: &str) -> (r: Result<
        &mut Self,
        EpubError,
    >)
        ensures
            r matches Ok(b) && b@ == with_file(
                old(self)@,
                content@,
                ContentView { cover: true, ..plain_file(path@, mime_type@) },
            ) && *final(self) == *final(b),
    {
        let mut file = Content::new(path, mime_type);
        file.cover = true;
        match self.put(file, content) {
            Ok(_) => Ok(self),
            Err(e) => Err(e),
        }
    }

    /// Gives the document its stylesheet, which is written as
    /// `stylesheet.css`.
    pub fn stylesheet(&mut self, content: Vec<u8>) -> (r: Result<&mut Self, EpubError>)
        ensures
            r matches Ok(b) && b@ == (BuilderView {
                stylesheet: true,
                ..with_file(old(self)@, content@, plain_file("stylesheet.css"@, "text/css"@))
            }) && *final(self) == *final(b),
    {
        match self.add_resource("stylesheet.css", content, "text/css") {
            Ok(_) => {},
            Err(e) => {
                return Err(e);
            },
        }
        self.stylesheet = true;
        Ok(self)
    }

    /// Gives the document a page with its table of contents. The page is
    /// listed where this is called: before the pages added later, behind
    /// those added before. It is part of the reading order and the manifest
    /// lists it. Where the table of contents has a name, the page has a
    /// heading of its own in the table, under that name; where the name is
    /// empty the table stays as it is, as for any page without a title. The
    /// page itself is made when the document is generated.
    pub fn inline_toc(&mut self) -> (r: &mut Self)
        ensures
            r@ == with_toc_page(old(self)@),
            levelled(old(self)@.toc) ==> levelled(r@.toc),
            *final(self) == *final(r),
    {
        proof {
            toc_page_keeps_levels(self@);
        }
        self.inline_toc = true;
        if !self.metadata.toc_name.as_str().is_empty() {
            self.toc.add(Element::new("toc.xhtml", self.metadata.toc_name.as_str()));
        }
        let mut file = Content::new("toc.xhtml", "application/xhtml+xml");
        file.reftype = Some(ReferenceType::Toc);
        file.title = self.metadata.toc_name.clone();
        file.itemref = true;
        let ghost before = self.files@;
        self.files.push(file);
        assert(content_views(self.files@) =~= content_views(before).push(file@));
        self
    }

    /// Adds a page. It is written below `OEBPS/` and listed in the manifest
    /// as part of the reading order. A page with a title gets a heading in
    /// the table of contents, at its level; a page without one gets none,
    /// whatever its level is.
    pub fn add_content(&mut self, content: EpubContent) -> (r: Result<&mut Self, EpubError>)
        ensures
            r matches Ok(b) && b@ == with_page(old(self)@, content@) && *final(self) == *final(b),
            levelled(old(self)@.toc) && node_levelled(content@.toc) ==> levelled(
                with_page(old(self)@, content@).toc,
            ),
    {
        let EpubContent { toc, content: bytes, reftype } = content;
        proof {
            children_view(&toc);
            page_keeps_levels(self@, content@);
        }
        let mut file = Content::new(toc.url.as_str(), "application/xhtml+xml");
        file.itemref = true;
        file.reftype = reftype;
        if reftype.is_some() {
            file.title = toc.title.clone();
        }
        match self.put(file, bytes) {
            Ok(_) => {},
            Err(e) => {
                return Err(e);
            },
        }
        if !toc.title.as_str().is_empty() {
            self.toc.add(toc);
        }
        Ok(self)
    }

    /// The strategy that collects the files of the document: the one that
    /// the document was begun on.
    pub fn zip(&self) -> (r: &Z)
        ensures
            r.written() == self@.written,
            r.tool() == self@.tool,
    {
        &self.zip
    }

    /// The manifest of the document as it stands.
    pub fn manifest(&self) -> (r: ManifestData)
        ensures
            r@ == manifest_of(self@.files, self@.toc, self@.version),
    {
        assemble(&self.files, &self.toc, self.version)
    }

    /// The package document, written at `date` under the identifier `uuid`.
    pub fn render_opf(&self, date: &str, uuid: &str) -> (r: Result<Vec<u8>, EpubError>)
        ensures
            r matches Ok(bytes) ==> opf_of(self@, date@, uuid@) == Ok::<Seq<u8>, EpubError>(bytes@),
            r matches Err(e) ==> opf_of(self@, date@, uuid@) == Err::<Seq<u8>, EpubError>(e),
    {
        let data = opf_data(&self.metadata, &self.files, self.version, date, uuid);
        proof {
            opf_data_is_unambiguous(self@.metadata, self@.files, self@.version, date@, uuid@);
        }
        let template = match self.version {
            Version::V20 => CONTENT_OPF_V2,
            Version::V30 => CONTENT_OPF_V3,
        };
        rendering(fill_in(template, &data))
    }

    /// The navigation map.
    pub fn render_toc(&self) -> (r: Result<Vec<u8>, EpubError>)
        ensures
            r matches Ok(bytes) ==> ncx_of(self@) == Ok::<Seq<u8>, EpubError>(bytes@),
            r matches Err(e) ==> ncx_of(self@) == Err::<Seq<u8>, EpubError>(e),
    {
        let data = ncx_data(&self.metadata, &self.toc);
        proof {
            navigation_data_is_unambiguous(
                self@.metadata,
                self@.files,
                self@.toc,
                self@.version,
                true,
            );
        }
        rendering(fill_in(TOC_NCX, &data))
    }

    /// The navigation page, with the table of contents as a numbered list or
    /// as a list without numbers, and with the landmarks where the version
    /// has them.
    pub fn render_nav(&self, numbered: bool) -> (r: Result<Vec<u8>, EpubError>)
        ensures
            r matches Ok(bytes) ==> nav_of(self@, numbered) == Ok::<Seq<u8>, EpubError>(bytes@),
            r matches Err(e) ==> nav_of(self@, numbered) == Err::<Seq<u8>, EpubError>(e),
    {
        let data = nav_data(&self.metadata, &self.files, &self.toc, self.version, numbered);
        proof {
            navigation_data_is_unambiguous(
                self@.metadata,
                self@.files,
                self@.toc,
                self@.version,
                numbered,
            );
        }
        let template = match self.version {
            Version::V20 => NAV_XHTML_V2,
            Version::V30 => NAV_XHTML_V3,
        };
        rendering(fill_in(template, &data))
    }

    /// The files that generating the document makes, written at `date`
    /// under the identifier `uuid`.
    pub fn render_documents(&self, date: &str, uuid: &str) -> (r: Result<Documents, EpubError>)
        ensures
            r matches Ok(d) ==> documents_of(self@, date@, uuid@) == Ok::<
                DocumentsView,
                EpubError,
            >(d@),
            r matches Err(e) ==> documents_of(self@, date@, uuid@) == Err::<
                DocumentsView,
                EpubError,
            >(e),
    {
        let opf = match self.render_opf(date, uuid) {
            Ok(bytes) => bytes,
            Err(e) => {
                return Err(e);
            },
        };
        let ncx = match self.render_toc() {
            Ok(bytes) => bytes,
            Err(e) => {
                return Err(e);
            },
        };
        let nav = match self.render_nav(true) {
            Ok(bytes) => bytes,
            Err(e) => {
                return Err(e);
            },
        };
        let toc_page = if self.inline_toc {
            match self.render_nav(false) {
                Ok(bytes) => Some(bytes),
                Err(e) => {
                    return Err(e);
                },
            }
        } else {
            None
        };
        Ok(Documents { opf, ncx, nav, toc_page })
    }

    /// Writes the files made and hands out the archive: the marker entry,
    /// then every file in the order in which it was written, the files made
    /// last. The strategy is left without files.
    pub fn package(&mut self, documents: Documents) -> (r: Result<Archive, EpubError>)
        ensures
            r matches Ok(archive) && archive@ == archive_of(
                old(self)@.written + document_entries(documents@),
            ),
            final(self)@ == (BuilderView { written: Seq::empty(), ..old(self)@ }),
    {
        let Documents { opf, ncx, nav, toc_page } = documents;
        proof {
            reveal_strlit("OEBPS/content.opf");
            reveal_strlit("OEBPS/toc.ncx");
            reveal_strlit("OEBPS/nav.xhtml");
            reveal_strlit("OEBPS/toc.xhtml");
        }
        match self.write("OEBPS/content.opf", opf) {
            Ok(_) => {},
            Err(e) => {
                return Err(e);
            },
        }
        match self.write("OEBPS/toc.ncx", ncx) {
            Ok(_) => {},
            Err(e) => {
                return Err(e);
            },
        }
        match self.write("OEBPS/nav.xhtml", nav) {
            Ok(_) => {},
            Err(e) => {
                return Err(e);
            },
        }
        match toc_page {
            Some(page) => {
                match self.write("OEBPS/toc.xhtml", page) {
                    Ok(_) => {},
                    Err(e) => {
                        return Err(e);
                    },
                }
            },
            None => {},
        }
        assert(self.zip.written() =~= old(self)@.written + document_entries(documents@));
        Ok(self.zip.generate())
    }

    /// Generates the document as of `date` and under the identifier `uuid`.
    pub fn generate_at(&mut self, date: &str, uuid: &str) -> (r: Result<Archive, EpubError>)
        ensures
            generated(old(self)@, date@, uuid@, r, final(self)@),
    {
        if !self.stylesheet {
            match self.stylesheet(Vec::new()) {
                Ok(_) => {},
                Err(e) => {
                    return Err(e);
                },
            }
        }
        let documents = match self.render_documents(date, uuid) {
            Ok(d) => d,
            Err(e) => {
                return Err(e);
            },
        };
        self.package(documents)
    }

    /// Generates the document: it gets an empty stylesheet if it has none,
    /// the package document, the navigation map and the navigation page are
    /// made and written, and so is the page with the table of contents where
    /// the document has one. The package document carries the time of the
    /// call and a fresh identifier, which begins with `urn:uuid:`.
    pub fn generate(&mut self) -> (r: Result<Archive, EpubError>)
        ensures
            exists|date: Seq<char>, uuid: Seq<char>|
                uuid.len() == 45 && uuid.take(9) == "urn:uuid:"@ && #[trigger] generated(
                    old(self)@,
                    date,
                    uuid,
                    r,
                    final(self)@,
                ),
    {
        let date = now_text(DATE_FORMAT);
        let uuid = fresh_urn();
        self.generate_at(date.as_str(), uuid.as_str())
    }
}

/// What generating a document gives depends on what the builder holds, on
/// the date and on the identifier, and not on the strategy: two builders
/// that hold the same but for the tool give the same archive, entry for
/// entry, or the same error, and are left alike but for the tool, which
/// each keeps.
pub proof fn strategy_makes_no_difference(
    first_before: BuilderView,
    second_before: BuilderView,
    date: Seq<char>,
    uuid: Seq<char>,
    first: Result<Archive, EpubError>,
    first_after: BuilderView,
    second: Result<Archive, EpubError>,
    second_after: BuilderView,
)
    requires
        second_before == (BuilderView { tool: second_before.tool, ..first_before }),
        generated(first_before, date, uuid, first, first_after),
        generated(second_before, date, uuid, second, second_after),
    ensures
        second_after == (BuilderView { tool: second_before.tool, ..first_after }),
        first_after.tool == first_before.tool,
        second_after.tool == second_before.tool,
        first is Ok <==> second is Ok,
        first is Ok ==> first->Ok_0@ == second->Ok_0@,
        first is Err ==> first->Err_0 == second->Err_0,
{
    let b1 = with_stylesheet(first_before);
    let b2 = with_stylesheet(second_before);
    assert(b2 == (BuilderView { tool: second_before.tool, ..b1 }));
    assert(opf_of(b1, date, uuid) == opf_of(b2, date, uuid));
    assert(ncx_of(b1) == ncx_of(b2));
    assert(nav_of(b1, true) == nav_of(b2, true));
    assert(nav_of(b1, false) == nav_of(b2, false));
    assert(documents_of(b1, date, uuid) == documents_of(b2, date, uuid));
}

/// The archive of a generated document begins with the marker entry, stored
/// as it is. Behind it come the files that were written before, in their
/// order, and behind those the files made.
pub proof fn generated_archive_begins_with_marker(
    before: BuilderView,
    date: Seq<char>,
    uuid: Seq<char>,
    r: Result<Archive, EpubError>,
    after: BuilderView,
)
    requires
        generated(before, date, uuid, r, after),
        r is Ok,
    ensures
        r->Ok_0@.len() >= with_stylesheet(before).written.len() + 4,
        r->Ok_0@[0] == marker_entry(),
        !r->Ok_0@[0].compressed,
        forall|i: int|
            0 <= i < with_stylesheet(before).written.len() ==> r->Ok_0@[i + 1] == with_stylesheet(
                before,
            ).written[i],
        forall|i: int| 0 <= i < before.written.len() ==> r->Ok_0@[i + 1] == before.written[i],
{
}

/// A page whose headings lie at level 1 or deeper leaves every heading of
/// the table of contents at level 1 or deeper.
pub proof fn page_keeps_levels(b: BuilderView, page: PageView)
    ensures
        levelled(b.toc) && node_levelled(page.toc) ==> levelled(with_page(b, page).toc),
{
    if levelled(b.toc) && node_levelled(page.toc) {
        insert_keeps_levels(b.toc, page.toc);
    }
}

/// The page with the table of contents leaves every heading of the table at
/// level 1 or deeper, and where it gets a heading, that heading is a new
/// tree behind all the others.
pub proof fn toc_page_keeps_levels(b: BuilderView)
    ensures
        levelled(b.toc) ==> levelled(with_toc_page(b).toc),
        levelled(b.toc) && b.metadata.toc_name.len() > 0 ==> with_toc_page(b).toc == b.toc.push(
            Node {
                level: 1,
                url: "toc.xhtml"@,
                title: b.metadata.toc_name,
                children: Seq::empty(),
            },
        ),
{
    let heading = Node {
        level: 1,
        url: "toc.xhtml"@,
        title: b.metadata.toc_name,
        children: Seq::empty(),
    };
    if levelled(b.toc) {
        assert(node_levelled(heading));
        insert_keeps_levels(b.toc, heading);
    }
}

/// A page without a title leaves the table of contents as it was, whatever
/// its level, and still gets its item in the manifest and its place at the
/// end of the spine.
pub proof fn untitled_page_is_listed_only(b: BuilderView, page: PageView)
    requires
        page.toc.title.len() == 0,
    ensures
        with_page(b, page).toc == b.toc,
        manifest_of(with_page(b, page).files, with_page(b, page).toc, b.version).nav_points
            == manifest_of(b.files, b.toc, b.version).nav_points,
        items_of(with_page(b, page).files, b.version) == items_of(b.files, b.version).push(
            item_of(page_file(page), b.version),
        ),
        spine_of(with_page(b, page).files) == spine_of(b.files).push(id_of(page_file(page))),
{
    added_file_is_listed(b.files, page_file(page), b.version);
}

} // verus!
