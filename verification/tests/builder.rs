use epub_builder::epub::rendering;
use epub_builder::manifest::assemble;
use epub_builder::{
    Archive, BackendError, Builder, Content, Element, EpubContent, EpubError, Metadata,
    MetadataKind, ReferenceType, Toc, Version, Zip, ZipCommand, ZipCommandOrLibrary, ZipLibrary,
};

const DATE: &str = "2020-02-02T02:02:02Z";
const UUID: &str = "urn:uuid:936da01f-9abd-4d9d-80c7-02af85c822a8";

fn paths(archive: &Archive) -> Vec<&str> {
    archive.entries.iter().map(|e| e.path.as_str()).collect()
}

fn text_of<'a>(archive: &'a Archive, path: &str) -> &'a str {
    let entry = archive.entries.iter().find(|e| e.path == path).unwrap();
    std::str::from_utf8(&entry.content).unwrap()
}

fn fill<Z: Zip>(builder: &mut Builder<Z>) {
    builder
        .metadata(MetadataKind::Author, "Joan Doe")
        .metadata(MetadataKind::Author, "Ann \"O\" Nymous")
        .metadata(MetadataKind::Title, "Dummy Book")
        .metadata(MetadataKind::Subject, "Testing")
        .metadata(MetadataKind::Description, "A book")
        .metadata(MetadataKind::License, "CC0");
    builder.stylesheet(b"body {}".to_vec()).unwrap();
    builder.add_cover_image("img\\cover.png", b"png".to_vec(), "image/png").unwrap();
    builder.add_resource("some image.png", b"png".to_vec(), "image/png").unwrap();
    builder
        .add_content(
            EpubContent::new("cover.xhtml", b"cover".to_vec())
                .title("Cover")
                .reftype(ReferenceType::Cover),
        )
        .unwrap();
    builder
        .add_content(
            EpubContent::new("chapter_1.xhtml", b"one".to_vec())
                .title("Chapter 1 <T> \"q\"")
                .reftype(ReferenceType::Text),
        )
        .unwrap();
    builder
        .add_content(
            EpubContent::new("chapter_2.xhtml", b"two".to_vec())
                .title("Chapter 2")
                .child(Element::new("chapter_2.xhtml#1", "Chapter 2, section 1")),
        )
        .unwrap();
    builder
        .add_content(
            EpubContent::new("section.xhtml", b"sec".to_vec()).title("Section 2").level(2),
        )
        .unwrap();
    builder.add_content(EpubContent::new("notes.xhtml", b"notes".to_vec()).level(2)).unwrap();
    builder.inline_toc();
}

#[test]
fn a_new_builder_holds_the_two_fixed_files() {
    let mut builder = Builder::new(ZipLibrary::new()).unwrap();
    let archive = builder.generate_at(DATE, UUID).unwrap();
    assert_eq!(
        paths(&archive),
        vec![
            "mimetype",
            "META-INF/container.xml",
            "META-INF/com.apple.ibooks.display-options.xml",
            "OEBPS/stylesheet.css",
            "OEBPS/content.opf",
            "OEBPS/toc.ncx",
            "OEBPS/nav.xhtml",
        ]
    );
    assert!(text_of(&archive, "META-INF/container.xml").contains("full-path=\"OEBPS/content.opf\""));
    assert!(text_of(&archive, "META-INF/com.apple.ibooks.display-options.xml")
        .contains("specified-fonts"));
    assert_eq!(text_of(&archive, "OEBPS/stylesheet.css"), "");
}

#[test]
fn the_marker_comes_first_and_is_stored_as_it_is() {
    let mut builder = Builder::new(ZipLibrary::new()).unwrap();
    fill(&mut builder);
    let archive = builder.generate_at(DATE, UUID).unwrap();
    assert_eq!(archive.entries[0].path, "mimetype");
    assert_eq!(archive.entries[0].content, b"application/epub+zip".to_vec());
    assert!(!archive.entries[0].compressed);
    assert!(archive.entries[1..].iter().all(|e| e.compressed && e.path != "mimetype"));
}

#[test]
fn entries_keep_the_order_of_the_calls() {
    let mut builder = Builder::new(ZipLibrary::new()).unwrap();
    fill(&mut builder);
    let archive = builder.generate_at(DATE, UUID).unwrap();
    assert_eq!(
        paths(&archive),
        vec![
            "mimetype",
            "META-INF/container.xml",
            "META-INF/com.apple.ibooks.display-options.xml",
            "OEBPS/stylesheet.css",
            "OEBPS/img/cover.png",
            "OEBPS/some image.png",
            "OEBPS/cover.xhtml",
            "OEBPS/chapter_1.xhtml",
            "OEBPS/chapter_2.xhtml",
            "OEBPS/section.xhtml",
            "OEBPS/notes.xhtml",
            "OEBPS/content.opf",
            "OEBPS/toc.ncx",
            "OEBPS/nav.xhtml",
            "OEBPS/toc.xhtml",
        ]
    );
    assert_eq!(text_of(&archive, "OEBPS/chapter_1.xhtml"), "one");
}

#[test]
fn the_fallback_gives_the_same_archive() {
    let mut alone = Builder::new(ZipLibrary::new()).unwrap();
    fill(&mut alone);
    let alone = alone.generate_at(DATE, UUID).unwrap();

    let zip = ZipCommandOrLibrary::new("no-such-tool", Err(BackendError::Unavailable));
    assert!(matches!(zip, ZipCommandOrLibrary::Library(_)));
    let mut fallen = Builder::new(zip).unwrap();
    fill(&mut fallen);
    let fallen = fallen.generate_at(DATE, UUID).unwrap();

    assert_eq!(alone.entries.len(), fallen.entries.len());
    for (a, b) in alone.entries.iter().zip(fallen.entries.iter()) {
        assert_eq!(a.path, b.path);
        assert_eq!(a.content, b.content);
        assert_eq!(a.compressed, b.compressed);
    }
}

#[test]
fn a_working_tool_is_chosen() {
    let zip = ZipCommandOrLibrary::new("7z", Ok(()));
    match &zip {
        ZipCommandOrLibrary::Command(z) => assert_eq!(z.command_name(), "7z"),
        ZipCommandOrLibrary::Library(_) => panic!("the tool was tried and works"),
    }
    let any_error = ZipCommandOrLibrary::new("zip", Err(BackendError::Io));
    assert!(matches!(any_error, ZipCommandOrLibrary::Library(_)));
    let mut builder = Builder::new(zip).unwrap();
    let archive = builder.generate_at(DATE, UUID).unwrap();
    assert_eq!(archive.entries[0].path, "mimetype");
    assert_eq!(archive.entries.len(), 7);
}

#[test]
fn the_command_strategy_defaults_to_zip() {
    let mut z = ZipCommand::new();
    assert_eq!(z.command_name(), "zip");
    z.command("gzip");
    assert_eq!(z.command_name(), "gzip");
    z.write_file("a\\b.txt", b"x".to_vec()).unwrap();
    let archive = z.generate();
    assert_eq!(paths(&archive), vec!["mimetype", "a/b.txt"]);
    assert_eq!(z.command_name(), "gzip");
}

#[test]
fn the_marker_path_is_refused() {
    let mut z = ZipLibrary::new();
    assert_eq!(z.write_file("mimetype", b"x".to_vec()), Err(BackendError::InvalidEntry));
    let mut c = ZipCommand::new();
    assert_eq!(c.write_file("mimetype", Vec::new()), Err(BackendError::InvalidEntry));
    let mut w = ZipCommandOrLibrary::new("zip", Ok(()));
    assert_eq!(w.write_file("mimetype", Vec::new()), Err(BackendError::InvalidEntry));
    assert_eq!(z.write_file("mimetype.txt", b"x".to_vec()), Ok(()));
    let archive = z.generate();
    assert_eq!(paths(&archive), vec!["mimetype", "mimetype.txt"]);
}

#[test]
fn generating_leaves_the_strategy_empty() {
    let mut z = ZipLibrary::new();
    z.write_file("a", b"1".to_vec()).unwrap();
    assert_eq!(z.generate().entries.len(), 2);
    assert_eq!(z.generate().entries.len(), 1);
}

#[test]
fn errors_of_a_strategy_as_errors_of_the_document() {
    assert_eq!(EpubError::of_backend(BackendError::Io), EpubError::Io);
    assert_eq!(EpubError::of_backend(BackendError::Unavailable), EpubError::BackendUnavailable);
    assert_eq!(EpubError::of_backend(BackendError::InvalidEntry), EpubError::InvalidEntryOrder);
}

#[test]
fn an_error_of_the_template_engine_is_a_render_error() {
    let failed = mustache::compile_str("{{").map(|_| Vec::new());
    assert_eq!(rendering(failed), Err(EpubError::Render));
    assert_eq!(rendering(Ok(vec![1, 2])), Ok(vec![1, 2]));
}

#[test]
fn untitled_content_is_listed_but_has_no_heading() {
    let mut builder = Builder::new(ZipLibrary::new()).unwrap();
    builder.add_content(EpubContent::new("a.xhtml", Vec::new()).level(1)).unwrap();
    builder.add_content(EpubContent::new("b.xhtml", Vec::new()).level(3)).unwrap();
    builder
        .add_content(EpubContent::new("c.xhtml", Vec::new()).reftype(ReferenceType::Notes))
        .unwrap();
    let manifest = builder.manifest();
    assert!(manifest.nav_points.is_empty());
    let ids: Vec<&str> = manifest.items.iter().map(|i| i.id.as_str()).collect();
    assert_eq!(ids, vec!["a.xhtml", "b.xhtml", "c.xhtml"]);
    assert_eq!(manifest.spine_refs, vec!["a.xhtml", "b.xhtml", "c.xhtml"]);
    assert!(manifest.guide_refs.is_empty());
}

#[test]
fn the_cover_has_a_fixed_identifier() {
    for version in [Version::V20, Version::V30] {
        let mut builder = Builder::new(ZipLibrary::new()).unwrap();
        builder.epub_version(version);
        builder.add_cover_image("pics\\my cover.png", Vec::new(), "image/png").unwrap();
        builder.add_resource("pics\\my cover.png", Vec::new(), "image/png").unwrap();
        let manifest = builder.manifest();
        assert_eq!(manifest.items[0].id, "cover-image");
        assert_eq!(manifest.items[0].href, "pics/my cover.png");
        assert_eq!(manifest.items[0].mime, "image/png");
        assert_eq!(manifest.items[0].cover_property, version == Version::V30);
        assert_eq!(manifest.items[1].id, "pics_my_cover.png");
        assert!(!manifest.items[1].cover_property);
        assert!(manifest.spine_refs.is_empty());
    }
}

#[test]
fn landmarks_only_in_version_3() {
    let mut builder = Builder::new(ZipLibrary::new()).unwrap();
    builder
        .add_content(
            EpubContent::new("c1.xhtml", Vec::new()).title("One").reftype(ReferenceType::Text),
        )
        .unwrap();
    let v2 = builder.manifest();
    assert!(v2.landmarks.is_empty());
    assert_eq!(v2.guide_refs.len(), 1);
    assert_eq!(v2.guide_refs[0].token, "text");

    builder.epub_version(Version::V30);
    let v3 = builder.manifest();
    assert_eq!(v3.landmarks.len(), 1);
    assert_eq!(v3.landmarks[0].token, "bodymatter");
    assert_eq!(v3.landmarks[0].title, "One");
    assert_eq!(v3.landmarks[0].href, "c1.xhtml");
    assert_eq!(v3.guide_refs[0].token, "text");
    assert_eq!(v3.guide_refs[0].title, "One");
}

#[test]
fn every_kind_of_page_has_its_two_words() {
    let kinds = [
        (ReferenceType::Cover, "cover", "cover"),
        (ReferenceType::TitlePage, "title-page", "titlepage"),
        (ReferenceType::Toc, "toc", "toc"),
        (ReferenceType::Index, "index", "index"),
        (ReferenceType::Glossary, "glossary", "glossary"),
        (ReferenceType::Acknowledgements, "acknowledgements", "acknowledgements"),
        (ReferenceType::Bibliography, "bibliography", "bibliography"),
        (ReferenceType::Colophon, "colophon", "colophon"),
        (ReferenceType::Copyright, "copyright", "copyright-page"),
        (ReferenceType::Dedication, "dedication", "dedication"),
        (ReferenceType::Epigraph, "epigraph", "epigraph"),
        (ReferenceType::Foreword, "foreword", "foreword"),
        (ReferenceType::Loi, "loi", "loi"),
        (ReferenceType::Lot, "lot", "lot"),
        (ReferenceType::Notes, "notes", "endnotes"),
        (ReferenceType::Preface, "preface", "preface"),
        (ReferenceType::Text, "text", "bodymatter"),
    ];
    for (kind, guide, landmark) in kinds {
        assert_eq!(kind.guide_name(), guide);
        assert_eq!(kind.landmark_name(), landmark);
    }
}

#[test]
fn a_page_without_a_title_is_in_no_guide() {
    let mut files = vec![Content::new("a.xhtml", "application/xhtml+xml")];
    files[0].reftype = Some(ReferenceType::Preface);
    files[0].itemref = true;
    let manifest = assemble(&files, &Toc::new(), Version::V30);
    assert!(manifest.guide_refs.is_empty());
    assert!(manifest.landmarks.is_empty());
    assert_eq!(manifest.spine_refs, vec!["a.xhtml"]);
    files[0].title = "Preface".to_string();
    let manifest = assemble(&files, &Toc::new(), Version::V30);
    assert_eq!(manifest.guide_refs[0].token, "preface");
    assert_eq!(manifest.landmarks[0].token, "preface");
}

#[test]
fn author_is_cleared_by_the_empty_value() {
    let mut m = Metadata::new();
    m.set(MetadataKind::Author, "A");
    m.set(MetadataKind::Author, "B");
    m.set(MetadataKind::Author, "C");
    assert_eq!(m.author, vec!["A", "B", "C"]);
    m.set(MetadataKind::Author, "");
    assert!(m.author.is_empty());
    m.set(MetadataKind::Subject, "x");
    m.set(MetadataKind::Subject, "");
    m.set(MetadataKind::Description, "y");
    m.set(MetadataKind::Description, "");
    assert!(m.subject.is_empty() && m.description.is_empty());
}

#[test]
fn metadata_defaults_and_single_values() {
    let mut m = Metadata::new();
    assert_eq!(m.title, "");
    assert_eq!(m.lang, "en");
    assert_eq!(m.generator, "Rust EPUB library");
    assert_eq!(m.toc_name, "Table Of Contents");
    assert_eq!(m.license, None);
    m.set(MetadataKind::Title, "One");
    m.set(MetadataKind::Title, "Two");
    m.set(MetadataKind::Lang, "fr");
    m.set(MetadataKind::Generator, "g");
    m.set(MetadataKind::TocName, "Contents");
    m.set(MetadataKind::License, "");
    assert_eq!(m.title, "Two");
    assert_eq!(m.lang, "fr");
    assert_eq!(m.generator, "g");
    assert_eq!(m.toc_name, "Contents");
    assert_eq!(m.license, Some(String::new()));
}

#[test]
fn the_package_document_of_version_2() {
    let mut builder = Builder::new(ZipLibrary::new()).unwrap();
    fill(&mut builder);
    let opf = String::from_utf8(builder.render_opf(DATE, UUID).unwrap()).unwrap();
    assert!(opf.contains("<package version=\"2.0\""));
    assert!(opf.contains("<dc:identifier id=\"epub-id-1\">urn:uuid:936da01f-9abd-4d9d-80c7-02af85c822a8</dc:identifier>"));
    assert!(opf.contains("<dc:date>2020-02-02T02:02:02Z</dc:date>"));
    assert!(opf.contains("<dc:title>Dummy Book</dc:title>"));
    assert!(opf.contains("<dc:language>en</dc:language>"));
    assert!(opf.contains("    <dc:creator opf:role=\"aut\">Joan Doe</dc:creator>\n    <dc:creator opf:role=\"aut\">Ann \"O\" Nymous</dc:creator>\n"));
    assert!(opf.contains("    <dc:description>A book</dc:description>\n    <dc:subject>Testing</dc:subject>\n    <dc:rights>CC0</dc:rights>\n    <meta name=\"cover\" content=\"cover-image\"/>\n"));
    assert!(opf.contains("    <item media-type=\"text/css\" id=\"stylesheet.css\" href=\"stylesheet.css\"/>\n    <item media-type=\"image/png\" id=\"cover-image\" href=\"img/cover.png\"/>\n    <item media-type=\"image/png\" id=\"some_image.png\" href=\"some image.png\"/>\n"));
    assert!(opf.contains("    <itemref idref=\"cover.xhtml\"/>\n    <itemref idref=\"chapter_1.xhtml\"/>\n"));
    assert!(opf.contains("<itemref idref=\"toc.xhtml\"/>"));
    assert!(opf.contains("    <reference type=\"cover\" title=\"Cover\" href=\"cover.xhtml\"/>\n    <reference type=\"text\" title=\"Chapter 1 &lt;T&gt; &quot;q&quot;\" href=\"chapter_1.xhtml\"/>\n    <reference type=\"toc\" title=\"Table Of Contents\" href=\"toc.xhtml\"/>\n"));
    assert!(!opf.contains("properties=\"cover-image\""));
}

#[test]
fn the_package_document_of_version_3() {
    let mut builder = Builder::new(ZipLibrary::new()).unwrap();
    builder.epub_version(Version::V30);
    fill(&mut builder);
    let opf = String::from_utf8(builder.render_opf(DATE, UUID).unwrap()).unwrap();
    assert!(opf.contains("<package version=\"3.0\""));
    assert!(opf.contains("<item media-type=\"image/png\" properties=\"cover-image\" id=\"cover-image\" href=\"img/cover.png\"/>"));
    assert!(opf.contains("<dc:creator id=\"epub-creator-0\">Joan Doe</dc:creator>"));
    assert!(opf.contains("<meta refines=\"#epub-creator-1\" property=\"role\" scheme=\"marc:relators\">aut</meta>"));
    assert!(opf.contains("<meta property=\"dcterms:modified\">2020-02-02T02:02:02Z</meta>"));
}

#[test]
fn the_navigation_documents() {
    let mut builder = Builder::new(ZipLibrary::new()).unwrap();
    builder.epub_version(Version::V30);
    builder.metadata(MetadataKind::TocName, "Contents");
    fill(&mut builder);
    let ncx = String::from_utf8(builder.render_toc().unwrap()).unwrap();
    assert!(ncx.contains("<text>Contents</text>"));
    assert!(ncx.contains("    <navPoint id=\"navPoint-1\" playOrder=\"1\">\n      <navLabel>\n        <text>Cover</text>"));
    assert!(ncx.contains("<text>Chapter 1 &lt;T&gt; \"q\"</text>"));
    assert!(ncx.contains("navPoint-6"));
    assert!(!ncx.contains("navPoint-7"));
    assert!(!ncx.contains("notes.xhtml"));

    let nav = String::from_utf8(builder.render_nav(true).unwrap()).unwrap();
    assert!(nav.contains("<nav epub:type=\"toc\" id=\"toc\">"));
    assert!(nav.contains("    <ol>\n      <li><a href=\"cover.xhtml\">Cover</a></li>\n"));
    assert!(nav.contains("<a href=\"section.xhtml\">Section 2</a>"));
    assert!(nav.contains("    <ol>\n      <li><a epub:type=\"cover\" href=\"cover.xhtml\">Cover</a></li>\n      <li><a epub:type=\"bodymatter\" href=\"chapter_1.xhtml\">Chapter 1 <T> \"q\"</a></li>\n      <li><a epub:type=\"toc\" href=\"toc.xhtml\">Contents</a></li>\n    </ol>"));
    let plain = String::from_utf8(builder.render_nav(false).unwrap()).unwrap();
    assert!(plain.contains("    <ul>\n      <li><a href=\"cover.xhtml\">Cover</a></li>\n"));

    builder.epub_version(Version::V20);
    let nav = String::from_utf8(builder.render_nav(true).unwrap()).unwrap();
    assert!(nav.contains("<div id=\"toc\">"));
    assert!(!nav.contains("epub:type"));
}

#[test]
fn sections_hang_below_their_chapter() {
    let mut builder = Builder::new(ZipLibrary::new()).unwrap();
    fill(&mut builder);
    let points = builder.manifest().nav_points;
    let flat: Vec<(&str, usize)> = points.iter().map(|p| (p.title.as_str(), p.order)).collect();
    assert_eq!(
        flat,
        vec![
            ("Cover", 1),
            ("Chapter 1 <T> \"q\"", 2),
            ("Chapter 2", 3),
            ("Chapter 2, section 1", 4),
            ("Section 2", 5),
            ("Table Of Contents", 6),
        ]
    );
}

#[test]
fn generate_stamps_the_document() {
    let mut builder = Builder::new(ZipLibrary::new()).unwrap();
    builder.metadata(MetadataKind::Title, "Stamped");
    let archive = builder.generate().unwrap();
    let opf = text_of(&archive, "OEBPS/content.opf");
    let start = opf.find("<dc:identifier id=\"epub-id-1\">").unwrap() + 30;
    let id = &opf[start..start + 45];
    assert!(id.starts_with("urn:uuid:"));
    assert_eq!(&opf[start + 45..start + 46], "<");
    assert!(opf.contains("<dc:date>2"));
    assert!(opf.contains("<dc:title>Stamped</dc:title>"));
}

#[test]
fn a_given_stylesheet_is_kept() {
    let mut builder = Builder::new(ZipLibrary::new()).unwrap();
    builder.stylesheet(b"p { margin: 0 }".to_vec()).unwrap();
    let archive = builder.generate_at(DATE, UUID).unwrap();
    assert_eq!(text_of(&archive, "OEBPS/stylesheet.css"), "p { margin: 0 }");
    assert_eq!(paths(&archive).iter().filter(|p| **p == "OEBPS/stylesheet.css").count(), 1);
}

#[test]
fn packaging_given_documents() {
    let mut builder = Builder::new(ZipLibrary::new()).unwrap();
    let documents = epub_builder::Documents {
        opf: b"opf".to_vec(),
        ncx: b"ncx".to_vec(),
        nav: b"nav".to_vec(),
        toc_page: Some(b"page".to_vec()),
    };
    let archive = builder.package(documents).unwrap();
    assert_eq!(
        paths(&archive),
        vec![
            "mimetype",
            "META-INF/container.xml",
            "META-INF/com.apple.ibooks.display-options.xml",
            "OEBPS/content.opf",
            "OEBPS/toc.ncx",
            "OEBPS/nav.xhtml",
            "OEBPS/toc.xhtml",
        ]
    );
    assert_eq!(text_of(&archive, "OEBPS/toc.xhtml"), "page");
    assert_eq!(text_of(&archive, "OEBPS/content.opf"), "opf");
}

#[test]
fn pages_are_built_step_by_step() {
    let page = EpubContent::new("intro.xhtml", b"x".to_vec());
    assert_eq!(page.toc.url, "intro.xhtml");
    assert_eq!(page.toc.title, "");
    assert_eq!(page.toc.level, 1);
    assert_eq!(page.reftype, None);
    let page = page
        .title("Introduction")
        .level(2)
        .child(Element::new("intro.xhtml#1", "Section 1"))
        .child(Element::new("intro.xhtml#2", "Section 2"))
        .reftype(ReferenceType::TitlePage);
    assert_eq!(page.toc.title, "Introduction");
    assert_eq!(page.toc.level, 2);
    assert_eq!(page.toc.children.len(), 2);
    assert_eq!(page.toc.children[1].level, 3);
    assert_eq!(page.reftype, Some(ReferenceType::TitlePage));
    assert_eq!(page.content, b"x".to_vec());
}

#[test]
fn versions_are_ordered() {
    assert!(Version::V30 > Version::V20);
}

#[test]
fn what_the_tool_is_run_with() {
    assert_eq!(ZipCommand::probe_arguments(), vec!["-v"]);
    let mut z = ZipCommand::new();
    z.write_file("OEBPS/a b.xhtml", b"x".to_vec()).unwrap();
    let archive = z.generate();
    assert_eq!(
        ZipCommand::store_arguments(&archive.entries[0]),
        vec!["-X0", "output.epub", "mimetype"]
    );
    assert_eq!(
        ZipCommand::store_arguments(&archive.entries[1]),
        vec!["-X9", "output.epub", "OEBPS/a b.xhtml"]
    );
}

#[test]
fn a_table_without_a_name_gets_no_heading() {
    let mut builder = Builder::new(ZipLibrary::new()).unwrap();
    builder.add_content(EpubContent::new("a.xhtml", Vec::new()).title("A")).unwrap();
    builder.metadata(MetadataKind::TocName, "");
    let before: Vec<String> = builder.manifest().nav_points.into_iter().map(|p| p.url).collect();
    builder.inline_toc();
    let manifest = builder.manifest();
    let after: Vec<String> = manifest.nav_points.iter().map(|p| p.url.clone()).collect();
    assert_eq!(before, vec!["a.xhtml"]);
    assert_eq!(after, before);
    let ids: Vec<&str> = manifest.items.iter().map(|i| i.id.as_str()).collect();
    assert_eq!(ids, vec!["a.xhtml", "toc.xhtml"]);
    assert_eq!(manifest.spine_refs, vec!["a.xhtml", "toc.xhtml"]);
    assert!(manifest.guide_refs.is_empty());
    let archive = builder.generate_at(DATE, UUID).unwrap();
    assert!(paths(&archive).contains(&"OEBPS/toc.xhtml"));
    assert!(!text_of(&archive, "OEBPS/toc.ncx").contains("toc.xhtml"));
}

#[test]
fn a_named_table_gets_its_heading() {
    let mut builder = Builder::new(ZipLibrary::new()).unwrap();
    builder.inline_toc();
    let manifest = builder.manifest();
    assert_eq!(manifest.nav_points.len(), 1);
    assert_eq!(manifest.nav_points[0].title, "Table Of Contents");
    assert_eq!(manifest.nav_points[0].url, "toc.xhtml");
    assert_eq!(manifest.spine_refs, vec!["toc.xhtml"]);
    assert_eq!(manifest.guide_refs[0].token, "toc");
}

#[test]
fn paths_that_stay_inside_the_directory() {
    for path in ["a", "a/b.txt", "OEBPS/img/cover.png", "a\\b", "a/./b", "a//b", "..a/b..", "a/..."] {
        assert!(ZipCommand::can_stage(path), "{:?}", path);
    }
    for path in ["", "/", "/etc/passwd", "\\a", "..", "../a", "a/..", "a/../b", "a\\..\\b", "OEBPS/../../x"] {
        assert!(!ZipCommand::can_stage(path), "{:?}", path);
    }
}
