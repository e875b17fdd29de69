//! The texts that go into the templates of a document, and the data for each
//! template.

use vstd::prelude::*;
use vstd::string::*;
use crate::common::{escape_quote, indent, spec_escape_quote, spec_indent};
use crate::epub::{content_views, Content, ContentView, Version};
use crate::manifest::{
    guide_for, guide_of, item_views, items_for, items_of, landmarks_for, landmarks_of,
    reference_views, spine_for, spine_of, Item, ItemView, Reference, ReferenceView,
};
use crate::markup::{encode_text, text_escaped};
use crate::metadata::{Metadata, MetadataView};
use crate::render::{
    distinct_names, field_views, list_views, record_views, unambiguous, DataView, Field, List,
    Record, TemplateData,
};
use crate::text::{decimal, decimal_text, join, join_texts, texts};
use crate::toc::{toc_list, toc_points, Node, Toc};

verus! {

/// Each of `values` between `open` and `close`.
pub open spec fn wrapped(values: Seq<Seq<char>>, open: Seq<char>, close: Seq<char>) -> Seq<
    Seq<char>,
> {
    Seq::new(values.len(), |i: int| open + values[i] + close)
}

/// One line for each cover image among the files, which names the cover.
pub open spec fn cover_lines(files: Seq<ContentView>) -> Seq<Seq<char>>
    decreases files.len(),
{
    if files.len() == 0 {
        Seq::empty()
    } else if files.last().cover {
        cover_lines(files.drop_last()).push("<meta name=\"cover\" content=\"cover-image\"/>"@)
    } else {
        cover_lines(files.drop_last())
    }
}

/// The lines of the metadata that a document need not have: descriptions,
/// subjects, the licence, and the cover.
pub open spec fn optional_lines(m: MetadataView, files: Seq<ContentView>) -> Seq<Seq<char>> {
    wrapped(m.description, "<dc:description>"@, "</dc:description>"@) + wrapped(
        m.subject,
        "<dc:subject>"@,
        "</dc:subject>"@,
    ) + (match m.license {
        Some(rights) => seq!["<dc:rights>"@ + rights + "</dc:rights>"@],
        None => Seq::empty(),
    }) + cover_lines(files)
}

/// The line of the manifest for an item.
pub open spec fn item_line(item: ItemView) -> Seq<char> {
    "<item media-type=\""@ + item.mime + "\" "@ + (if item.cover_property {
        "properties=\"cover-image\" "@
    } else {
        Seq::empty()
    }) + "id=\""@ + item.id + "\" href=\""@ + item.href + "\"/>"@
}

/// The lines of the manifest.
pub open spec fn item_lines(items: Seq<ItemView>) -> Seq<Seq<char>> {
    Seq::new(items.len(), |i: int| item_line(items[i]))
}

/// The line of the guide for a page. Its title is written as the text of an
/// element, with its double quotes escaped.
pub open spec fn guide_line(r: ReferenceView) -> Seq<char> {
    "<reference type=\""@ + r.token + "\" title=\""@ + spec_escape_quote(text_escaped(r.title))
        + "\" href=\""@ + r.href + "\"/>"@
}

/// The lines of the guide.
pub open spec fn guide_lines(refs: Seq<ReferenceView>) -> Seq<Seq<char>> {
    Seq::new(refs.len(), |i: int| guide_line(refs[i]))
}

/// The list item of the landmarks for a page.
pub open spec fn landmark_line(r: ReferenceView) -> Seq<char> {
    "<li><a epub:type=\""@ + r.token + "\" href=\""@ + r.href + "\">"@ + r.title + "</a></li>"@
}

/// The list items of the landmarks.
pub open spec fn landmark_lines(refs: Seq<ReferenceView>) -> Seq<Seq<char>> {
    Seq::new(refs.len(), |i: int| landmark_line(refs[i]))
}

/// Lines as a block inside a template: one below the other, set in by two
/// levels.
pub open spec fn block(lines: Seq<Seq<char>>) -> Seq<char> {
    spec_indent(join(lines, seq!['\n']), 2)
}

/// The landmarks as a list, or nothing where there are none.
pub open spec fn landmarks_block(refs: Seq<ReferenceView>) -> Seq<char> {
    if refs.len() == 0 {
        Seq::empty()
    } else {
        spec_indent(
            "<ol>\n"@ + spec_indent(join(landmark_lines(refs), seq!['\n']), 1) + "\n</ol>"@,
            2,
        )
    }
}

/// The rows of the authors: each author with the number of its place,
/// counted from 0.
pub open spec fn author_rows(authors: Seq<Seq<char>>) -> Seq<Seq<(Seq<char>, Seq<char>)>> {
    Seq::new(authors.len(), |i: int| seq![("id"@, decimal(i as nat)), ("name"@, authors[i])])
}

/// The data for the package document, written at `date` under the
/// identifier `uuid`.
pub open spec fn opf_data_of(
    m: MetadataView,
    files: Seq<ContentView>,
    version: Version,
    date: Seq<char>,
    uuid: Seq<char>,
) -> DataView {
    DataView {
        fields: seq![
            ("lang"@, m.lang),
            ("title"@, m.title),
            ("generator"@, m.generator),
            ("toc_name"@, m.toc_name),
            ("optional"@, block(optional_lines(m, files))),
            ("items"@, block(item_lines(items_of(files, version)))),
            ("itemrefs"@, block(wrapped(spine_of(files), "<itemref idref=\""@, "\"/>"@))),
            ("date"@, date),
            ("uuid"@, uuid),
            ("guide"@, block(guide_lines(guide_of(files)))),
        ],
        lists: seq![("author"@, author_rows(m.author))],
    }
}

/// The data for the navigation map.
pub open spec fn ncx_data_of(m: MetadataView, toc: Seq<Node>) -> DataView {
    DataView {
        fields: seq![("toc_name"@, m.toc_name), ("nav_points"@, toc_points(toc))],
        lists: Seq::empty(),
    }
}

/// The data for the navigation page, with the table of contents as a
/// numbered list or as a list without numbers.
pub open spec fn nav_data_of(
    m: MetadataView,
    files: Seq<ContentView>,
    toc: Seq<Node>,
    version: Version,
    numbered: bool,
) -> DataView {
    DataView {
        fields: seq![
            ("content"@, toc_list(toc, numbered)),
            ("toc_name"@, m.toc_name),
            ("generator"@, m.generator),
            ("landmarks"@, landmarks_block(landmarks_of(files, version))),
        ],
        lists: Seq::empty(),
    }
}

/// In the data for the package document every name stands for one thing.
pub proof fn opf_data_is_unambiguous(
    m: MetadataView,
    files: Seq<ContentView>,
    version: Version,
    date: Seq<char>,
    uuid: Seq<char>,
)
    ensures
        unambiguous(opf_data_of(m, files, version, date, uuid)),
        forall|i: int|
            0 <= i < opf_data_of(m, files, version, date, uuid).lists.len() ==> (
            #[trigger] opf_data_of(m, files, version, date, uuid).lists[i]).0 == "author"@,
{
    reveal_strlit("lang");
    reveal_strlit("title");
    reveal_strlit("generator");
    reveal_strlit("toc_name");
    reveal_strlit("optional");
    reveal_strlit("items");
    reveal_strlit("itemrefs");
    reveal_strlit("date");
    reveal_strlit("uuid");
    reveal_strlit("guide");
    reveal_strlit("author");
    reveal_strlit("id");
    reveal_strlit("name");
    let data = opf_data_of(m, files, version, date, uuid);
    let names = seq![
        "lang"@,
        "title"@,
        "generator"@,
        "toc_name"@,
        "optional"@,
        "items"@,
        "itemrefs"@,
        "date"@,
        "uuid"@,
        "guide"@,
    ];
    assert(data.fields.len() == 10);
    assert(forall|i: int| 0 <= i < 10 ==> (#[trigger] data.fields[i]).0 == names[i]);
    assert(forall|i: int| 0 <= i < 10 ==> (#[trigger] names[i]).len() >= 4);
    assert(forall|i: int, j: int|
        0 <= i < j < 10 ==> (#[trigger] names[i]).len() != (#[trigger] names[j]).len() || names[i][0]
            != names[j][0]);
    assert(distinct_names(data.fields));
    assert(forall|i: int| 0 <= i < 10 ==> (#[trigger] names[i]) != "author"@);
    assert forall|i: int, k: int|
        0 <= i < data.lists.len() && 0 <= k < data.lists[i].1.len() implies distinct_names(
        #[trigger] data.lists[i].1[k],
    ) by {
        assert(data.lists[i].1[k] == author_rows(m.author)[k]);
        assert("id"@.len() != "name"@.len());
    }
}

/// In the data for the navigation map and in the data for the navigation
/// page every name stands for one thing.
pub proof fn navigation_data_is_unambiguous(
    m: MetadataView,
    files: Seq<ContentView>,
    toc: Seq<Node>,
    version: Version,
    numbered: bool,
)
    ensures
        unambiguous(ncx_data_of(m, toc)),
        unambiguous(nav_data_of(m, files, toc, version, numbered)),
{
    reveal_strlit("toc_name");
    reveal_strlit("nav_points");
    reveal_strlit("content");
    reveal_strlit("generator");
    reveal_strlit("landmarks");
    let ncx = ncx_data_of(m, toc);
    assert("toc_name"@.len() != "nav_points"@.len());
    assert(distinct_names(ncx.fields));
    let nav = nav_data_of(m, files, toc, version, numbered);
    let names = seq!["content"@, "toc_name"@, "generator"@, "landmarks"@];
    assert(nav.fields.len() == 4);
    assert(forall|i: int| 0 <= i < 4 ==> (#[trigger] nav.fields[i]).0 == names[i]);
    assert(forall|i: int| 0 <= i < 4 ==> (#[trigger] names[i]).len() >= 7);
    assert(forall|i: int, j: int|
        0 <= i < j < 4 ==> (#[trigger] names[i]).len() != (#[trigger] names[j]).len() || names[i][0]
            != names[j][0]);
    assert(distinct_names(nav.fields));
}

/// Appends each of `values`, between `open` and `close`, to `out`.
fn wrap_all(values: &Vec<String>, open: &str, close: &str, out: &mut Vec<String>)
    ensures
        texts(final(out)@) == texts(old(out)@) + wrapped(texts(values@), open@, close@),
{
    let mut i: usize = 0;
    assert(texts(out@) =~= texts(old(out)@) + wrapped(texts(values@), open@, close@).take(0));
    while i < values.len()
        invariant
            i <= values.len(),
            texts(out@) == texts(old(out)@) + wrapped(texts(values@), open@, close@).take(
                i as int,
            ),
        decreases values.len() - i,
    {
        let ghost before = out@;
        let mut line = open.to_owned();
        line.append(values[i].as_str());
        line.append(close);
        out.push(line);
        assert(texts(out@) =~= texts(before).push(line@));
        assert(texts(out@) =~= texts(old(out)@) + wrapped(texts(values@), open@, close@).take(
            i as int + 1,
        ));
        i = i + 1;
    }
    assert(wrapped(texts(values@), open@, close@).take(i as int) =~= wrapped(
        texts(values@),
        open@,
        close@,
    ));
}

/// Lines as a block, by [`block`].
fn block_text(lines: &Vec<String>) -> (r: String)
    ensures
        r@ == block(texts(lines@)),
{
    proof {
        reveal_strlit("\n");
        assert("\n"@ =~= seq!['\n']);
    }
    indent(join_texts(lines, "\n").as_str(), 2)
}

/// The block of the optional metadata.
fn optional_text(m: &Metadata, files: &Vec<Content>) -> (r: String)
    ensures
        r@ == block(optional_lines(m@, content_views(files@))),
{
    let ghost all = content_views(files@);
    let mut lines: Vec<String> = Vec::new();
    assert(texts(lines@) =~= Seq::<Seq<char>>::empty());
    wrap_all(&m.description, "<dc:description>", "</dc:description>", &mut lines);
    wrap_all(&m.subject, "<dc:subject>", "</dc:subject>", &mut lines);
    let ghost before = lines@;
    match &m.license {
        Some(rights) => {
            let mut line = "<dc:rights>".to_owned();
            line.append(rights.as_str());
            line.append("</dc:rights>");
            lines.push(line);
            assert(texts(lines@) =~= texts(before).push(line@));
        },
        None => {},
    }
    let ghost head = texts(lines@);
    assert(head =~= wrapped(m@.description, "<dc:description>"@, "</dc:description>"@) + wrapped(
        m@.subject,
        "<dc:subject>"@,
        "</dc:subject>"@,
    ) + (match m@.license {
        Some(rights) => seq!["<dc:rights>"@ + rights + "</dc:rights>"@],
        None => Seq::empty(),
    }));
    let mut i: usize = 0;
    assert(all.take(0) =~= Seq::<ContentView>::empty());
    assert(texts(lines@) =~= head + cover_lines(all.take(0)));
    while i < files.len()
        invariant
            i <= files.len(),
            all == content_views(files@),
            texts(lines@) == head + cover_lines(all.take(i as int)),
        decreases files.len() - i,
    {
        proof {
            assert(all.take(i as int + 1).drop_last() =~= all.take(i as int));
            assert(all.take(i as int + 1).last() == files@[i as int]@);
        }
        if files[i].cover {
            let ghost before = lines@;
            let line = "<meta name=\"cover\" content=\"cover-image\"/>".to_owned();
            lines.push(line);
            assert(texts(lines@) =~= texts(before).push(line@));
            assert(texts(lines@) =~= head + cover_lines(all.take(i as int + 1)));
        }
        i = i + 1;
    }
    assert(all.take(i as int) =~= all);
    block_text(&lines)
}

/// The block of the manifest.
fn items_text(items: &Vec<Item>) -> (r: String)
    ensures
        r@ == block(item_lines(item_views(items@))),
{
    let mut lines: Vec<String> = Vec::new();
    let mut i: usize = 0;
    while i < items.len()
        invariant
            i <= items.len(),
            lines.len() == i,
            forall|j: int| 0 <= j < i ==> (#[trigger] lines@[j])@ == item_line(items@[j]@),
        decreases items.len() - i,
    {
        let item = &items[i];
        let mut line = "<item media-type=\"".to_owned();
        line.append(item.mime.as_str());
        line.append("\" ");
        if item.cover_property {
            line.append("properties=\"cover-image\" ");
        } else {
            assert(line@ + Seq::<char>::empty() =~= line@);
        }
        line.append("id=\"");
        line.append(item.id.as_str());
        line.append("\" href=\"");
        line.append(item.href.as_str());
        line.append("\"/>");
        lines.push(line);
        i = i + 1;
    }
    assert(texts(lines@) =~= item_lines(item_views(items@)));
    block_text(&lines)
}

/// The block of the spine.
fn itemrefs_text(ids: &Vec<String>) -> (r: String)
    ensures
        r@ == block(wrapped(texts(ids@), "<itemref idref=\""@, "\"/>"@)),
{
    let mut lines: Vec<String> = Vec::new();
    wrap_all(ids, "<itemref idref=\"", "\"/>", &mut lines);
    assert(texts(lines@) =~= wrapped(texts(ids@), "<itemref idref=\""@, "\"/>"@));
    block_text(&lines)
}

/// The block of the guide.
fn guide_text(refs: &Vec<Reference>) -> (r: String)
    ensures
        r@ == block(guide_lines(reference_views(refs@))),
{
    let mut lines: Vec<String> = Vec::new();
    let mut i: usize = 0;
    while i < refs.len()
        invariant
            i <= refs.len(),
            lines.len() == i,
            forall|j: int| 0 <= j < i ==> (#[trigger] lines@[j])@ == guide_line(refs@[j]@),
        decreases refs.len() - i,
    {
        let named = &refs[i];
        let title = escape_quote(encode_text(named.title.as_str()).as_str());
        let mut line = "<reference type=\"".to_owned();
        line.append(named.token.as_str());
        line.append("\" title=\"");
        line.append(title.as_str());
        line.append("\" href=\"");
        line.append(named.href.as_str());
        line.append("\"/>");
        lines.push(line);
        i = i + 1;
    }
    assert(texts(lines@) =~= guide_lines(reference_views(refs@)));
    block_text(&lines)
}

/// The landmarks as a list, by [`landmarks_block`].
fn landmarks_text(refs: &Vec<Reference>) -> (r: String)
    ensures
        r@ == landmarks_block(reference_views(refs@)),
{
    if refs.len() == 0 {
        return String::new();
    }
    let mut lines: Vec<String> = Vec::new();
    let mut i: usize = 0;
    while i < refs.len()
        invariant
            i <= refs.len(),
            lines.len() == i,
            forall|j: int| 0 <= j < i ==> (#[trigger] lines@[j])@ == landmark_line(refs@[j]@),
        decreases refs.len() - i,
    {
        let mark = &refs[i];
        let mut line = "<li><a epub:type=\"".to_owned();
        line.append(mark.token.as_str());
        line.append("\" href=\"");
        line.append(mark.href.as_str());
        line.append("\">");
        line.append(mark.title.as_str());
        line.append("</a></li>");
        lines.push(line);
        i = i + 1;
    }
    assert(texts(lines@) =~= landmark_lines(reference_views(refs@)));
    proof {
        reveal_strlit("\n");
        assert("\n"@ =~= seq!['\n']);
    }
    let inner = indent(join_texts(&lines, "\n").as_str(), 1);
    let mut list = "<ol>\n".to_owned();
    list.append(inner.as_str());
    list.append("\n</ol>");
    indent(list.as_str(), 2)
}

/// Appends the field `key` with the text `value`.
fn put(fields: &mut Vec<Field>, key: &str, value: String)
    ensures
        field_views(final(fields)@) == field_views(old(fields)@).push((key@, value@)),
{
    fields.push(Field { key: key.to_owned(), value });
    assert(field_views(fields@) =~= field_views(old(fields)@).push((key@, value@)));
}

/// The rows of the authors, by [`author_rows`].
fn author_records(authors: &Vec<String>) -> (r: Vec<Record>)
    ensures
        record_views(r@) == author_rows(texts(authors@)),
{
    let mut rows: Vec<Record> = Vec::new();
    let mut i: usize = 0;
    while i < authors.len()
        invariant
            i <= authors.len(),
            rows.len() == i,
            forall|j: int|
                0 <= j < i ==> field_views((#[trigger] rows@[j]).fields@) == author_rows(
                    texts(authors@),
                )[j],
        decreases authors.len() - i,
    {
        let mut fields: Vec<Field> = Vec::new();
        assert(field_views(fields@) =~= Seq::empty());
        put(&mut fields, "id", decimal_text(i));
        put(&mut fields, "name", authors[i].clone());
        rows.push(Record { fields });
        i = i + 1;
    }
    assert(record_views(rows@) =~= author_rows(texts(authors@)));
    rows
}

/// The data for the package document of a document with this metadata and
/// these files, written at `date` under the identifier `uuid`.
pub fn opf_data(
    m: &Metadata,
    files: &Vec<Content>,
    version: Version,
    date: &str,
    uuid: &str,
) -> (r: TemplateData)
    ensures
        r@ == opf_data_of(m@, content_views(files@), version, date@, uuid@),
{
    let mut fields: Vec<Field> = Vec::new();
    assert(field_views(fields@) =~= Seq::empty());
    put(&mut fields, "lang", m.lang.clone());
    put(&mut fields, "title", m.title.clone());
    put(&mut fields, "generator", m.generator.clone());
    put(&mut fields, "toc_name", m.toc_name.clone());
    put(&mut fields, "optional", optional_text(m, files));
    put(&mut fields, "items", items_text(&items_for(files, version)));
    put(&mut fields, "itemrefs", itemrefs_text(&spine_for(files)));
    put(&mut fields, "date", date.to_owned());
    put(&mut fields, "uuid", uuid.to_owned());
    put(&mut fields, "guide", guide_text(&guide_for(files)));
    let mut lists: Vec<List> = Vec::new();
    lists.push(List { key: "author".to_owned(), records: author_records(&m.author) });
    assert(list_views(lists@) =~= seq![("author"@, author_rows(m@.author))]);
    assert(field_views(fields@) =~= opf_data_of(
        m@,
        content_views(files@),
        version,
        date@,
        uuid@,
    ).fields);
    TemplateData { fields, lists }
}

/// The data for the navigation map of a document.
pub fn ncx_data(m: &Metadata, toc: &Toc) -> (r: TemplateData)
    ensures
        r@ == ncx_data_of(m@, toc@),
{
    let mut fields: Vec<Field> = Vec::new();
    assert(field_views(fields@) =~= Seq::empty());
    put(&mut fields, "toc_name", m.toc_name.clone());
    put(&mut fields, "nav_points", toc.render_epub());
    let lists: Vec<List> = Vec::new();
    assert(list_views(lists@) =~= Seq::empty());
    assert(field_views(fields@) =~= ncx_data_of(m@, toc@).fields);
    TemplateData { fields, lists }
}

/// The data for the navigation page of a document, with its table of
/// contents as a numbered list or as a list without numbers.
pub fn nav_data(
    m: &Metadata,
    files: &Vec<Content>,
    toc: &Toc,
    version: Version,
    numbered: bool,
) -> (r: TemplateData)
    ensures
        r@ == nav_data_of(m@, content_views(files@), toc@, version, numbered),
{
    let mut fields: Vec<Field> = Vec::new();
    assert(field_views(fields@) =~= Seq::empty());
    put(&mut fields, "content", toc.render(numbered));
    put(&mut fields, "toc_name", m.toc_name.clone());
    put(&mut fields, "generator", m.generator.clone());
    put(&mut fields, "landmarks", landmarks_text(&landmarks_for(files, version)));
    let lists: Vec<List> = Vec::new();
    assert(list_views(lists@) =~= Seq::empty());
    assert(field_views(fields@) =~= nav_data_of(
        m@,
        content_views(files@),
        toc@,
        version,
        numbered,
    ).fields);
    TemplateData { fields, lists }
}

} // verus!
