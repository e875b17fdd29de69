//! What the package document lists: derived from the files of a document,
//! its table of contents and the version of the format.

use vstd::prelude::*;
use crate::epub::{content_views, Content, ContentView, Version};
use crate::ident::{spec_to_id, to_id};
use crate::text::{replace_each, texts};
use crate::toc::{nav_points, toc_list, NavPoint, Node, Point, Toc};
use crate::zip::archive_path;

verus! {

/// An item of the manifest: one file of the document.
#[derive(Debug, Clone)]
pub struct Item {
    /// The identifier by which the package document refers to the file.
    pub id: String,
    /// The media type of the file.
    pub mime: String,
    /// The path of the file, with forward slashes.
    pub href: String,
    /// Whether the item is marked as the cover image.
    pub cover_property: bool,
}

/// What an [`Item`] stands for.
pub ghost struct ItemView {
    pub id: Seq<char>,
    pub mime: Seq<char>,
    pub href: Seq<char>,
    pub cover_property: bool,
}

impl View for Item {
    type V = ItemView;

    open spec fn view(&self) -> ItemView {
        ItemView {
            id: self.id@,
            mime: self.mime@,
            href: self.href@,
            cover_property: self.cover_property,
        }
    }
}

/// A page that the guide or the landmarks name.
#[derive(Debug, Clone)]
pub struct Reference {
    /// What the page is, in the words of the section that names it.
    pub token: String,
    /// The title of the page.
    pub title: String,
    /// The path of the page.
    pub href: String,
}

/// What a [`Reference`] stands for.
pub ghost struct ReferenceView {
    pub token: Seq<char>,
    pub title: Seq<char>,
    pub href: Seq<char>,
}

impl View for Reference {
    type V = ReferenceView;

    open spec fn view(&self) -> ReferenceView {
        ReferenceView { token: self.token@, title: self.title@, href: self.href@ }
    }
}

/// The identifier of a file: a fixed one for the cover image, for every other
/// file the one made from its path.
pub open spec fn id_of(c: ContentView) -> Seq<char> {
    if c.cover {
        "cover-image"@
    } else {
        spec_to_id(c.file)
    }
}

/// The item of the manifest for a file. Only version 3 marks the cover
/// image.
pub open spec fn item_of(c: ContentView, version: Version) -> ItemView {
    ItemView {
        id: id_of(c),
        mime: c.mime,
        href: archive_path(c.file),
        cover_property: c.cover && version == Version::V30,
    }
}

/// The items of the manifest: one for each file, in the order of the files.
pub open spec fn items_of(files: Seq<ContentView>, version: Version) -> Seq<ItemView> {
    Seq::new(files.len(), |i: int| item_of(files[i], version))
}

/// The spine: the identifiers of the files that belong to the reading order,
/// in the order of the files.
pub open spec fn spine_of(files: Seq<ContentView>) -> Seq<Seq<char>>
    decreases files.len(),
{
    if files.len() == 0 {
        Seq::empty()
    } else if files.last().itemref {
        spine_of(files.drop_last()).push(id_of(files.last()))
    } else {
        spine_of(files.drop_last())
    }
}

/// Whether the guide names the file: it was said what the file is, and its
/// title is not empty.
pub open spec fn is_named(c: ContentView) -> bool {
    c.reftype is Some && c.title.len() > 0
}

/// The guide: the files that it names, in the order of the files, each with
/// the word of the guide for what it is.
pub open spec fn guide_of(files: Seq<ContentView>) -> Seq<ReferenceView>
    decreases files.len(),
{
    if files.len() == 0 {
        Seq::empty()
    } else if is_named(files.last()) {
        guide_of(files.drop_last()).push(
            ReferenceView {
                token: files.last().reftype->0.guide_token(),
                title: files.last().title,
                href: files.last().file,
            },
        )
    } else {
        guide_of(files.drop_last())
    }
}

/// The landmarks of version 3: the files that the guide names, each with the
/// word of the landmarks for what it is.
pub open spec fn marks_of(files: Seq<ContentView>) -> Seq<ReferenceView>
    decreases files.len(),
{
    if files.len() == 0 {
        Seq::empty()
    } else if is_named(files.last()) {
        marks_of(files.drop_last()).push(
            ReferenceView {
                token: files.last().reftype->0.landmark_token(),
                title: files.last().title,
                href: files.last().file,
            },
        )
    } else {
        marks_of(files.drop_last())
    }
}

/// The landmarks. Version 2 has none.
pub open spec fn landmarks_of(files: Seq<ContentView>, version: Version) -> Seq<ReferenceView> {
    if version == Version::V30 {
        marks_of(files)
    } else {
        Seq::empty()
    }
}

/// Everything that the package document and the navigation documents are
/// made of.
#[derive(Debug)]
pub struct ManifestData {
    /// One item for each file.
    pub items: Vec<Item>,
    /// The identifiers of the files of the reading order.
    pub spine_refs: Vec<String>,
    /// The pages that the guide names.
    pub guide_refs: Vec<Reference>,
    /// The pages that the landmarks name.
    pub landmarks: Vec<Reference>,
    /// The flat navigation map.
    pub nav_points: Vec<NavPoint>,
    /// The table of contents as a numbered list.
    pub nav_numbered: String,
    /// The table of contents as a list without numbers.
    pub nav_plain: String,
}

/// The views of a sequence of items.
pub open spec fn item_views(v: Seq<Item>) -> Seq<ItemView> {
    Seq::new(v.len(), |i: int| v[i]@)
}

/// The views of a sequence of references.
pub open spec fn reference_views(v: Seq<Reference>) -> Seq<ReferenceView> {
    Seq::new(v.len(), |i: int| v[i]@)
}

/// The views of a sequence of navigation points.
pub open spec fn point_views(v: Seq<NavPoint>) -> Seq<Point> {
    Seq::new(v.len(), |i: int| v[i]@)
}

/// What [`ManifestData`] stands for.
pub ghost struct ManifestView {
    pub items: Seq<ItemView>,
    pub spine_refs: Seq<Seq<char>>,
    pub guide_refs: Seq<ReferenceView>,
    pub landmarks: Seq<ReferenceView>,
    pub nav_points: Seq<Point>,
    pub nav_numbered: Seq<char>,
    pub nav_plain: Seq<char>,
}

impl View for ManifestData {
    type V = ManifestView;

    open spec fn view(&self) -> ManifestView {
        ManifestView {
            items: item_views(self.items@),
            spine_refs: texts(self.spine_refs@),
            guide_refs: reference_views(self.guide_refs@),
            landmarks: reference_views(self.landmarks@),
            nav_points: point_views(self.nav_points@),
            nav_numbered: self.nav_numbered@,
            nav_plain: self.nav_plain@,
        }
    }
}

/// The manifest of a document with these files and this table of contents.
pub open spec fn manifest_of(
    files: Seq<ContentView>,
    toc: Seq<Node>,
    version: Version,
) -> ManifestView {
    ManifestView {
        items: items_of(files, version),
        spine_refs: spine_of(files),
        guide_refs: guide_of(files),
        landmarks: landmarks_of(files, version),
        nav_points: nav_points(toc),
        nav_numbered: toc_list(toc, true),
        nav_plain: toc_list(toc, false),
    }
}

/// The identifier of a file.
pub fn file_id(c: &Content) -> (r: String)
    ensures
        r@ == id_of(c@),
{
    if c.cover {
        "cover-image".to_owned()
    } else {
        to_id(c.file.as_str())
    }
}

/// The path of a file with forward slashes.
pub fn forward_slashes(path: &str) -> (r: String)
    ensures
        r@ == archive_path(path@),
{
    proof {
        reveal_strlit("/");
        assert("/"@ =~= seq!['/']);
    }
    replace_each(path, '\\', "/")
}

/// The items of the manifest for the files of a document.
pub fn items_for(files: &Vec<Content>, version: Version) -> (r: Vec<Item>)
    ensures
        item_views(r@) == items_of(content_views(files@), version),
{
    let mut items: Vec<Item> = Vec::new();
    let mut i: usize = 0;
    while i < files.len()
        invariant
            i <= files.len(),
            items.len() == i,
            forall|j: int| 0 <= j < i ==> (#[trigger] items@[j])@ == item_of(files@[j]@, version),
        decreases files.len() - i,
    {
        let c = &files[i];
        let cover_property = c.cover && match version {
            Version::V30 => true,
            Version::V20 => false,
        };
        items.push(
            Item {
                id: file_id(c),
                mime: c.mime.clone(),
                href: forward_slashes(c.file.as_str()),
                cover_property,
            },
        );
        i = i + 1;
    }
    assert(item_views(items@) =~= items_of(content_views(files@), version));
    items
}

/// The spine for the files of a document.
pub fn spine_for(files: &Vec<Content>) -> (r: Vec<String>)
    ensures
        texts(r@) == spine_of(content_views(files@)),
{
    let ghost all = content_views(files@);
    let mut spine: Vec<String> = Vec::new();
    let mut i: usize = 0;
    proof {
        assert(all.take(0) =~= Seq::<ContentView>::empty());
        assert(texts(spine@) =~= spine_of(all.take(0)));
    }
    while i < files.len()
        invariant
            i <= files.len(),
            all == content_views(files@),
            texts(spine@) == spine_of(all.take(i as int)),
        decreases files.len() - i,
    {
        let c = &files[i];
        proof {
            assert(all.take(i as int + 1).drop_last() =~= all.take(i as int));
            assert(all.take(i as int + 1).last() == c@);
        }
        if c.itemref {
            let ghost before = spine@;
            let id = file_id(c);
            spine.push(id);
            assert(texts(spine@) =~= texts(before).push(id@));
        }
        i = i + 1;
    }
    assert(all.take(i as int) =~= all);
    spine
}

/// The guide for the files of a document.
pub fn guide_for(files: &Vec<Content>) -> (r: Vec<Reference>)
    ensures
        reference_views(r@) == guide_of(content_views(files@)),
{
    let ghost all = content_views(files@);
    let mut guide: Vec<Reference> = Vec::new();
    let mut i: usize = 0;
    proof {
        assert(all.take(0) =~= Seq::<ContentView>::empty());
        assert(reference_views(guide@) =~= guide_of(all.take(0)));
    }
    while i < files.len()
        invariant
            i <= files.len(),
            all == content_views(files@),
            reference_views(guide@) == guide_of(all.take(i as int)),
        decreases files.len() - i,
    {
        let c = &files[i];
        proof {
            assert(all.take(i as int + 1).drop_last() =~= all.take(i as int));
            assert(all.take(i as int + 1).last() == c@);
        }
        match c.reftype {
            Some(kind) => {
                if !c.title.as_str().is_empty() {
                    let ghost before = guide@;
                    let named = Reference {
                        token: kind.guide_name().to_owned(),
                        title: c.title.clone(),
                        href: c.file.clone(),
                    };
                    guide.push(named);
                    assert(reference_views(guide@) =~= reference_views(before).push(named@));
                }
            },
            None => {},
        }
        i = i + 1;
    }
    assert(all.take(i as int) =~= all);
    guide
}

/// The landmarks for the files of a document.
pub fn landmarks_for(files: &Vec<Content>, version: Version) -> (r: Vec<Reference>)
    ensures
        reference_views(r@) == landmarks_of(content_views(files@), version),
{
    let ghost all = content_views(files@);
    let mut marks: Vec<Reference> = Vec::new();
    match version {
        Version::V20 => {
            assert(reference_views(marks@) =~= Seq::<ReferenceView>::empty());
            return marks;
        },
        Version::V30 => {},
    }
    let mut i: usize = 0;
    proof {
        assert(all.take(0) =~= Seq::<ContentView>::empty());
        assert(reference_views(marks@) =~= marks_of(all.take(0)));
    }
    while i < files.len()
        invariant
            i <= files.len(),
            all == content_views(files@),
            reference_views(marks@) == marks_of(all.take(i as int)),
        decreases files.len() - i,
    {
        let c = &files[i];
        proof {
            assert(all.take(i as int + 1).drop_last() =~= all.take(i as int));
            assert(all.take(i as int + 1).last() == c@);
        }
        match c.reftype {
            Some(kind) => {
                if !c.title.as_str().is_empty() {
                    let ghost before = marks@;
                    let mark = Reference {
                        token: kind.landmark_name().to_owned(),
                        title: c.title.clone(),
                        href: c.file.clone(),
                    };
                    marks.push(mark);
                    assert(reference_views(marks@) =~= reference_views(before).push(mark@));
                }
            },
            None => {},
        }
        i = i + 1;
    }
    assert(all.take(i as int) =~= all);
    marks
}

/// Derives the manifest from the files of a document, its table of contents
/// and the version of the format.
pub fn assemble(files: &Vec<Content>, toc: &Toc, version: Version) -> (r: ManifestData)
    ensures
        r@ == manifest_of(content_views(files@), toc@, version),
{
    let points = toc.nav_points();
    assert(point_views(points@) =~= nav_points(toc@));
    ManifestData {
        items: items_for(files, version),
        spine_refs: spine_for(files),
        guide_refs: guide_for(files),
        landmarks: landmarks_for(files, version),
        nav_points: points,
        nav_numbered: toc.render(true),
        nav_plain: toc.render(false),
    }
}

/// The manifest holds one item for each file, in the order of the files, and
/// the item of a cover image has the identifier `cover-image`, whatever the
/// path of the image is.
pub proof fn cover_has_fixed_id(files: Seq<ContentView>, version: Version, i: int)
    requires
        0 <= i < files.len(),
    ensures
        items_of(files, version).len() == files.len(),
        items_of(files, version)[i].mime == files[i].mime,
        files[i].cover ==> items_of(files, version)[i].id == "cover-image"@,
        !files[i].cover ==> items_of(files, version)[i].id == spec_to_id(files[i].file),
        items_of(files, version)[i].cover_property == (files[i].cover && version == Version::V30),
{
}

/// A document of version 2 has no landmarks, whatever its files are.
pub proof fn version_2_has_no_landmarks(files: Seq<ContentView>)
    ensures
        landmarks_of(files, Version::V20) == Seq::<ReferenceView>::empty(),
{
}

/// A file that the guide names stands in the guide of either version, and
/// in the landmarks of version 3, each time with the word of that section.
pub proof fn named_file_is_listed(files: Seq<ContentView>, c: ContentView)
    requires
        is_named(c),
    ensures
        guide_of(files.push(c)) == guide_of(files).push(
            ReferenceView { token: c.reftype->0.guide_token(), title: c.title, href: c.file },
        ),
        landmarks_of(files.push(c), Version::V30) == landmarks_of(files, Version::V30).push(
            ReferenceView { token: c.reftype->0.landmark_token(), title: c.title, href: c.file },
        ),
{
    assert(files.push(c).drop_last() =~= files);
}

/// A file that the guide does not name, because nobody said what it is or
/// because it has no title, changes neither the guide nor the landmarks.
pub proof fn unnamed_file_is_not_listed(files: Seq<ContentView>, c: ContentView, version: Version)
    requires
        !is_named(c),
    ensures
        guide_of(files.push(c)) == guide_of(files),
        landmarks_of(files.push(c), version) == landmarks_of(files, version),
{
    assert(files.push(c).drop_last() =~= files);
}

/// A file of the reading order comes last in the spine when it is added, and
/// it gets an item of the manifest whether it belongs to the reading order
/// or not.
pub proof fn added_file_is_listed(files: Seq<ContentView>, c: ContentView, version: Version)
    ensures
        items_of(files.push(c), version) == items_of(files, version).push(item_of(c, version)),
        c.itemref ==> spine_of(files.push(c)) == spine_of(files).push(id_of(c)),
        !c.itemref ==> spine_of(files.push(c)) == spine_of(files),
{
    assert(files.push(c).drop_last() =~= files);
    assert(items_of(files.push(c), version) =~= items_of(files, version).push(item_of(c, version)));
}

} // verus!
