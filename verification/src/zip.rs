//! The archive of a document as a list of entries, and what every strategy
//! that collects the entries has to keep.

use vstd::prelude::*;
use vstd::string::*;
use crate::text::{replace_char, replace_char_by_char, replace_each, same_text};

verus! {

/// Why a strategy could not do what was asked of it.
#[derive(Debug, Clone, Copy, PartialEq, Eq, Structural)]
pub enum BackendError {
    /// The packaging tool is missing or does not work.
    Unavailable,
    /// Writing an entry or the archive failed.
    Io,
    /// The entry may not be written: its path is that of the marker entry,
    /// which every strategy writes by itself.
    InvalidEntry,
}

/// One file of the archive.
#[derive(Debug, Clone)]
pub struct Entry {
    /// The path inside the archive, with forward slashes.
    pub path: String,
    /// What the file holds.
    pub content: Vec<u8>,
    /// Whether the file may be stored compressed.
    pub compressed: bool,
}

/// What an [`Entry`] stands for.
pub ghost struct EntryView {
    pub path: Seq<char>,
    pub content: Seq<u8>,
    pub compressed: bool,
}

impl View for Entry {
    type V = EntryView;

    open spec fn view(&self) -> EntryView {
        EntryView { path: self.path@, content: self.content@, compressed: self.compressed }
    }
}

/// The views of a sequence of entries, in order.
pub open spec fn entry_views(v: Seq<Entry>) -> Seq<EntryView> {
    Seq::new(v.len(), |i: int| v[i]@)
}

/// The entries of a finished archive, in the order in which they are to be
/// stored.
#[derive(Debug)]
pub struct Archive {
    /// The entries, the marker entry first.
    pub entries: Vec<Entry>,
}

impl View for Archive {
    type V = Seq<EntryView>;

    open spec fn view(&self) -> Seq<EntryView> {
        entry_views(self.entries@)
    }
}

/// The path of the marker entry.
pub open spec fn marker_path() -> Seq<char> {
    "mimetype"@
}

/// The marker entry, which tells readers what kind of container the archive
/// is: it holds the media type of the container and is stored as it is.
pub open spec fn marker_entry() -> EntryView {
    EntryView {
        path: marker_path(),
        content: "application/epub+zip".spec_bytes(),
        compressed: false,
    }
}

/// The path under which a file is stored: the path that the caller gave,
/// with a forward slash in place of every backslash.
pub open spec fn archive_path(path: Seq<char>) -> Seq<char> {
    replace_char(path, '\\', seq!['/'])
}

/// The entry for a file that a caller wrote.
pub open spec fn file_entry(path: Seq<char>, content: Seq<u8>) -> EntryView {
    EntryView { path: archive_path(path), content, compressed: true }
}

/// The archive that holds `written`: the marker entry, then the files in the
/// order in which they were written.
pub open spec fn archive_of(written: Seq<EntryView>) -> Seq<EntryView> {
    seq![marker_entry()] + written
}

/// A strategy that collects the files of a document and hands out the
/// finished archive.
pub trait Zip: Sized {
    /// The files written so far, in the order of the calls.
    spec fn written(&self) -> Seq<EntryView>;

    /// The tool that is to store the archive, or none where the archive is
    /// stored in memory. This is decided when the strategy is made: writing
    /// a file and handing out the archive do not change it.
    spec fn tool(&self) -> Option<Seq<char>>;

    /// Adds a file to the archive. The file is refused, and nothing changes,
    /// where its path is that of the marker entry.
    fn write_file(&mut self, path: &str, content: Vec<u8>) -> (r: Result<(), BackendError>)
        ensures
            r is Ok <==> archive_path(path@) != marker_path(),
            r is Ok ==> final(self).written() == old(self).written().push(
                file_entry(path@, content@),
            ),
            r is Err ==> r == Err::<(), BackendError>(BackendError::InvalidEntry),
            r is Err ==> final(self).written() == old(self).written(),
            final(self).tool() == old(self).tool(),
    ;

    /// The finished archive: the marker entry first, stored as it is, then
    /// every file written, in the order of the calls. The strategy is left
    /// without files.
    fn generate(&mut self) -> (r: Archive)
        ensures
            r@ == archive_of(old(self).written()),
            final(self).written() == Seq::<EntryView>::empty(),
            final(self).tool() == old(self).tool(),
    ;
}

/// The marker entry as a value.
pub fn marker() -> (r: Entry)
    ensures
        r@ == marker_entry(),
{
    Entry {
        path: "mimetype".to_owned(),
        content: "application/epub+zip".as_bytes_vec(),
        compressed: false,
    }
}

/// The entry for a file written under `path`.
pub fn file(path: &str, content: Vec<u8>) -> (r: Entry)
    ensures
        r@ == file_entry(path@, content@),
{
    proof {
        reveal_strlit("/");
        assert("/"@ =~= seq!['/']);
    }
    Entry { path: replace_each(path, '\\', "/"), content, compressed: true }
}

/// Whether `path` is stored under the path of the marker entry.
pub fn is_marker_path(path: &str) -> (r: bool)
    ensures
        r == (archive_path(path@) == marker_path()),
{
    proof {
        reveal_strlit("/");
        assert("/"@ =~= seq!['/']);
    }
    let stored = replace_each(path, '\\', "/");
    same_text(stored.as_str(), "mimetype")
}

/// The archive of `written`, which is left empty: the marker entry in front,
/// then the files in their order.
pub fn with_marker(written: &mut Vec<Entry>) -> (r: Archive)
    ensures
        r@ == archive_of(entry_views(old(written)@)),
        final(written)@ == Seq::<Entry>::empty(),
{
    let mut entries: Vec<Entry> = Vec::new();
    entries.push(marker());
    entries.append(written);
    assert(entry_views(entries@) =~= archive_of(entry_views(old(written)@)));
    Archive { entries }
}

/// A path that begins with a capital letter is not stored under the path of
/// the marker entry, which begins with a small one.
pub proof fn capital_is_no_marker(path: Seq<char>)
    requires
        path.len() > 0,
        'A' <= path[0] <= 'Z',
    ensures
        archive_path(path) != marker_path(),
{
    replace_char_by_char(path, '\\', '/');
    reveal_strlit("mimetype");
    assert(archive_path(path)[0] == path[0]);
    assert(marker_path()[0] == 'm');
}

/// In every archive the marker entry comes first and is stored as it is, and
/// the files follow in the order in which they were written.
pub proof fn marker_comes_first(written: Seq<EntryView>)
    ensures
        archive_of(written).len() == written.len() + 1,
        archive_of(written)[0] == marker_entry(),
        !archive_of(written)[0].compressed,
        forall|i: int| 0 <= i < written.len() ==> archive_of(written)[i + 1] == written[i],
{
}

} // verus!
