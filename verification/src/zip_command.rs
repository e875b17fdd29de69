//! The strategy that leaves the packaging to an external tool.

use vstd::prelude::*;
use vstd::string::*;
use crate::text::{parts, replace_each, same_text, split_parts, texts};
use crate::zip::{
    archive_path, entry_views, file, file_entry, is_marker_path, with_marker, Archive,
    BackendError, Entry, EntryView, Zip,
};

verus! {

/// The name under which the tool makes the archive, in the directory in
/// which it is run.
pub const ARCHIVE_NAME: &'static str = "output.epub";

/// Whether a file under `path` stays inside the directory in which the tool
/// is run: the path, with forward slashes, is not empty, does not begin at
/// the root, and none of its parts is `..`, which would lead out of a
/// directory.
pub open spec fn stays_inside(path: Seq<char>) -> bool {
    let stored = archive_path(path);
    &&& stored.len() > 0
    &&& stored[0] != '/'
    &&& forall|i: int|
        0 <= i < parts(stored, '/').len() ==> (#[trigger] parts(stored, '/')[i]) != seq!['.', '.']
}

/// Collects the files of a document for an external packaging tool. The
/// marker entry is added when the archive is handed out, in front of the
/// files.
#[derive(Debug)]
pub struct ZipCommand {
    command: String,
    files: Vec<Entry>,
}

impl ZipCommand {
    /// A strategy for the tool `zip`, without files.
    pub fn new() -> (r: Self)
        ensures
            r.tool() == Some("zip"@),
            r.written() == Seq::<EntryView>::empty(),
    {
        let r = ZipCommand { command: "zip".to_owned(), files: Vec::new() };
        assert(r.written() =~= Seq::<EntryView>::empty());
        r
    }

    /// Names the tool that is to be run. The files stay as they are.
    pub fn command(&mut self, name: &str) -> (r: &mut Self)
        ensures
            r.tool() == Some(name@),
            r.written() == old(self).written(),
            *final(self) == *final(r),
    {
        self.command = name.to_owned();
        self
    }

    /// The name of the tool that is to be run.
    pub fn command_name(&self) -> (r: &str)
        ensures
            self.tool() == Some(r@),
    {
        self.command.as_str()
    }

    /// Tells whether a file under `path` may be put where the tool finds it:
    /// it may where the file stays inside the directory in which the tool is
    /// run.
    pub fn can_stage(path: &str) -> (r: bool)
        ensures
            r == stays_inside(path@),
    {
        proof {
            reveal_strlit("/");
            assert("/"@ =~= seq!['/']);
            reveal_strlit("..");
            assert(".."@ =~= seq!['.', '.']);
        }
        let stored = replace_each(path, '\\', "/");
        if stored.as_str().is_empty() {
            return false;
        }
        if stored.as_str().get_char(0) == '/' {
            return false;
        }
        let names = split_parts(stored.as_str(), '/');
        let mut i: usize = 0;
        while i < names.len()
            invariant
                i <= names.len(),
                texts(names@) == parts(stored@, '/'),
                stored@ == archive_path(path@),
                stored@.len() > 0,
                stored@[0] != '/',
                ".."@ == seq!['.', '.'],
                forall|j: int| 0 <= j < i ==> (#[trigger] parts(stored@, '/')[j]) != seq!['.', '.'],
            decreases names.len() - i,
        {
            assert(texts(names@)[i as int] == names@[i as int]@);
            if same_text(names[i].as_str(), "..") {
                assert(parts(stored@, '/')[i as int] == seq!['.', '.']);
                return false;
            }
            i = i + 1;
        }
        assert(texts(names@).len() == names.len());
        true
    }

    /// What the tool is run with to try it out: it is asked for its version
    /// and touches no file.
    pub fn probe_arguments() -> (r: Vec<String>)
        ensures
            texts(r@) == seq!["-v"@],
    {
        let mut arguments: Vec<String> = Vec::new();
        arguments.push("-v".to_owned());
        assert(texts(arguments@) =~= seq!["-v"@]);
        arguments
    }

    /// What the tool is run with to add `entry` to the archive: whether the
    /// entry is to be compressed, as well as the tool can or not at all; the
    /// name of the archive; and the path of the entry. Run for every entry
    /// in the order of the archive, the tool stores the marker entry first
    /// and as it is.
    pub fn store_arguments(entry: &Entry) -> (r: Vec<String>)
        ensures
            texts(r@) == seq![
                if entry.compressed { "-X9"@ } else { "-X0"@ },
                ARCHIVE_NAME@,
                entry.path@,
            ],
    {
        let mut arguments: Vec<String> = Vec::new();
        if entry.compressed {
            arguments.push("-X9".to_owned());
        } else {
            arguments.push("-X0".to_owned());
        }
        arguments.push(ARCHIVE_NAME.to_owned());
        arguments.push(entry.path.clone());
        assert(texts(arguments@) =~= seq![
            if entry.compressed { "-X9"@ } else { "-X0"@ },
            ARCHIVE_NAME@,
            entry.path@,
        ]);
        arguments
    }
}

impl Zip for ZipCommand {
    closed spec fn written(&self) -> Seq<EntryView> {
        entry_views(self.files@)
    }

    closed spec fn tool(&self) -> Option<Seq<char>> {
        Some(self.command@)
    }

    fn write_file(&mut self, path: &str, content: Vec<u8>) -> (r: Result<(), BackendError>) {
        if is_marker_path(path) {
            return Err(BackendError::InvalidEntry);
        }
        self.files.push(file(path, content));
        assert(self.written() =~= old(self).written().push(file_entry(path@, content@)));
        Ok(())
    }

    fn generate(&mut self) -> (r: Archive) {
        with_marker(&mut self.files)
    }
}

} // verus!
