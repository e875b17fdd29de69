//! The strategy that puts the archive together in memory.

use vstd::prelude::*;
use crate::zip::{
    entry_views, file, file_entry, is_marker_path, with_marker, Archive, BackendError, Entry,
    EntryView, Zip,
};

verus! {

/// Collects the files of a document in memory: no tool and no disk is
/// needed, so this strategy can always be had.
#[derive(Debug)]
pub struct ZipLibrary {
    files: Vec<Entry>,
}

impl ZipLibrary {
    /// A strategy without files.
    pub fn new() -> (r: Self)
        ensures
            r.written() == Seq::<EntryView>::empty(),
            r.tool() is None,
    {
        let r = ZipLibrary { files: Vec::new() };
        assert(r.written() =~= Seq::<EntryView>::empty());
        r
    }
}

impl Zip for ZipLibrary {
    closed spec fn written(&self) -> Seq<EntryView> {
        entry_views(self.files@)
    }

    open spec fn tool(&self) -> Option<Seq<char>> {
        None
    }

    fn write_file(&mut self, path: &str, content: Vec<u8>) -> (r: Result<(), BackendError>) {
        if is_marker_path(path) {
            return Err(BackendError::InvalidEntry);
        }
        self.files.push(file(path, content));
        assert(self.written() =~= old(self).written().push(file_entry(path@, content@)));
        Ok(())
    }

    fn generate(&mut self) -> (r: Archive) {
        with_marker(&mut self.files)
    }
}

} // verus!
