//! The strategy that is chosen when the document is begun: the external tool
//! where it works, the one in memory where it does not.

use vstd::prelude::*;
use crate::zip::{Archive, BackendError, EntryView, Zip};
use crate::zip_command::ZipCommand;
use crate::zip_library::ZipLibrary;

verus! {

/// Either of the two strategies. Which one is decided once, when the value
/// is made, and every call goes to it.
#[derive(Debug)]
pub enum ZipCommandOrLibrary {
    /// The external tool.
    Command(ZipCommand),
    /// The strategy in memory.
    Library(ZipLibrary),
}

impl ZipCommandOrLibrary {
    /// Chooses the strategy from what trying out the tool `command` gave:
    /// the external tool under that name where the trial went well, the
    /// strategy in memory where it failed for whatever reason. Either way no
    /// file is written yet.
    pub fn new(command: &str, probe: Result<(), BackendError>) -> (r: Self)
        ensures
            probe is Ok <==> r is Command,
            probe is Err <==> r is Library,
            probe is Ok ==> r.tool() == Some(command@),
            probe is Err ==> r.tool() is None,
            r.written() == Seq::<EntryView>::empty(),
    {
        match probe {
            Ok(_) => {
                let mut z = ZipCommand::new();
                z.command(command);
                ZipCommandOrLibrary::Command(z)
            },
            Err(_) => ZipCommandOrLibrary::Library(ZipLibrary::new()),
        }
    }
}

impl Zip for ZipCommandOrLibrary {
    open spec fn written(&self) -> Seq<EntryView> {
        match self {
            ZipCommandOrLibrary::Command(z) => z.written(),
            ZipCommandOrLibrary::Library(z) => z.written(),
        }
    }

    open spec fn tool(&self) -> Option<Seq<char>> {
        match self {
            ZipCommandOrLibrary::Command(z) => z.tool(),
            ZipCommandOrLibrary::Library(z) => z.tool(),
        }
    }

    fn write_file(&mut self, path: &str, content: Vec<u8>) -> (r: Result<(), BackendError>)
        ensures
            *old(self) is Command <==> *final(self) is Command,
    {
        match self {
            ZipCommandOrLibrary::Command(z) => z.write_file(path, content),
            ZipCommandOrLibrary::Library(z) => z.write_file(path, content),
        }
    }

    fn generate(&mut self) -> (r: Archive)
        ensures
            *old(self) is Command <==> *final(self) is Command,
    {
        match self {
            ZipCommandOrLibrary::Command(z) => z.generate(),
            ZipCommandOrLibrary::Library(z) => z.generate(),
        }
    }
}

} // verus!
