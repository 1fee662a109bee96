//! The operations of the remote API.
use vstd::prelude::*;

verus! {

/// An operation that the remote host carries out on request.
#[derive(Clone, Copy, Debug, PartialEq, Eq, Structural)]
pub enum BitburnerMethod {
    /// Create or update a file.
    PushFile,
    /// Read a file and its content.
    GetFile,
    /// Delete a file.
    DeleteFile,
    /// List all file names on a server.
    GetFileNames,
    /// Get the content of all files on a server.
    GetAllFiles,
    /// Calculate the in-game RAM cost of a script.
    CalculateRam,
    /// Get the definition file of the API.
    GetDefinitionFile,
}

impl BitburnerMethod {
    /// The method's name on the wire.
    pub open spec fn spec_wire_name(self) -> Seq<char> {
        match self {
            BitburnerMethod::PushFile => "pushFile"@,
            BitburnerMethod::GetFile => "getFile"@,
            BitburnerMethod::DeleteFile => "deleteFile"@,
            BitburnerMethod::GetFileNames => "getFileNames"@,
            BitburnerMethod::GetAllFiles => "getAllFiles"@,
            BitburnerMethod::CalculateRam => "calculateRam"@,
            BitburnerMethod::GetDefinitionFile => "getDefinitionFile"@,
        }
    }

    /// The method's name on the wire.
    pub fn wire_name(&self) -> (r: &'static str)
        ensures
            r@ == self.spec_wire_name(),
    {
        match self {
            BitburnerMethod::PushFile => "pushFile",
            BitburnerMethod::GetFile => "getFile",
            BitburnerMethod::DeleteFile => "deleteFile",
            BitburnerMethod::GetFileNames => "getFileNames",
            BitburnerMethod::GetAllFiles => "getAllFiles",
            BitburnerMethod::CalculateRam => "calculateRam",
            BitburnerMethod::GetDefinitionFile => "getDefinitionFile",
        }
    }
}

} // verus!
