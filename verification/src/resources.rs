//! Resource-name handling and validation of loaded resource text.
//!
//! Opening and reading files is platform glue; what belongs here is the pure
//! part of resource loading: mapping a logical resource name onto a path
//! under a root directory, and vetting the loaded bytes.  Paths are handled
//! as byte strings, with `/` separating the logical name's parts.

use vstd::prelude::*;

verus! {

/// Why a resource could not be provided.
#[derive(Debug)]
pub enum Error {
    /// The file could not be opened or read, or it was empty; the message
    /// says which.
    Io(String),
    /// The loaded text contains an embedded NUL byte and cannot be handed to
    /// the GPU interface as a C string.
    FileContainsNil,
    /// The executable's own location, which anchors the resource root, could
    /// not be determined.
    FailedToGetExePath,
}

/// A resource root: every resource name is resolved under this directory.
pub struct Resources {
    pub root_path: Vec<u8>,
}

impl Resources {
    /// A resource root at the given directory path.
    pub fn new(root_path: Vec<u8>) -> (r: Resources)
        ensures
            r.root_path@ == root_path@,
    {
        Resources { root_path }
    }

    /// The full path of a named resource under this root.
    pub fn full_path(&self, resource_name: &Vec<u8>) -> (path: Vec<u8>)
        ensures
            path@ == self.root_path@ + seq![SLASH] + resource_name@,
    {
        resource_name_to_path(&self.root_path, resource_name)
    }
}

/// The path separator joining the root, and the parts of a logical name.
pub const SLASH: u8 = 47;

/// Resolve a logical resource name (with `/` between its parts) to a path
/// under the given root directory: the root, a separator, then the name,
/// whose own separators already are path separators.
pub fn resource_name_to_path(root_dir: &Vec<u8>, location: &Vec<u8>) -> (path: Vec<u8>)
    ensures
        path@ == root_dir@ + seq![SLASH] + location@,
{
    let mut path: Vec<u8> = Vec::new();
    let mut i: usize = 0;
    while i < root_dir.len()
        invariant
            0 <= i <= root_dir@.len(),
            path@ == root_dir@.subrange(0, i as int),
        decreases root_dir@.len() - i,
    {
        path.push(root_dir[i]);
        proof {
            assert(path@ =~= root_dir@.subrange(0, i + 1 as int));
        }
        i = i + 1;
    }
    path.push(SLASH);
    let mut j: usize = 0;
    while j < location.len()
        invariant
            0 <= j <= location@.len(),
            path@ == root_dir@ + seq![SLASH] + location@.subrange(0, j as int),
        decreases location@.len() - j,
    {
        path.push(location[j]);
        proof {
            assert(path@ =~= root_dir@ + seq![SLASH] + location@.subrange(0, j + 1 as int));
        }
        j = j + 1;
    }
    proof {
        assert(root_dir@.subrange(0, root_dir@.len() as int) =~= root_dir@);
        assert(location@.subrange(0, location@.len() as int) =~= location@);
        assert(path@ =~= root_dir@ + seq![SLASH] + location@);
    }
    path
}

/// Vet the bytes read from a resource file: text with an embedded NUL byte
/// is rejected as `FileContainsNil`, an empty file is rejected as an I/O
/// error, and anything else is returned unchanged.
pub fn vet_loaded_bytes(bytes: Vec<u8>) -> (r: Result<Vec<u8>, Error>)
    ensures
        match r {
            Ok(out) => out@ == bytes@ && bytes@.len() > 0 && (forall|i: int|
                0 <= i < bytes@.len() ==> bytes@[i] != 0),
            Err(e) => match e {
                Error::FileContainsNil => exists|i: int| 0 <= i < bytes@.len() && bytes@[i] == 0,
                Error::Io(m) => m@ == "File is empty"@ && bytes@.len() == 0,
                Error::FailedToGetExePath => false,
            },
        },
{
    let mut i: usize = 0;
    while i < bytes.len()
        invariant
            0 <= i <= bytes@.len(),
            forall|k: int| 0 <= k < i ==> bytes@[k] != 0,
        decreases bytes@.len() - i,
    {
        if bytes[i] == 0 {
            return Err(Error::FileContainsNil);
        }
        i = i + 1;
    }
    if bytes.len() == 0 {
        return Err(Error::Io("File is empty".to_owned()));
    }
    Ok(bytes)
}

} // verus!
