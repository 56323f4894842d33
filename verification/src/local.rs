//! The local file system store: the directory walk and the byte reads live
//! with the caller that owns the file handles; the library owns the decision
//! of which entries a listing keeps.

use vstd::prelude::*;
use vstd::string::StringSliceAdditionalSpecFns;

verus! {

/// File enumeration and random-access reads over the local file system. The
/// walk itself and the readers are unverified I/O around the library; this
/// type carries the listing rule they apply.
#[derive(Debug, Clone, Copy)]
pub struct LocalFileSystem;

/// Whether `path` ends with `ext`, byte for byte.
pub open spec fn spec_ends_with(path: Seq<u8>, ext: Seq<u8>) -> bool {
    path.len() >= ext.len() && path.skip(path.len() - ext.len()) == ext
}

impl LocalFileSystem {
    /// The listing rule: a directory walk keeps exactly the entries whose
    /// path ends with the requested extension.
    pub fn keeps_path(path: &str, ext: &str) -> (r: bool)
        ensures
            r == spec_ends_with(path.spec_bytes(), ext.spec_bytes()),
    {
        let pb = path.as_bytes();
        let eb = ext.as_bytes();
        if pb.len() < eb.len() {
            return false;
        }
        let off = pb.len() - eb.len();
        let mut i: usize = 0;
        while i < eb.len()
            invariant
                pb@ == path.spec_bytes(),
                eb@ == ext.spec_bytes(),
                off + eb@.len() == pb@.len(),
                pb@.len() <= usize::MAX,
                i <= eb@.len(),
                forall|j: int| 0 <= j < i ==> pb@[off + j] == eb@[j],
            decreases eb@.len() - i,
        {
            if pb[off + i] != eb[i] {
                proof {
                    assert(path.spec_bytes().skip(off as int)[i as int] != ext.spec_bytes()[i as int]);
                }
                return false;
            }
            i = i + 1;
        }
        proof {
            assert(path.spec_bytes().skip(off as int) =~= ext.spec_bytes());
        }
        true
    }
}

} // verus!
