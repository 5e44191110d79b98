//! The fixed directory skeleton of a generated project.
use vstd::prelude::*;

use crate::error::ScaffoldError;
use crate::name::AppNameSet;
use crate::text::ascii_bytes;
use crate::text::concat2;
use crate::text::copy_bytes;
use crate::text::str_to_bytes;

verus! {

/// The project root: `./` followed by the normalized name.
pub open spec fn base_dir_spec(normalized: Seq<u8>) -> Seq<u8> {
    ascii_bytes("./"@) + normalized
}

/// A direct subdirectory of the project root; `sub` includes the leading `/`.
pub open spec fn sub_dir_spec(normalized: Seq<u8>, sub: Seq<char>) -> Seq<u8> {
    base_dir_spec(normalized) + ascii_bytes(sub)
}

/// The six directories of a generated project, all rooted under the
/// normalized project name. Created once; never mutated afterwards.
pub struct ProjectLayout {
    pub base: Vec<u8>,
    pub bin: Vec<u8>,
    pub lib: Vec<u8>,
    pub test: Vec<u8>,
    pub src: Vec<u8>,
    pub events: Vec<u8>,
}

impl ProjectLayout {
    /// The six paths are exactly those derived from `normalized`.
    pub open spec fn wf(&self, normalized: Seq<u8>) -> bool {
        &&& self.base@ == base_dir_spec(normalized)
        &&& self.bin@ == sub_dir_spec(normalized, "/bin"@)
        &&& self.lib@ == sub_dir_spec(normalized, "/lib"@)
        &&& self.test@ == sub_dir_spec(normalized, "/test"@)
        &&& self.src@ == sub_dir_spec(normalized, "/src"@)
        &&& self.events@ == sub_dir_spec(normalized, "/events"@)
    }

    /// Derive the layout from a validated name.
    pub fn new(names: &AppNameSet) -> (r: ProjectLayout)
        ensures
            r.wf(names.normalized@),
    {
        proof {
            reveal_strlit("./");
            reveal_strlit("/bin");
            reveal_strlit("/lib");
            reveal_strlit("/test");
            reveal_strlit("/src");
            reveal_strlit("/events");
            assert(vstd::string::is_ascii("./"));
            assert(vstd::string::is_ascii("/bin"));
            assert(vstd::string::is_ascii("/lib"));
            assert(vstd::string::is_ascii("/test"));
            assert(vstd::string::is_ascii("/src"));
            assert(vstd::string::is_ascii("/events"));
        }
        let base = concat2(&str_to_bytes("./"), &names.normalized);
        let bin = concat2(&base, &str_to_bytes("/bin"));
        let lib = concat2(&base, &str_to_bytes("/lib"));
        let test = concat2(&base, &str_to_bytes("/test"));
        let src = concat2(&base, &str_to_bytes("/src"));
        let events = concat2(&base, &str_to_bytes("/events"));
        ProjectLayout { base, bin, lib, test, src, events }
    }

    /// The directories in creation order: the root first, then its children,
    /// so creating them in order never needs a missing parent.
    pub fn directories(&self) -> (r: Vec<Vec<u8>>)
        ensures
            r@.len() == 6,
            r@[0]@ == self.base@,
            r@[1]@ == self.bin@,
            r@[2]@ == self.lib@,
            r@[3]@ == self.test@,
            r@[4]@ == self.src@,
            r@[5]@ == self.events@,
    {
        let mut r: Vec<Vec<u8>> = Vec::new();
        r.push(copy_bytes(&self.base));
        r.push(copy_bytes(&self.bin));
        r.push(copy_bytes(&self.lib));
        r.push(copy_bytes(&self.test));
        r.push(copy_bytes(&self.src));
        r.push(copy_bytes(&self.events));
        r
    }
}

/// Reject a destination that already exists in the working directory.
/// `exists` is the result of the caller's filesystem check for the base
/// directory; the check and the later creation are not atomic.
pub fn check_destination(exists: bool) -> (r: Result<(), ScaffoldError>)
    ensures
        r is Ok <==> !exists,
        r matches Err(e) ==> e == ScaffoldError::AlreadyExists,
{
    if exists {
        Err(ScaffoldError::AlreadyExists)
    } else {
        Ok(())
    }
}

} // verus!
