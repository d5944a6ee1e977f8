//! Resolving a loaded module's base address by file name.
//!
//! The unverified front end enumerates the loaded modules of an attached
//! process — at most `MODULE_LIST_CAPACITY` of them, a documented limit whose
//! excess is silently dropped — and collects each module's base address and
//! full file path.  The functions here extract the file-name component of
//! each path and return the base address of the first module whose file name
//! equals the requested one, case-sensitively and byte for byte.  When
//! nothing matches, or when the front end could not enumerate at all, the
//! result is `ModuleNotFound` carrying the requested name verbatim.

use vstd::prelude::*;

use crate::errors::MemHackError;

verus! {

/// At most this many loaded modules are enumerated; any excess is dropped.
pub const MODULE_LIST_CAPACITY: usize = 1024;

/// Module file paths are queried into a buffer of this many bytes.
pub const MODULE_PATH_CAPACITY: usize = 1024;

/// One enumerated module: its base address and its full file path bytes.
pub struct ModuleEntry {
    /// The load address of the module in the target process.
    pub base: usize,
    /// The full file path of the module as the OS reports it.
    pub path: Vec<u8>,
}

/// Path separators of the target platform: backslash and forward slash.
pub open spec fn is_separator(b: u8) -> bool {
    b == 0x5c || b == 0x2f
}

/// The file-name component of a path: the bytes after the last separator,
/// or the whole path when it holds no separator.
pub open spec fn file_name_of(p: Seq<u8>) -> Seq<u8>
    decreases p.len(),
{
    if p.len() == 0 {
        p
    } else if is_separator(p.last()) {
        Seq::empty()
    } else {
        file_name_of(p.drop_last()).push(p.last())
    }
}

/// Whether a module's path names the requested file, byte for byte.
pub open spec fn module_matches(m: ModuleEntry, name: Seq<u8>) -> bool {
    file_name_of(m.path@) == name
}

/// The file name is the suffix that starts after the last separator: if no
/// separator occurs at `cut` or later and `cut` is the start or preceded by a
/// separator, the file name is everything from `cut` on.
proof fn lemma_file_name_is_suffix(p: Seq<u8>, cut: int)
    requires
        0 <= cut <= p.len(),
        forall|j: int| cut <= j < p.len() ==> !is_separator(p[j]),
        cut > 0 ==> is_separator(p[cut - 1]),
    ensures
        file_name_of(p) == p.subrange(cut, p.len() as int),
    decreases p.len(),
{
    if p.len() == 0 {
        assert(file_name_of(p) =~= p.subrange(cut, p.len() as int));
    } else if cut == p.len() {
        assert(is_separator(p.last()));
        assert(file_name_of(p) =~= p.subrange(cut, p.len() as int));
    } else {
        assert(!is_separator(p.last()));
        let front = p.drop_last();
        lemma_file_name_is_suffix(front, cut);
        assert(file_name_of(p) =~= p.subrange(cut, p.len() as int)) by {
            assert(file_name_of(p) == file_name_of(front).push(p.last()));
            assert(file_name_of(front) == front.subrange(cut, front.len() as int));
        }
    }
}

/// Extract the file-name component of a path: the bytes after the last
/// separator, or the whole path when it holds none.
pub fn module_file_name(path: &Vec<u8>) -> (r: Vec<u8>)
    ensures
        r@ == file_name_of(path@),
{
    let n = path.len();
    let mut cut: usize = 0;
    let mut i: usize = 0;
    while i < n
        invariant
            n == path@.len(),
            i <= n,
            cut <= i,
            forall|j: int| cut <= j < i ==> !is_separator(path@[j]),
            cut > 0 ==> is_separator(path@[cut - 1]),
        decreases n - i,
    {
        let b = path[i];
        if b == 0x5c || b == 0x2f {
            cut = i + 1;
        }
        i = i + 1;
    }
    proof {
        lemma_file_name_is_suffix(path@, cut as int);
    }
    let mut r: Vec<u8> = Vec::new();
    let mut j: usize = cut;
    while j < n
        invariant
            n == path@.len(),
            cut <= j <= n,
            r@ == path@.subrange(cut as int, j as int),
        decreases n - j,
    {
        r.push(path[j]);
        proof {
            assert(r@ =~= path@.subrange(cut as int, j + 1 as int));
        }
        j = j + 1;
    }
    proof {
        assert(r@ =~= path@.subrange(cut as int, n as int));
    }
    r
}

/// Whether two byte strings are equal, byte for byte.
pub fn bytes_eq(a: &Vec<u8>, b: &Vec<u8>) -> (r: bool)
    ensures
        r == (a@ == b@),
{
    if a.len() != b.len() {
        return false;
    }
    let n = a.len();
    let mut i: usize = 0;
    while i < n
        invariant
            n == a@.len(),
            n == b@.len(),
            i <= n,
            forall|j: int| 0 <= j < i ==> a@[j] == b@[j],
        decreases n - i,
    {
        if a[i] != b[i] {
            return false;
        }
        i = i + 1;
    }
    proof {
        assert(a@ =~= b@);
    }
    true
}

/// Scan the enumerated modules in order for the first whose file name equals
/// `module`, byte for byte, and return its base address.  When no module of
/// the whole list matches, the result is `ModuleNotFound` carrying the
/// requested name.
pub fn find_module_base(modules: &Vec<ModuleEntry>, module: &Vec<u8>) -> (r: Result<
    usize,
    MemHackError,
>)
    ensures
        match r {
            Ok(base) => exists|i: int|
                {
                    &&& 0 <= i < modules@.len()
                    &&& #[trigger] module_matches(modules@[i], module@)
                    &&& base == modules@[i].base
                    &&& forall|j: int| 0 <= j < i ==> !module_matches(modules@[j], module@)
                },
            Err(e) => {
                &&& forall|i: int|
                    0 <= i < modules@.len() ==> !module_matches(modules@[i], module@)
                &&& e matches MemHackError::ModuleNotFound(carried) && carried@ == module@
            },
        },
{
    let n = modules.len();
    let mut i: usize = 0;
    while i < n
        invariant
            n == modules@.len(),
            i <= n,
            forall|j: int| 0 <= j < i ==> !module_matches(modules@[j], module@),
        decreases n - i,
    {
        let entry = &modules[i];
        let name = module_file_name(&entry.path);
        if bytes_eq(&name, module) {
            assert(module_matches(modules@[i as int], module@));
            return Ok(entry.base);
        }
        i = i + 1;
    }
    Err(MemHackError::ModuleNotFound(module.clone()))
}

} // verus!
