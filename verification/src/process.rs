//! Matching snapshot entries against a requested process name.
//!
//! The unverified front end walks the OS process snapshot and collects each
//! entry's id and raw executable-name bytes; the functions here decide which
//! entry, if any, the caller asked for.  A name matches by case-sensitive,
//! byte-exact comparison of the entry's NUL-trimmed name bytes, and the first
//! match in enumeration order wins.  Entry bytes that cannot equal the
//! requested name — including non-text garbage — simply fail to match and are
//! skipped; only exhausting the whole snapshot without a match is a failure,
//! which the front end reports as `CreateHookError`.

use vstd::prelude::*;

verus! {

/// One row of a process snapshot: the process id and the raw bytes of the
/// executable file name field, padding included.
pub struct ProcessEntry {
    /// The OS process id of this entry.
    pub pid: u32,
    /// The raw executable-name field: the name bytes, NUL-terminated and
    /// possibly followed by padding.
    pub exe_file: Vec<u8>,
}

/// The name bytes up to, and not including, the first NUL; the whole
/// sequence when no NUL occurs.
pub open spec fn trim_nul(s: Seq<u8>) -> Seq<u8>
    decreases s.len(),
{
    if s.len() == 0 {
        s
    } else if s[0] == 0 {
        Seq::empty()
    } else {
        seq![s[0]] + trim_nul(s.subrange(1, s.len() as int))
    }
}

/// Whether a snapshot entry's NUL-trimmed name equals the requested name,
/// byte for byte.
pub open spec fn entry_matches(e: ProcessEntry, name: Seq<u8>) -> bool {
    trim_nul(e.exe_file@) == name
}

/// `trim_nul` is the prefix that ends at the first NUL: if nothing before
/// position `k` is NUL and `k` is the end or a NUL, the trim is the first
/// `k` bytes.
proof fn lemma_trim_nul_is_prefix(s: Seq<u8>, k: int)
    requires
        0 <= k <= s.len(),
        forall|j: int| 0 <= j < k ==> s[j] != 0,
        k < s.len() ==> s[k] == 0,
    ensures
        trim_nul(s) == s.take(k),
    decreases s.len(),
{
    if s.len() == 0 {
        assert(trim_nul(s) =~= s.take(k));
    } else if k == 0 {
        assert(s[0] == 0);
        assert(trim_nul(s) =~= s.take(k));
    } else {
        let rest = s.subrange(1, s.len() as int);
        lemma_trim_nul_is_prefix(rest, k - 1);
        assert(trim_nul(s) =~= s.take(k)) by {
            assert(trim_nul(s) == seq![s[0]] + trim_nul(rest));
            assert(trim_nul(rest) == rest.take(k - 1));
        }
    }
}

/// Decide whether the raw executable-name bytes of a snapshot entry match a
/// requested name: NUL-trimmed, case-sensitive, byte-exact.
pub fn entry_name_matches(exe_file: &Vec<u8>, name: &Vec<u8>) -> (b: bool)
    ensures
        b == (trim_nul(exe_file@) == name@),
{
    let n = exe_file.len();
    let mut k: usize = 0;
    while k < n && exe_file[k] != 0
        invariant
            n == exe_file@.len(),
            k <= n,
            forall|j: int| 0 <= j < k ==> exe_file@[j] != 0,
        decreases n - k,
    {
        k = k + 1;
    }
    proof {
        lemma_trim_nul_is_prefix(exe_file@, k as int);
    }
    if k != name.len() {
        assert(trim_nul(exe_file@).len() == k);
        return false;
    }
    let mut i: usize = 0;
    while i < k
        invariant
            n == exe_file@.len(),
            k <= n,
            k == name@.len(),
            trim_nul(exe_file@) == exe_file@.take(k as int),
            i <= k,
            forall|j: int| 0 <= j < i ==> exe_file@[j] == name@[j],
        decreases k - i,
    {
        if exe_file[i] != name[i] {
            assert(trim_nul(exe_file@)[i as int] != name@[i as int]);
            return false;
        }
        i = i + 1;
    }
    proof {
        assert(trim_nul(exe_file@) =~= name@);
    }
    true
}

/// Scan a snapshot once, in enumeration order, for the first entry whose
/// NUL-trimmed executable name equals `name` byte for byte.  `None` exactly
/// when no entry of the whole snapshot matches.
pub fn find_process_id(entries: &Vec<ProcessEntry>, name: &Vec<u8>) -> (r: Option<u32>)
    ensures
        match r {
            Some(pid) => exists|i: int|
                {
                    &&& 0 <= i < entries@.len()
                    &&& #[trigger] entry_matches(entries@[i], name@)
                    &&& pid == entries@[i].pid
                    &&& forall|j: int| 0 <= j < i ==> !entry_matches(entries@[j], name@)
                },
            None => forall|i: int|
                0 <= i < entries@.len() ==> !entry_matches(entries@[i], name@),
        },
{
    let n = entries.len();
    let mut i: usize = 0;
    while i < n
        invariant
            n == entries@.len(),
            i <= n,
            forall|j: int| 0 <= j < i ==> !entry_matches(entries@[j], name@),
        decreases n - i,
    {
        let entry = &entries[i];
        if entry_name_matches(&entry.exe_file, name) {
            assert(entry_matches(entries@[i as int], name@));
            return Some(entry.pid);
        }
        i = i + 1;
    }
    None
}

} // verus!
