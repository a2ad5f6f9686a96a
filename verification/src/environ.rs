//! Child environment assembly.
//!
//! When a caller overrides environment variables, the child receives
//! the parent's inherited variables with the overrides applied.  The
//! inherited set is read once from the process's own environment
//! image and merged here; the merged entries go to exec as
//! `key=value` byte strings.

use vstd::prelude::*;
use vstd::string::StringSliceAdditionalSpecFns;

use crate::os;
use crate::pipes::Endpoint;
use crate::pipes::read_to_end;

verus! {

/// No byte of the string is NUL, so it can become a C string.
pub open spec fn no_nul(b: Seq<u8>) -> bool {
    forall|i: int| 0 <= i < b.len() ==> #[trigger] b[i] != 0
}

/// The `key=value` rendering of one environment pair.
pub open spec fn env_entry_spec(k: Seq<u8>, v: Seq<u8>) -> Seq<u8> {
    k + seq![61u8] + v
}

/// How far the key part of an entry reaches: up to the first `=`, or
/// the whole entry when it has none.
pub open spec fn key_end(s: Seq<u8>) -> int
    decreases s.len(),
{
    if s.len() == 0 {
        0
    } else if s[0] == 61 {
        0
    } else {
        1 + key_end(s.skip(1))
    }
}

/// The key part of an entry.
pub open spec fn key_of(s: Seq<u8>) -> Seq<u8> {
    s.take(key_end(s))
}

/// A usable variable name: at least one byte, no `=` and no NUL.
pub open spec fn clean_key(k: Seq<u8>) -> bool {
    forall|i: int| 0 <= i < k.len() ==> #[trigger] k[i] != 61 && k[i] != 0
}

/// The key bytes of an override pair.
pub open spec fn override_key(p: (String, String)) -> Seq<u8> {
    vstd::utf8::encode_utf8(p.0@)
}

/// The full `key=value` bytes of an override pair.
pub open spec fn override_entry(p: (String, String)) -> Seq<u8> {
    env_entry_spec(vstd::utf8::encode_utf8(p.0@), vstd::utf8::encode_utf8(p.1@))
}

/// A scan that stops at position `r` on an `=` (or at the end) and
/// saw none before pins down `key_end`.
proof fn lemma_key_end_from_scan(s: Seq<u8>, r: int)
    requires
        0 <= r <= s.len(),
        r < s.len() ==> s[r] == 61,
        forall|j: int| 0 <= j < r ==> s[j] != 61,
    ensures
        key_end(s) == r,
    decreases r,
{
    if r == 0 {
    } else {
        assert(s[0] != 61);
        lemma_key_end_from_scan(s.skip(1), r - 1);
    }
}

/// Every override pair names a usable variable.
pub open spec fn all_clean(ps: Seq<(String, String)>) -> bool {
    forall|t: int| 0 <= t < ps.len() ==> clean_key(override_key(#[trigger] ps[t]))
}

/// No later override names the same variable as the one at `i`.
pub open spec fn last_for_key(ps: Seq<(String, String)>, i: int) -> bool {
    forall|j: int| i < j < ps.len() ==> override_key(#[trigger] ps[j]) != override_key(ps[i])
}

/// The entry list holds the given `key=value` bytes somewhere.
pub open spec fn holds_entry(es: Seq<Vec<u8>>, e: Seq<u8>) -> bool {
    exists|k: int| 0 <= k < es.len() && (#[trigger] es[k])@ == e
}

/// Appending an entry keeps every entry already held.
proof fn lemma_holds_entry_push(es: Seq<Vec<u8>>, x: Vec<u8>, e: Seq<u8>)
    requires
        holds_entry(es, e),
    ensures
        holds_entry(es.push(x), e),
{
    let k = choose|k: int| 0 <= k < es.len() && (#[trigger] es[k])@ == e;
    assert(es.push(x)[k]@ == e);
}

/// An entry rendered from a clean key has exactly that key.
proof fn lemma_key_of_entry(k: Seq<u8>, v: Seq<u8>)
    requires
        clean_key(k),
    ensures
        key_of(env_entry_spec(k, v)) == k,
{
    let e = env_entry_spec(k, v);
    assert(e[k.len() as int] == 61);
    lemma_key_end_from_scan(e, k.len() as int);
    assert(e.take(k.len() as int) =~= k);
}

/// Copy the bytes of a string.
pub(crate) fn bytes_of_str(s: &str) -> (r: Vec<u8>)
    ensures
        r@ == s.spec_bytes(),
{
    vstd::slice::slice_to_vec(s.as_bytes())
}

/// Whether two byte strings are equal.
pub(crate) fn bytes_eq(a: &[u8], b: &[u8]) -> (r: bool)
    ensures
        r == (a@ == b@),
{
    if a.len() != b.len() {
        assert(a@ != b@);
        return false;
    }
    let n: usize = a.len();
    let mut i: usize = 0;
    while i < n
        invariant
            0 <= i <= n,
            n == a@.len() == b@.len(),
            forall|j: int| 0 <= j < i ==> a@[j] == b@[j],
        decreases n - i,
    {
        if a[i] != b[i] {
            return false;
        }
        i = i + 1;
    }
    proof {
        assert(a@ =~= b@);
    }
    true
}

/// Render one `key=value` entry.
pub(crate) fn format_env_entry(k: &str, v: &str) -> (r: Vec<u8>)
    ensures
        r@ == env_entry_spec(k.spec_bytes(), v.spec_bytes()),
{
    let mut out: Vec<u8> = bytes_of_str(k);
    out.push(61);
    let mut vb: Vec<u8> = bytes_of_str(v);
    out.append(&mut vb);
    proof {
        assert(out@ =~= env_entry_spec(k.spec_bytes(), v.spec_bytes()));
    }
    out
}

/// The key part of an entry: everything before the first `=`, or the
/// whole entry if it has none.
pub(crate) fn entry_key_len(e: &Vec<u8>) -> (r: usize)
    ensures
        r <= e@.len(),
        r as int == key_end(e@),
{
    let ghost s: Seq<u8> = e@;
    let n: usize = e.len();
    let mut i: usize = 0;
    while i < n
        invariant
            0 <= i <= n,
            n == e@.len(),
            s == e@,
            forall|j: int| 0 <= j < i ==> e@[j] != 61,
        decreases n - i,
    {
        if e[i] == 61 {
            proof {
                lemma_key_end_from_scan(s, i as int);
            }
            return i;
        }
        i = i + 1;
    }
    proof {
        lemma_key_end_from_scan(s, n as int);
    }
    n
}

/// Split a NUL-separated environment image into its entries, dropping
/// empty ones.  Every returned entry is free of NUL bytes.
pub(crate) fn split_environ(raw: &Vec<u8>) -> (r: Vec<Vec<u8>>)
    ensures
        forall|i: int| 0 <= i < r@.len() ==> no_nul(#[trigger] r@[i]@) && r@[i]@.len() > 0,
{
    let mut out: Vec<Vec<u8>> = Vec::new();
    let mut cur: Vec<u8> = Vec::new();
    let n: usize = raw.len();
    let mut i: usize = 0;
    while i < n
        invariant
            0 <= i <= n,
            n == raw@.len(),
            no_nul(cur@),
            forall|k: int| 0 <= k < out@.len() ==> no_nul(#[trigger] out@[k]@) && out@[k]@.len()
                > 0,
        decreases n - i,
    {
        let b: u8 = raw[i];
        if b == 0 {
            if cur.len() > 0 {
                out.push(cur);
                cur = Vec::new();
            }
        } else {
            cur.push(b);
        }
        i = i + 1;
    }
    if cur.len() > 0 {
        out.push(cur);
    }
    out
}

/// Read the parent's environment image.  An empty set is returned
/// where the image cannot be read.
pub(crate) fn parent_env_entries() -> (r: Vec<Vec<u8>>)
    ensures
        forall|i: int| 0 <= i < r@.len() ==> no_nul(#[trigger] r@[i]@) && r@[i]@.len() > 0,
{
    match os::sys_open_read("/proc/self/environ") {
        Ok(fd) => {
            let e = Endpoint { fd, inheritable: Ghost(true), channel: Ghost(fd as int) };
            match read_to_end(e) {
                Ok(raw) => split_environ(&raw),
                Err(_) => Vec::new(),
            }
        },
        Err(_) => Vec::new(),
    }
}

/// Whether `entries` already holds an entry whose key equals `key`.
fn key_present(entries: &Vec<Vec<u8>>, key: &[u8]) -> (r: bool)
    ensures
        r == exists|k: int|
            0 <= k < entries@.len() && key_of(#[trigger] entries@[k]@) == key@,
{
    let n: usize = entries.len();
    let mut i: usize = 0;
    while i < n
        invariant
            0 <= i <= n,
            n == entries@.len(),
            forall|k: int| 0 <= k < i ==> key_of(#[trigger] entries@[k]@) != key@,
        decreases n - i,
    {
        let kl: usize = entry_key_len(&entries[i]);
        let ek: &[u8] = vstd::slice::slice_subrange(entries[i].as_slice(), 0, kl);
        if bytes_eq(ek, key) {
            return true;
        }
        i = i + 1;
    }
    false
}

/// Merge override pairs into the parent's environment: for each key
/// the latest override wins; inherited entries keep their value only
/// where no override names their key.
///
/// As long as every override names a usable variable, the result
/// holds, for each overridden key, the `key=value` entry of the
/// latest override with that key.
pub(crate) fn merged_env(overrides: &Vec<(String, String)>) -> (r: Vec<Vec<u8>>)
    ensures
        all_clean(overrides@) ==> forall|t: int|
            0 <= t < overrides@.len() && #[trigger] last_for_key(overrides@, t) ==> holds_entry(
                r@,
                override_entry(overrides@[t]),
            ),
{
    let n: usize = overrides.len();
    let mut out: Vec<Vec<u8>> = Vec::new();
    // Later overrides win, so walk them from the last to the first.
    let mut i: usize = n;
    while i > 0
        invariant
            i <= n,
            n == overrides@.len(),
            forall|k: int|
                0 <= k < out@.len() ==> exists|j: int|
                    i <= j < n && (#[trigger] out@[k])@ == override_entry(overrides@[j]),
            all_clean(overrides@) ==> forall|t: int|
                i <= t < n && #[trigger] last_for_key(overrides@, t) ==> holds_entry(
                    out@,
                    override_entry(overrides@[t]),
                ),
        decreases i,
    {
        let idx: usize = i - 1;
        let k: &String = &overrides[idx].0;
        let key: Vec<u8> = bytes_of_str(k.as_str());
        proof {
            assert(key@ == override_key(overrides@[idx as int]));
        }
        if !key_present(&out, key.as_slice()) {
            let ghost before: Seq<Vec<u8>> = out@;
            let entry: Vec<u8> = format_env_entry(k.as_str(), overrides[idx].1.as_str());
            proof {
                assert(entry@ == override_entry(overrides@[idx as int]));
            }
            out.push(entry);
            proof {
                assert(out@[out@.len() - 1]@ == override_entry(overrides@[idx as int]));
                if all_clean(overrides@) {
                    assert forall|t: int|
                        idx <= t < n && #[trigger] last_for_key(overrides@, t) implies holds_entry(
                        out@,
                        override_entry(overrides@[t]),
                    ) by {
                        if t == idx {
                            assert(holds_entry(out@, override_entry(overrides@[idx as int])));
                        } else {
                            lemma_holds_entry_push(before, entry, override_entry(overrides@[t]));
                        }
                    }
                }
            }
        } else {
            proof {
                if all_clean(overrides@) {
                    let kk = choose|kk: int|
                        0 <= kk < out@.len() && key_of(#[trigger] out@[kk]@) == key@;
                    let jj = choose|jj: int|
                        i <= jj < n && (#[trigger] out@[kk])@ == override_entry(
                            overrides@[jj],
                        );
                    lemma_key_of_entry(
                        override_key(overrides@[jj]),
                        vstd::utf8::encode_utf8(overrides@[jj].1@),
                    );
                    assert(override_key(overrides@[jj]) == override_key(overrides@[idx as int]));
                    assert(!last_for_key(overrides@, idx as int));
                }
            }
        }
        i = idx;
    }
    let base: Vec<Vec<u8>> = parent_env_entries();
    let nb: usize = base.len();
    let mut j: usize = 0;
    while j < nb
        invariant
            0 <= j <= nb,
            nb == base@.len(),
            n == overrides@.len(),
            forall|t: int| 0 <= t < base@.len() ==> no_nul(#[trigger] base@[t]@),
            all_clean(overrides@) ==> forall|t: int|
                0 <= t < n && #[trigger] last_for_key(overrides@, t) ==> holds_entry(
                    out@,
                    override_entry(overrides@[t]),
                ),
        decreases nb - j,
    {
        let kl: usize = entry_key_len(&base[j]);
        let bk: &[u8] = vstd::slice::slice_subrange(base[j].as_slice(), 0, kl);
        if !key_present(&out, bk) {
            let ghost before: Seq<Vec<u8>> = out@;
            let copy: Vec<u8> = vstd::slice::slice_to_vec(base[j].as_slice());
            out.push(copy);
            proof {
                if all_clean(overrides@) {
                    assert forall|t: int|
                        0 <= t < n && #[trigger] last_for_key(overrides@, t) implies holds_entry(
                        out@,
                        override_entry(overrides@[t]),
                    ) by {
                        lemma_holds_entry_push(before, copy, override_entry(overrides@[t]));
                    }
                }
            }
        }
        j = j + 1;
    }
    out
}

} // verus!
