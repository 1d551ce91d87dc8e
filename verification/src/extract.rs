//! Best-effort extraction of the request line from raw connection bytes.
//!
//! The extractor is total: whatever the bytes hold — nothing, a truncated
//! line, invalid UTF-8 — it returns a method token and a path token.  The
//! first line is the bytes up to the first carriage return; the method is
//! the line's first space-separated token and the path its second.  A token
//! that is absent or empty is replaced by the sentinel `"UNKNOWN"`.

use vstd::prelude::*;
use vstd::slice::slice_subrange;
use vstd::string::StringExecFns;
use vstd::utf8::{decode_utf8, valid_utf8};

verus! {

/// Carriage return.
pub const CR: u8 = 13;

/// Space.
pub const SP: u8 = 32;

/// The index of the first occurrence of `x` in `s`, or `s.len()` when `x`
/// does not occur.
pub open spec fn find_byte(s: Seq<u8>, x: u8) -> int
    decreases s.len(),
{
    if s.len() == 0 {
        0
    } else if s[0] == x {
        0
    } else {
        1 + find_byte(s.subrange(1, s.len() as int), x)
    }
}

pub proof fn lemma_find_byte(s: Seq<u8>, x: u8)
    ensures
        0 <= find_byte(s, x) <= s.len(),
        find_byte(s, x) < s.len() ==> s[find_byte(s, x)] == x,
        forall|j: int| 0 <= j < find_byte(s, x) ==> s[j] != x,
    decreases s.len(),
{
    if s.len() != 0 && s[0] != x {
        let t = s.subrange(1, s.len() as int);
        lemma_find_byte(t, x);
        assert forall|j: int| 0 <= j < find_byte(s, x) implies s[j] != x by {
            if j > 0 {
                assert(s[j] == t[j - 1]);
            }
        }
    }
}

/// `find_byte` is the one index whose prefix is free of `x` and which
/// either hits `x` or the end.
pub proof fn lemma_find_byte_is(s: Seq<u8>, x: u8, i: int)
    requires
        0 <= i <= s.len(),
        forall|j: int| 0 <= j < i ==> s[j] != x,
        i < s.len() ==> s[i] == x,
    ensures
        find_byte(s, x) == i,
    decreases s.len(),
{
    if i == 0 {
    } else {
        let t = s.subrange(1, s.len() as int);
        assert(s[0] != x);
        assert forall|j: int| 0 <= j < i - 1 implies t[j] != x by {
            assert(t[j] == s[j + 1]);
        }
        assert(i - 1 < t.len() ==> t[i - 1] == s[i]);
        lemma_find_byte_is(t, x, i - 1);
    }
}

/// The first line of the buffer: everything before the first carriage
/// return, or the whole buffer if there is none.
pub open spec fn first_line(b: Seq<u8>) -> Seq<u8> {
    b.subrange(0, find_byte(b, CR))
}

/// The bytes of the method token: the first line up to its first space.
pub open spec fn method_bytes(b: Seq<u8>) -> Seq<u8> {
    first_line(b).subrange(0, find_byte(first_line(b), SP))
}

/// What follows the first space of the first line, or nothing if the line
/// has no space.
pub open spec fn after_method(b: Seq<u8>) -> Seq<u8> {
    let line = first_line(b);
    let i = find_byte(line, SP);
    if i < line.len() {
        line.subrange(i + 1, line.len() as int)
    } else {
        Seq::<u8>::empty()
    }
}

/// The bytes of the path token: the second space-separated token of the
/// first line.
pub open spec fn path_bytes(b: Seq<u8>) -> Seq<u8> {
    after_method(b).subrange(0, find_byte(after_method(b), SP))
}

/// Permissive textual decoding of the bytes `String::from_utf8_lossy`
/// returns; pinned down only on valid UTF-8.
pub uninterp spec fn lossy_of(b: Seq<u8>) -> Seq<char>;

/// The method token: the decoded method bytes, or the sentinel when they
/// are empty.
pub open spec fn method_token(b: Seq<u8>) -> Seq<char> {
    if method_bytes(b).len() == 0 {
        "UNKNOWN"@
    } else {
        lossy_of(method_bytes(b))
    }
}

/// The path token: the decoded path bytes, or the sentinel when they are
/// empty.
pub open spec fn path_token(b: Seq<u8>) -> Seq<char> {
    if path_bytes(b).len() == 0 {
        "UNKNOWN"@
    } else {
        lossy_of(path_bytes(b))
    }
}

/// Relies on `String::from_utf8_lossy`: a pure function of the bytes that
/// replaces invalid sequences and decodes valid UTF-8 to exactly its
/// characters, so the result of nonempty input is nonempty.
#[verifier::external_body]
fn lossy_utf8(b: &[u8]) -> (r: String)
    ensures
        r@ == lossy_of(b@),
        valid_utf8(b@) ==> r@ == decode_utf8(b@),
        b@.len() > 0 ==> r@.len() > 0,
{
    String::from_utf8_lossy(b).into_owned()
}

/// The sentinel token for a missing method or path.
fn unknown_token() -> (s: String)
    ensures
        s@ == "UNKNOWN"@,
{
    String::from_str("UNKNOWN")
}

/// Finds the first occurrence of `x` in `s`, or `s.len()` when absent.
fn find_byte_in(s: &[u8], x: u8) -> (i: usize)
    ensures
        i == find_byte(s@, x),
{
    let n = s.len();
    let mut i: usize = 0;
    while i < n
        invariant
            n == s@.len(),
            i <= n,
            forall|j: int| 0 <= j < i ==> s@[j] != x,
        decreases n - i,
    {
        if *vstd::slice::slice_index_get(s, i) == x {
            proof {
                lemma_find_byte_is(s@, x, i as int);
            }
            return i;
        }
        i += 1;
    }
    proof {
        lemma_find_byte_is(s@, x, i as int);
    }
    i
}

/// Extracts the request line's method and path tokens from raw connection
/// bytes.  Total: every input, including empty, truncated, and non-UTF-8
/// buffers, yields two nonempty tokens, each the decoded token bytes or
/// the sentinel `"UNKNOWN"`.
pub fn extract_request_line(b: &[u8]) -> (r: (String, String))
    ensures
        r.0@ == method_token(b@),
        r.1@ == path_token(b@),
        r.0@.len() > 0,
        r.1@.len() > 0,
{
    proof {
        lemma_find_byte(b@, CR);
        reveal_strlit("UNKNOWN");
    }
    let line_end = find_byte_in(b, CR);
    let line = slice_subrange(b, 0, line_end);
    proof {
        lemma_find_byte(line@, SP);
    }
    let sp1 = find_byte_in(line, SP);
    let method = if sp1 == 0 {
        unknown_token()
    } else {
        lossy_utf8(slice_subrange(line, 0, sp1))
    };
    let rest = if sp1 < line.len() {
        slice_subrange(line, sp1 + 1, line.len())
    } else {
        slice_subrange(line, line.len(), line.len())
    };
    proof {
        assert(rest@ =~= after_method(b@));
        lemma_find_byte(rest@, SP);
    }
    let sp2 = find_byte_in(rest, SP);
    let path = if sp2 == 0 {
        unknown_token()
    } else {
        lossy_utf8(slice_subrange(rest, 0, sp2))
    };
    proof {
        assert(method_bytes(b@).len() == 0 ==> sp1 == 0);
        assert(path_bytes(b@).len() == 0 ==> sp2 == 0);
    }
    (method, path)
}

} // verus!
