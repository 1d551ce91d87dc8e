//! Wire-exact synthesis of the fixed HTTP/1.1 response.
//!
//! The response is a fixed status line and `Content-Type` header, a
//! `Content-Length` header spelling the exact byte length of the body, a
//! blank line, and then the body itself.

use vstd::prelude::*;
use vstd::slice::slice_index_get;
use vstd::string::StrSliceExecFns;
use vstd::string::StringExecFns;
use vstd::utf8::{encode_utf8, is_ascii_chars, is_ascii_chars_concat, is_ascii_chars_encode_utf8};

verus! {

/// The decimal digit character for a value below ten.
pub open spec fn digit_char(d: nat) -> char {
    if d == 0 {
        '0'
    } else if d == 1 {
        '1'
    } else if d == 2 {
        '2'
    } else if d == 3 {
        '3'
    } else if d == 4 {
        '4'
    } else if d == 5 {
        '5'
    } else if d == 6 {
        '6'
    } else if d == 7 {
        '7'
    } else if d == 8 {
        '8'
    } else {
        '9'
    }
}

/// The decimal digits of `n`, most significant first, without leading
/// zeros (zero itself is the single digit `'0'`).
pub open spec fn dec_chars(n: nat) -> Seq<char>
    decreases n,
{
    if n < 10 {
        seq![digit_char(n)]
    } else {
        dec_chars(n / 10) + seq![digit_char(n % 10)]
    }
}

/// The numeric value of a decimal digit character.
pub open spec fn char_digit(c: char) -> nat {
    if c == '0' {
        0
    } else if c == '1' {
        1
    } else if c == '2' {
        2
    } else if c == '3' {
        3
    } else if c == '4' {
        4
    } else if c == '5' {
        5
    } else if c == '6' {
        6
    } else if c == '7' {
        7
    } else if c == '8' {
        8
    } else {
        9
    }
}

/// The numeric value spelled by a sequence of decimal digit characters.
pub open spec fn dec_val(s: Seq<char>) -> nat
    decreases s.len(),
{
    if s.len() == 0 {
        0
    } else {
        dec_val(s.drop_last()) * 10 + char_digit(s.last())
    }
}

/// The head of the response for a body of `n` bytes: status line, content
/// type, content length, and the blank line that ends the header block.
pub open spec fn response_head(n: nat) -> Seq<char> {
    "HTTP/1.1 200 OK\r\nContent-Type: text/plain\r\nContent-Length: "@ + dec_chars(n)
        + "\r\n\r\n"@
}

/// The complete wire response for the given body: the UTF-8 bytes of the
/// head (which is plain ASCII), then the body bytes unchanged.
pub open spec fn response_bytes(body: Seq<u8>) -> Seq<u8> {
    encode_utf8(response_head(body.len())) + body
}

/// The digits written for `n` spell exactly the value `n`.
pub proof fn lemma_dec_chars_val(n: nat)
    ensures
        dec_val(dec_chars(n)) == n,
    decreases n,
{
    if n < 10 {
        let s = dec_chars(n);
        assert(s =~= seq![digit_char(n)]);
        assert(s.drop_last() =~= Seq::<char>::empty());
        assert(dec_val(s) == dec_val(s.drop_last()) * 10 + char_digit(s.last()));
        assert(dec_val(s.drop_last()) == 0);
        assert(char_digit(digit_char(n)) == n);
    } else {
        lemma_dec_chars_val(n / 10);
        let s = dec_chars(n);
        assert(s =~= dec_chars(n / 10) + seq![digit_char(n % 10)]);
        assert(s.drop_last() =~= dec_chars(n / 10));
        assert(s.last() == digit_char(n % 10));
        assert(dec_val(s) == dec_val(s.drop_last()) * 10 + char_digit(s.last()));
        assert(char_digit(digit_char(n % 10)) == n % 10);
        assert(n / 10 * 10 + n % 10 == n);
    }
}

/// Every digit written is an ASCII character.
pub proof fn lemma_dec_chars_ascii(n: nat)
    ensures
        is_ascii_chars(dec_chars(n)),
    decreases n,
{
    if n < 10 {
        assert forall|i: int| 0 <= i < dec_chars(n).len() implies '\0' <= #[trigger] dec_chars(
            n,
        )[i] <= '\u{7f}' by {
            assert(dec_chars(n)[i] == digit_char(n));
        }
    } else {
        lemma_dec_chars_ascii(n / 10);
        let s = dec_chars(n);
        assert forall|i: int| 0 <= i < s.len() implies '\0' <= #[trigger] s[i] <= '\u{7f}' by {
            if i < dec_chars(n / 10).len() {
                assert(s[i] == dec_chars(n / 10)[i]);
            } else {
                assert(s[i] == digit_char(n % 10));
            }
        }
    }
}

/// The response head is plain ASCII.
pub proof fn lemma_response_head_ascii(n: nat)
    ensures
        is_ascii_chars(response_head(n)),
{
    reveal_strlit("HTTP/1.1 200 OK\r\nContent-Type: text/plain\r\nContent-Length: ");
    reveal_strlit("\r\n\r\n");
    let a = "HTTP/1.1 200 OK\r\nContent-Type: text/plain\r\nContent-Length: "@;
    let b = dec_chars(n);
    let c = "\r\n\r\n"@;
    lemma_dec_chars_ascii(n);
    is_ascii_chars_concat(a + b, a, b);
    is_ascii_chars_concat(a + b + c, a + b, c);
}

/// The `Content-Length` header of every response spells the exact byte
/// length of the body, and the body follows the header block unchanged:
/// the response is the head — ASCII, one byte per character — and then
/// exactly the body bytes.
pub proof fn lemma_content_length_exact(body: Seq<u8>)
    ensures
        response_bytes(body) == encode_utf8(response_head(body.len())) + body,
        dec_val(dec_chars(body.len())) == body.len(),
        response_bytes(body).len() == response_head(body.len()).len() + body.len(),
        forall|i: int|
            0 <= i < response_head(body.len()).len() ==> response_bytes(body)[i] == (
            #[trigger] response_head(body.len())[i]) as u8,
        response_bytes(body).subrange(
            response_head(body.len()).len() as int,
            response_bytes(body).len() as int,
        ) =~= body,
{
    lemma_dec_chars_val(body.len());
    lemma_response_head_ascii(body.len());
    is_ascii_chars_encode_utf8(response_head(body.len()));
}

/// One-character string slice for a decimal digit.
fn digit_str(d: usize) -> (s: &'static str)
    requires
        d < 10,
    ensures
        s@ == seq![digit_char(d as nat)],
{
    proof {
        reveal_strlit("0");
        reveal_strlit("1");
        reveal_strlit("2");
        reveal_strlit("3");
        reveal_strlit("4");
        reveal_strlit("5");
        reveal_strlit("6");
        reveal_strlit("7");
        reveal_strlit("8");
        reveal_strlit("9");
    }
    let s = match d {
        0 => "0",
        1 => "1",
        2 => "2",
        3 => "3",
        4 => "4",
        5 => "5",
        6 => "6",
        7 => "7",
        8 => "8",
        _ => "9",
    };
    proof {
        assert(s@ =~= seq![digit_char(d as nat)]);
    }
    s
}

/// Writes `n` in decimal.
fn usize_dec(n: usize) -> (s: String)
    ensures
        s@ == dec_chars(n as nat),
    decreases n,
{
    if n < 10 {
        let s = String::from_str(digit_str(n));
        proof {
            assert(s@ =~= dec_chars(n as nat));
        }
        s
    } else {
        let mut s = usize_dec(n / 10);
        s.append(digit_str(n % 10));
        proof {
            assert(s@ =~= dec_chars(n as nat));
        }
        s
    }
}

/// Builds the response head for a body of `n` bytes.
fn build_head(n: usize) -> (s: String)
    ensures
        s@ == response_head(n as nat),
{
    let mut s = String::from_str(
        "HTTP/1.1 200 OK\r\nContent-Type: text/plain\r\nContent-Length: ",
    );
    let digits = usize_dec(n);
    s.append(digits.as_str());
    s.append("\r\n\r\n");
    proof {
        assert(s@ =~= response_head(n as nat));
    }
    s
}

/// Synthesizes the complete wire response carrying `body`.  The
/// `Content-Length` header always matches the body's exact byte length,
/// whatever the body is.
pub fn build_response(body: &[u8]) -> (r: Vec<u8>)
    ensures
        r@ == response_bytes(body@),
{
    let head = build_head(body.len());
    let mut r = head.as_str().as_bytes_vec();
    let mut i: usize = 0;
    while i < body.len()
        invariant
            i <= body@.len(),
            r@ == encode_utf8(response_head(body@.len())) + body@.subrange(0, i as int),
        decreases body@.len() - i,
    {
        r.push(*slice_index_get(body, i));
        proof {
            assert(body@.subrange(0, i + 1) =~= body@.subrange(0, i as int) + seq![body@[i as int]]);
        }
        i += 1;
    }
    proof {
        assert(body@.subrange(0, body@.len() as int) =~= body@);
    }
    r
}

} // verus!
