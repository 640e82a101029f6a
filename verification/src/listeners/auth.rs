//! Bearer tokens: who may use the HTTP listeners.

use crate::text::opt_str;
use vstd::prelude::*;
use vstd::utf8::*;

verus! {

/// A header of a request.
#[derive(Debug)]
pub enum Header {
    /// The request does not have it.
    Absent,
    /// Its value holds something other than visible ASCII characters.
    Opaque,
    /// Its value is this text.
    Text(String),
}

/// Constant-time comparison to prevent timing side-channel attacks on token
/// validation. Returns `true` when both slices are equal.
pub fn constant_time_eq(a: &[u8], b: &[u8]) -> (r: bool)
    ensures
        r == (a@ == b@),
{
    if a.len() != b.len() {
        return false;
    }
    let mut acc: u8 = 0;
    let mut i: usize = 0;
    assert(a@.take(0) =~= b@.take(0));
    while i < a.len()
        invariant
            i <= a.len(),
            a.len() == b.len(),
            acc == 0 <==> a@.take(i as int) == b@.take(i as int),
        decreases a.len() - i,
    {
        let x: u8 = a[i];
        let y: u8 = b[i];
        assert(acc | (x ^ y) == 0 <==> acc == 0 && x == y) by (bit_vector);
        proof {
            let s = a@.take(i + 1);
            let t = b@.take(i + 1);
            assert(s.drop_last() =~= a@.take(i as int));
            assert(t.drop_last() =~= b@.take(i as int));
            if s == t {
                assert(s.last() == t.last());
            }
            if a@.take(i as int) == b@.take(i as int) && x == y {
                assert(s =~= t);
            }
        }
        acc = acc | (x ^ y);
        i += 1;
    }
    assert(a@.take(i as int) =~= a@);
    assert(b@.take(i as int) =~= b@);
    acc == 0
}

/// Why a request is not let in; `None` where it is. Without a token every request
/// is; with one, the header must be there and hold exactly that token.
pub open spec fn refusal(header: Header, token: Option<Seq<char>>) -> Option<Seq<char>> {
    match token {
        None => None,
        Some(t) => match header {
            Header::Absent => Some("authorization header required"@),
            Header::Opaque => Some("invalid authorization token"@),
            Header::Text(h) => if h@ == "Bearer "@ + t {
                None
            } else {
                Some("invalid authorization token"@)
            },
        },
    }
}

/// Why a request with this `Authorization` header is not let in; `None` where it is.
pub fn check_bearer(header: &Header, token: Option<&str>) -> (r: Option<&'static str>)
    ensures
        opt_str(r) == refusal(*header, opt_str(token)),
{
    match token {
        None => None,
        Some(t) => {
            let mut expected = "Bearer ".to_owned();
            expected.push_str(t);
            proof {
                reveal_strlit("Bearer ");
            }
            match header {
                Header::Absent => Some("authorization header required"),
                Header::Opaque => Some("invalid authorization token"),
                Header::Text(h) => {
                    proof {
                        encode_utf8_decode_utf8(h@);
                        encode_utf8_decode_utf8(expected@);
                    }
                    if constant_time_eq(h.as_str().as_bytes(), expected.as_str().as_bytes()) {
                        None
                    } else {
                        Some("invalid authorization token")
                    }
                },
            }
        },
    }
}

/// Two tokens never open the same door: a header that is let in with one token is
/// not let in with another.
pub proof fn law_token_is_exact(header: Header, t: Seq<char>, u: Seq<char>)
    requires
        refusal(header, Some(t)) is None,
        refusal(header, Some(u)) is None,
    ensures
        t == u,
{
    let p = "Bearer "@;
    assert((p + t).skip(p.len() as int) =~= t);
    assert((p + u).skip(p.len() as int) =~= u);
}

/// The configured token opens, behind the word `Bearer`, and nothing else does; where none is
/// configured every request is let in. A missing header is told from a wrong one.
pub proof fn law_configured_token_opens(header: Header, token: Seq<char>)
    ensures
        refusal(header, None) is None,
        refusal(header, Some(token)) is None <==> (header matches Header::Text(h) && h@ == "Bearer "@
            + token),
        refusal(header, Some(token)) == Some("authorization header required"@) <==> header is Absent,
{
    reveal_strlit("authorization header required");
    reveal_strlit("invalid authorization token");
    assert("authorization header required"@.len() != "invalid authorization token"@.len());
}

} // verus!
