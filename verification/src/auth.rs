//! Bearer-token check on the request headers.

use axum::http::HeaderMap;
use vstd::prelude::*;
use vstd::string::*;

verus! {

#[verifier::external_type_specification]
#[verifier::external_body]
#[verifier::reject_recursive_types(T)]
pub struct ExHeaderMap<T>(axum::http::HeaderMap<T>);

#[verifier::external_type_specification]
#[verifier::external_body]
pub struct ExHeaderValue(axum::http::HeaderValue);

/// What a header map holds: for each (lower-case) header name, the bytes of its values,
/// in the order they were added.
pub uninterp spec fn header_values(headers: HeaderMap) -> Map<Seq<char>, Seq<Seq<u8>>>;

/// A lower-case header name made of letters and dashes.
pub open spec fn is_plain_header_name(name: Seq<char>) -> bool {
    &&& name.len() > 0
    &&& forall|i: int| 0 <= i < name.len() ==> ('a' <= #[trigger] name[i] <= 'z' || name[i] == '-')
}

/// The first value of header `name`, where the map holds one.
pub open spec fn first_value(values: Map<Seq<char>, Seq<Seq<u8>>>, name: Seq<char>) -> Option<Seq<u8>> {
    if values.contains_key(name) && values[name].len() > 0 {
        Some(values[name][0])
    } else {
        None
    }
}

/// `HeaderMap::get` on a header name, with the value taken as its bytes
/// (`HeaderValue::as_bytes`). The map's `get` returns the first value added under the
/// name, or `None` where there is none.
#[verifier::external_body]
fn header_first_value(headers: &HeaderMap, name: &str) -> (r: Option<Vec<u8>>)
    requires
        is_plain_header_name(name@),
    ensures
        match first_value(header_values(*headers), name@) {
            Some(v) => r matches Some(b) && b@ == v,
            None => r is None,
        },
{
    match headers.get(name) {
        Some(value) => Some(value.as_bytes().to_vec()),
        None => None,
    }
}

/// The name of the header that carries the credentials.
pub open spec fn authorization_header() -> Seq<char> {
    seq!['a', 'u', 't', 'h', 'o', 'r', 'i', 'z', 'a', 't', 'i', 'o', 'n']
}

/// The scheme prefix of the expected credentials.
pub open spec fn bearer_prefix() -> Seq<char> {
    seq!['B', 'e', 'a', 'r', 'e', 'r', ' ']
}

/// A byte that a header value may hold and still read as text: visible ASCII or a tab.
pub open spec fn is_visible_ascii(b: u8) -> bool {
    (32 <= b && b < 127) || b == 9
}

/// A header value read as text (`HeaderValue::to_str`): its bytes as characters where all
/// of them are visible ASCII, otherwise nothing.
pub open spec fn header_text(bytes: Seq<u8>) -> Option<Seq<char>> {
    if forall|i: int| 0 <= i < bytes.len() ==> is_visible_ascii(#[trigger] bytes[i]) {
        Some(bytes.map_values(|b: u8| b as char))
    } else {
        None
    }
}

/// Whether a value of the authorization header carries exactly `Bearer <expected>`.
pub open spec fn credentials_accepted(value: Option<Seq<u8>>, expected: Seq<char>) -> bool {
    match value {
        Some(bytes) => header_text(bytes) == Some(bearer_prefix() + expected),
        None => false,
    }
}

/// Whether the request headers authorize a call with the worker secret `expected`.
pub open spec fn is_authorized(headers: HeaderMap, expected: Seq<char>) -> bool {
    credentials_accepted(first_value(header_values(headers), authorization_header()), expected)
}

/// Whether the value of an authorization header reads as text and equals `Bearer <expected>`.
pub fn credentials_match(value: &[u8], expected: &str) -> (r: bool)
    ensures
        r == credentials_accepted(Some(value@), expected@),
{
    let ghost want = bearer_prefix() + expected@;
    let len = value.len();
    let mut i: usize = 0;
    while i < len
        invariant
            len == value@.len(),
            i <= len,
            forall|k: int| 0 <= k < i ==> is_visible_ascii(#[trigger] value@[k]),
        decreases len - i,
    {
        let b = value[i];
        if !((32 <= b && b < 127) || b == 9) {
            assert(header_text(value@) is None);
            return false;
        }
        i = i + 1;
    }
    assert(header_text(value@) == Some(value@.map_values(|b: u8| b as char)));
    let n = expected.unicode_len();
    if len < 7 || len - 7 != n {
        assert(value@.map_values(|b: u8| b as char).len() != want.len());
        return false;
    }
    let prefix: [u8; 7] = [66, 101, 97, 114, 101, 114, 32];
    let mut k: usize = 0;
    while k < 7
        invariant
            len == value@.len(),
            len == 7 + n,
            n == expected@.len(),
            k <= 7,
            want == bearer_prefix() + expected@,
            prefix@ == seq![66u8, 101u8, 97u8, 114u8, 101u8, 114u8, 32u8],
            forall|m: int| 0 <= m < k ==> (#[trigger] value@[m]) as char == want[m],
        decreases 7 - k,
    {
        assert(want[k as int] == bearer_prefix()[k as int]);
        assert(bearer_prefix()[k as int] == (prefix@[k as int] as char));
        if value[k] != prefix[k] {
            assert(value@.map_values(|b: u8| b as char)[k as int] != want[k as int]);
            return false;
        }
        k = k + 1;
    }
    let mut j: usize = 0;
    while j < n
        invariant
            len == value@.len(),
            len == 7 + n,
            n == expected@.len(),
            j <= n,
            want == bearer_prefix() + expected@,
            forall|m: int| 0 <= m < 7 + j ==> (#[trigger] value@[m]) as char == want[m],
        decreases n - j,
    {
        let c = expected.get_char(j);
        assert(want[7 + j] == expected@[j as int]);
        if (value[7 + j] as char) != c {
            assert(value@.map_values(|b: u8| b as char)[7 + j] != want[7 + j]);
            return false;
        }
        j = j + 1;
    }
    assert(value@.map_values(|b: u8| b as char) =~= want);
    true
}

/// Whether the request carries the header `authorization: Bearer <expected>`.
pub fn authorized(headers: &HeaderMap, expected: &str) -> (r: bool)
    ensures
        r == is_authorized(*headers, expected@),
{
    let name = "authorization";
    proof {
        reveal_strlit("authorization");
        assert(name@ =~= authorization_header());
    }
    match header_first_value(headers, name) {
        Some(value) => credentials_match(value.as_slice(), expected),
        None => false,
    }
}

} // verus!
