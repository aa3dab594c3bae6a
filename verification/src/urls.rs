//! URL query-string handling: looking a parameter up in a URL's query string
//! (used to read the `offset`/`limit` cursor out of an upstream `next` link)
//! and percent-encoding for the URLs this service builds itself.

use vstd::prelude::*;
use vstd::string::StrSliceExecFns;
use vstd::string::StringExecFns;

verus! {

// ---------------------------------------------------------------------------
// Finding a character
// ---------------------------------------------------------------------------

/// The first index of `c` in `s` at or after `i`, or `s.len()` when `c` does
/// not occur there.
pub open spec fn first_index_at(s: Seq<char>, c: char, i: int) -> int
    decreases s.len() - i,
{
    if i >= s.len() {
        s.len() as int
    } else if s[i] == c {
        i
    } else {
        first_index_at(s, c, i + 1)
    }
}

pub proof fn lemma_first_index_at(s: Seq<char>, c: char, i: int)
    requires
        0 <= i <= s.len(),
    ensures
        i <= first_index_at(s, c, i) <= s.len(),
        first_index_at(s, c, i) < s.len() ==> s[first_index_at(s, c, i)] == c,
        forall|k: int| i <= k < first_index_at(s, c, i) ==> s[k] != c,
    decreases s.len() - i,
{
    if i < s.len() && s[i] != c {
        lemma_first_index_at(s, c, i + 1);
    }
}

/// The first index of `c` in `s`, or `s@.len()` when `c` does not occur.
pub fn find_char(s: &str, c: char) -> (r: usize)
    ensures
        r as int == first_index_at(s@, c, 0),
{
    let n = s.unicode_len();
    let mut i: usize = 0;
    while i < n
        invariant
            0 <= i <= n == s@.len(),
            first_index_at(s@, c, 0) == first_index_at(s@, c, i as int),
        decreases n - i,
    {
        if s.get_char(i) == c {
            return i;
        }
        i = i + 1;
    }
    n
}

/// Character-by-character string equality.
pub fn str_eq(a: &str, b: &str) -> (r: bool)
    ensures
        r == (a@ == b@),
{
    let n = a.unicode_len();
    if n != b.unicode_len() {
        return false;
    }
    let mut i: usize = 0;
    while i < n
        invariant
            0 <= i <= n == a@.len(),
            n == b@.len(),
            forall|j: int| 0 <= j < i ==> a@[j] == b@[j],
        decreases n - i,
    {
        if a.get_char(i) != b.get_char(i) {
            return false;
        }
        i = i + 1;
    }
    proof {
        assert(a@ =~= b@);
    }
    true
}

// ---------------------------------------------------------------------------
// Query-string parameters
// ---------------------------------------------------------------------------

/// The value of the first `key=value` pair in the query string `q` whose key
/// is `key`.  A segment without `=` counts as a key with an empty value.
pub open spec fn param_value(q: Seq<char>, key: Seq<char>) -> Option<Seq<char>>
    decreases q.len(),
{
    let seg_end = first_index_at(q, '&', 0);
    if seg_end < 0 || seg_end > q.len() {
        None
    } else {
        let seg = q.subrange(0, seg_end);
        let eq_at = first_index_at(seg, '=', 0);
        let e = if 0 <= eq_at <= seg.len() {
            eq_at
        } else {
            seg.len() as int
        };
        let k = seg.subrange(0, e);
        let v = if e < seg.len() {
            seg.subrange(e + 1, seg.len() as int)
        } else {
            Seq::<char>::empty()
        };
        if k == key {
            Some(v)
        } else if seg_end >= q.len() {
            None
        } else {
            param_value(q.subrange(seg_end + 1, q.len() as int), key)
        }
    }
}

/// The query string of `url`: everything after the first `?`, or nothing when
/// there is no `?`.
pub open spec fn query_of(url: Seq<char>) -> Option<Seq<char>> {
    let qm = first_index_at(url, '?', 0);
    if 0 <= qm < url.len() {
        Some(url.subrange(qm + 1, url.len() as int))
    } else {
        None
    }
}

/// The value of query parameter `key` in `url`, or nothing when `url` has no
/// query string or no such parameter.
pub open spec fn query_param_spec(url: Seq<char>, key: Seq<char>) -> Option<Seq<char>> {
    match query_of(url) {
        Some(q) => param_value(q, key),
        None => None,
    }
}

fn param_value_exec(q: &str, key: &str) -> (r: Option<String>)
    ensures
        match r {
            Some(v) => param_value(q@, key@) == Some(v@),
            None => param_value(q@, key@) is None,
        },
    decreases q@.len(),
{
    let qlen = q.unicode_len();
    let seg_end = find_char(q, '&');
    proof {
        lemma_first_index_at(q@, '&', 0);
    }
    let seg = q.substring_char(0, seg_end);
    let seg_len = seg.unicode_len();
    let eq_at = find_char(seg, '=');
    proof {
        lemma_first_index_at(seg@, '=', 0);
    }
    let k = seg.substring_char(0, eq_at);
    let v: &str = if eq_at < seg_len {
        seg.substring_char(eq_at + 1, seg_len)
    } else {
        ""
    };
    if str_eq(k, key) {
        proof {
            reveal_strlit("");
            assert(""@ =~= Seq::<char>::empty());
        }
        Some(v.to_owned())
    } else if seg_end >= qlen {
        None
    } else {
        param_value_exec(q.substring_char(seg_end + 1, qlen), key)
    }
}

/// Look query parameter `key` up in `url`.
pub fn query_param(url: &str, key: &str) -> (r: Option<String>)
    ensures
        match r {
            Some(v) => query_param_spec(url@, key@) == Some(v@),
            None => query_param_spec(url@, key@) is None,
        },
{
    let n = url.unicode_len();
    let qm = find_char(url, '?');
    proof {
        lemma_first_index_at(url@, '?', 0);
    }
    if qm < n {
        param_value_exec(url.substring_char(qm + 1, n), key)
    } else {
        None
    }
}

// ---------------------------------------------------------------------------
// Pagination cursors
// ---------------------------------------------------------------------------

/// The `(offset, limit)` cursor carried by a `next` URL, when both parameters
/// are present and parse as decimal `u32`s.
pub open spec fn cursor_of(url: Seq<char>) -> Option<(u32, u32)> {
    match query_param_spec(url, "offset"@) {
        None => None,
        Some(o) => match crate::text::parsed_u32(o) {
            None => None,
            Some(off) => match query_param_spec(url, "limit"@) {
                None => None,
                Some(l) => match crate::text::parsed_u32(l) {
                    None => None,
                    Some(lim) => Some((off, lim)),
                },
            },
        },
    }
}

/// Parse the `(offset, limit)` cursor out of a `next` URL.
pub fn parse_cursor(url: &str) -> (r: Option<(u32, u32)>)
    ensures
        r == cursor_of(url@),
{
    let o = match query_param(url, "offset") {
        Some(o) => o,
        None => {
            return None;
        },
    };
    let off = match crate::text::parse_u32(o.as_str()) {
        Some(off) => off,
        None => {
            return None;
        },
    };
    let l = match query_param(url, "limit") {
        Some(l) => l,
        None => {
            return None;
        },
    };
    let lim = match crate::text::parse_u32(l.as_str()) {
        Some(lim) => lim,
        None => {
            return None;
        },
    };
    Some((off, lim))
}

// ---------------------------------------------------------------------------
// Percent-encoding
// ---------------------------------------------------------------------------

/// Bytes that stay themselves in a percent-encoded query component: the
/// unreserved characters `A-Z a-z 0-9 - . _ ~`.
pub open spec fn is_unreserved_byte(b: u8) -> bool {
    (48 <= b <= 57) || (65 <= b <= 90) || (97 <= b <= 122) || b == 45 || b == 46 || b == 95 || b
        == 126
}

/// The uppercase hexadecimal digit for `n` (0 to 15).
pub open spec fn hex_digit(n: int) -> char {
    if n < 10 {
        (n + '0' as int) as char
    } else {
        (n - 10 + 'A' as int) as char
    }
}

/// What one byte contributes to a percent-encoded string.
pub open spec fn pct_byte(b: u8) -> Seq<char> {
    if is_unreserved_byte(b) {
        seq![b as char]
    } else {
        seq!['%', hex_digit(b as int / 16), hex_digit(b as int % 16)]
    }
}

/// The percent-encoding of a byte string.
pub open spec fn pct_encoded(bs: Seq<u8>) -> Seq<char>
    decreases bs.len(),
{
    if bs.len() == 0 {
        Seq::<char>::empty()
    } else {
        pct_encoded(bs.drop_last()) + pct_byte(bs.last())
    }
}

/// The percent-encoding of a character string: its UTF-8 bytes, encoded.
pub open spec fn pct_chars(s: Seq<char>) -> Seq<char> {
    pct_encoded(vstd::utf8::encode_utf8(s))
}

fn hex_digit_byte(n: u8) -> (r: u8)
    requires
        n < 16,
    ensures
        r < 0x80,
        r as char == hex_digit(n as int),
{
    if n < 10 {
        48 + n
    } else {
        55 + n
    }
}

fn pct_bytes(bs: &Vec<u8>) -> (r: Vec<u8>)
    ensures
        r@.map_values(|b: u8| b as char) == pct_encoded(bs@),
        forall|i: int| 0 <= i < r@.len() ==> #[trigger] r@[i] < 0x80,
{
    let mut out: Vec<u8> = Vec::new();
    let mut i: usize = 0;
    while i < bs.len()
        invariant
            0 <= i <= bs@.len(),
            out@.map_values(|b: u8| b as char) == pct_encoded(bs@.subrange(0, i as int)),
            forall|k: int| 0 <= k < out@.len() ==> #[trigger] out@[k] < 0x80,
        decreases bs@.len() - i,
    {
        let b = bs[i];
        let unreserved = (48 <= b && b <= 57) || (65 <= b && b <= 90) || (97 <= b && b <= 122) || b
            == 45 || b == 46 || b == 95 || b == 126;
        if unreserved {
            out.push(b);
        } else {
            out.push(37);  // '%'
            out.push(hex_digit_byte(b / 16));
            out.push(hex_digit_byte(b % 16));
        }
        let ghost cur = bs@.subrange(0, i as int + 1);
        proof {
            assert(cur.drop_last() =~= bs@.subrange(0, i as int));
            assert(cur.last() == bs@[i as int]);
            assert(out@.map_values(|b: u8| b as char) =~= pct_encoded(cur));
        }
        i = i + 1;
    }
    proof {
        assert(bs@.subrange(0, bs@.len() as int) =~= bs@);
    }
    out
}

/// Percent-encode a string for use as a URL query component.
pub fn percent_encode(s: &str) -> (r: String)
    ensures
        r@ == pct_chars(s@),
{
    let bytes = s.as_bytes_vec();
    crate::text::string_from_ascii(pct_bytes(&bytes))
}

// ---------------------------------------------------------------------------
// The provider's authorize URL
// ---------------------------------------------------------------------------

/// The authorize URL the login redirect sends the user agent to, with every
/// parameter percent-encoded.
pub open spec fn authorize_url_spec(
    client_id: Seq<char>,
    scope: Seq<char>,
    redirect_uri: Seq<char>,
    state: Seq<char>,
    challenge: Seq<char>,
) -> Seq<char> {
    "https://accounts.spotify.com/authorize?response_type=code&client_id="@ + pct_chars(client_id)
        + "&scope="@ + pct_chars(scope) + "&redirect_uri="@ + pct_chars(redirect_uri) + "&state="@
        + pct_chars(state) + "&code_challenge_method=S256&code_challenge="@ + pct_chars(challenge)
}

/// Build the provider's authorize URL for one login attempt.
pub fn build_authorize_url(
    client_id: &str,
    scope: &str,
    redirect_uri: &str,
    state: &str,
    challenge: &str,
) -> (r: String)
    ensures
        r@ == authorize_url_spec(client_id@, scope@, redirect_uri@, state@, challenge@),
{
    let mut url = String::new();
    url.append("https://accounts.spotify.com/authorize?response_type=code&client_id=");
    url.append(percent_encode(client_id).as_str());
    url.append("&scope=");
    url.append(percent_encode(scope).as_str());
    url.append("&redirect_uri=");
    url.append(percent_encode(redirect_uri).as_str());
    url.append("&state=");
    url.append(percent_encode(state).as_str());
    url.append("&code_challenge_method=S256&code_challenge=");
    url.append(percent_encode(challenge).as_str());
    proof {
        assert(url@ =~= authorize_url_spec(client_id@, scope@, redirect_uri@, state@, challenge@));
    }
    url
}

} // verus!
