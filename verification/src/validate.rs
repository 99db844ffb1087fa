//! Input validators: Stellar account IDs, email addresses, E.164 phone
//! numbers, and LDAP filter escaping per RFC 4515.

use vstd::prelude::*;
use vstd::string::StrSliceExecFns;
use vstd::string::StringExecFns;
use vstd::string::StringSliceAdditionalSpecFns;
use vstd::utf8::encode_utf8;
use crate::error::AppError;
use crate::strutil::{contains_byte_from, find_byte, find_byte_from, opt_view, str_eq};

verus! {

/// ASCII digit, upper-case letter, or lower-case letter.
pub open spec fn is_alnum_byte(b: u8) -> bool {
    (48 <= b <= 57) || (65 <= b <= 90) || (97 <= b <= 122)
}

/// A well-formed Stellar account ID: 56 bytes, leading 'G', alphanumeric.
pub open spec fn valid_stellar_id(b: Seq<u8>) -> bool {
    &&& b.len() == 56
    &&& b[0] == 71u8
    &&& forall|i: int| 0 <= i < b.len() ==> is_alnum_byte(#[trigger] b[i])
}

/// Validate a Stellar account ID format: must start with 'G', be 56 chars,
/// alphanumeric.
pub fn validate_stellar_account_id(id: &str) -> (r: Result<(), AppError>)
    ensures
        r is Ok <==> valid_stellar_id(id.spec_bytes()),
        r matches Err(e) ==> e is BadRequest,
{
    let b = id.as_bytes_vec();
    if b.len() != 56 {
        return Err(AppError::BadRequest(String::from_str("Stellar account ID must be 56 characters")));
    }
    if b[0] != 71 {
        return Err(AppError::BadRequest(String::from_str("Stellar account ID must start with 'G'")));
    }
    let mut i: usize = 0;
    while i < b.len()
        invariant
            b@ == id.spec_bytes(),
            b@.len() == 56,
            i <= 56,
            forall|j: int| 0 <= j < i ==> is_alnum_byte(#[trigger] b@[j]),
        decreases b@.len() - i,
    {
        let c = b[i];
        if !((48 <= c && c <= 57) || (65 <= c && c <= 90) || (97 <= c && c <= 122)) {
            return Err(AppError::BadRequest(String::from_str("Stellar account ID must be alphanumeric")));
        }
        i = i + 1;
    }
    Ok(())
}

/// Index of the first '@' byte, with nothing before it.
pub open spec fn first_at_sign(b: Seq<u8>, i: int) -> bool {
    &&& 0 <= i < b.len()
    &&& b[i] == 64u8
    &&& forall|k: int| 0 <= k < i ==> b[k] != 64u8
}

/// A well-formed email address for this service: at most 254 bytes, a
/// non-empty local part, an '@', and a domain that is non-empty and holds
/// a '.'.
pub open spec fn valid_email(b: Seq<u8>) -> bool {
    &&& b.len() <= 254
    &&& exists|i: int|
        {
            &&& #[trigger] first_at_sign(b, i)
            &&& 0 < i < b.len() - 1
            &&& exists|j: int| i < j < b.len() && b[j] == 46u8
        }
}

/// Validate an email address with a basic check.
pub fn validate_email(email: &str) -> (r: Result<(), AppError>)
    ensures
        r is Ok <==> valid_email(email.spec_bytes()),
        r matches Err(e) ==> e is BadRequest,
{
    let b = email.as_bytes_vec();
    if b.len() > 254 {
        return Err(AppError::BadRequest(String::from_str("Email address too long")));
    }
    let at = find_byte(&b, 64);
    match at {
        None => {
            proof {
                assert(!valid_email(b@)) by {
                    if valid_email(b@) {
                        let i = choose|i: int|
                            first_at_sign(b@, i) && 0 < i < b@.len() - 1 && exists|j: int|
                                i < j < b@.len() && b@[j] == 46u8;
                        assert(b@[i] == 64u8);
                    }
                }
            }
            Err(AppError::BadRequest(String::from_str("Invalid email address")))
        },
        Some(i) => {
            if i == 0 || i + 1 >= b.len() || !contains_byte_from(&b, 46, i + 1) {
                proof {
                    assert(!valid_email(b@)) by {
                        if valid_email(b@) {
                            let k = choose|k: int|
                                first_at_sign(b@, k) && 0 < k < b@.len() - 1 && exists|j: int|
                                    k < j < b@.len() && b@[j] == 46u8;
                            assert(k == i);
                        }
                    }
                }
                Err(AppError::BadRequest(String::from_str("Invalid email address format")))
            } else {
                proof {
                    assert(first_at_sign(b@, i as int));
                }
                Ok(())
            }
        },
    }
}

/// A well-formed E.164 phone number: '+', then 7 to 15 ASCII digits.
pub open spec fn valid_phone(b: Seq<u8>) -> bool {
    &&& b.len() >= 1
    &&& b[0] == 43u8
    &&& 8 <= b.len() <= 16
    &&& forall|i: int| 1 <= i < b.len() ==> 48 <= #[trigger] b[i] <= 57
}

/// Validate a phone number in E.164 format (e.g., +14155551234).
pub fn validate_phone_number(phone: &str) -> (r: Result<(), AppError>)
    ensures
        r is Ok <==> valid_phone(phone.spec_bytes()),
        r matches Err(e) ==> e is BadRequest,
{
    let b = phone.as_bytes_vec();
    if b.len() == 0 || b[0] != 43 {
        return Err(AppError::BadRequest(String::from_str("Phone number must start with '+'")));
    }
    if b.len() < 8 || b.len() > 16 {
        return Err(AppError::BadRequest(String::from_str("Phone number must be between 8 and 16 characters")));
    }
    let mut i: usize = 1;
    while i < b.len()
        invariant
            b@ == phone.spec_bytes(),
            b@.len() >= 1 && b@[0] == 43u8,
            8 <= b@.len() <= 16,
            1 <= i <= b@.len(),
            forall|j: int| 1 <= j < i ==> 48 <= #[trigger] b@[j] <= 57,
        decreases b@.len() - i,
    {
        let c = b[i];
        if c < 48 || c > 57 {
            return Err(AppError::BadRequest(String::from_str("Phone number must contain only digits after '+'")));
        }
        i = i + 1;
    }
    Ok(())
}

/// Scheme and host of a parsed URL.
pub struct UrlParts {
    pub scheme: String,
    pub host: Option<String>,
}

/// What url::Url::parse yields for a URL string: its scheme and the
/// canonical serialization of its host, or nothing for a malformed URL.
pub uninterp spec fn url_parts_of(url: Seq<char>) -> Option<(Seq<char>, Option<Seq<char>>)>;

/// Relies on url::Url::parse with the scheme and host_str accessors:
/// parsing is deterministic; the scheme comes back lower-cased, an IPv4
/// host as a canonical dotted quad, and an IPv6 host in brackets.
#[verifier::external_body]
fn parse_url_parts(url: &str) -> (r: Option<UrlParts>)
    ensures
        match r {
            Some(p) => url_parts_of(url@) == Some((p.scheme@, opt_view(p.host))),
            None => url_parts_of(url@) is None,
        },
{
    let parsed = url::Url::parse(url).ok()?;
    Some(UrlParts {
        scheme: parsed.scheme().to_string(),
        host: parsed.host_str().map(|h| h.to_string()),
    })
}

/// The bytes hold '.' at exactly the three positions i < j < k.
pub open spec fn dot_positions(b: Seq<u8>, i: int, j: int, k: int) -> bool {
    &&& 0 <= i < j < k < b.len()
    &&& b[i] == 46u8 && b[j] == 46u8 && b[k] == 46u8
    &&& forall|m: int| 0 <= m < b.len() && m != i && m != j && m != k ==> b[m] != 46u8
}

/// Numeric value of a 1- to 3-digit decimal segment.
pub open spec fn octet_value(b: Seq<u8>) -> int {
    if b.len() == 1 {
        b[0] - 48
    } else if b.len() == 2 {
        (b[0] - 48) * 10 + (b[1] - 48)
    } else {
        (b[0] - 48) * 100 + (b[1] - 48) * 10 + (b[2] - 48)
    }
}

/// A canonical dotted-quad segment: 1 to 3 digits, no leading zero, at
/// most 255.
pub open spec fn valid_octet(b: Seq<u8>) -> bool {
    &&& 1 <= b.len() <= 3
    &&& forall|m: int| 0 <= m < b.len() ==> 48 <= #[trigger] b[m] <= 57
    &&& b.len() > 1 ==> b[0] != 48u8
    &&& octet_value(b) <= 255
}

/// A private, loopback, link-local or all-zero IPv4 address.
pub open spec fn private_quad(o0: int, o1: int, o2: int, o3: int) -> bool {
    ||| o0 == 10
    ||| (o0 == 172 && 16 <= o1 <= 31)
    ||| (o0 == 192 && o1 == 168)
    ||| o0 == 127
    ||| (o0 == 169 && o1 == 254)
    ||| (o0 == 0 && o1 == 0 && o2 == 0 && o3 == 0)
}

/// The bytes are a canonical dotted-quad rendering of a private IPv4
/// address.
pub open spec fn private_ipv4_host(b: Seq<u8>) -> bool {
    exists|i: int, j: int, k: int|
        {
            &&& #[trigger] dot_positions(b, i, j, k)
            &&& valid_octet(b.subrange(0, i))
            &&& valid_octet(b.subrange(i + 1, j))
            &&& valid_octet(b.subrange(j + 1, k))
            &&& valid_octet(b.subrange(k + 1, b.len() as int))
            &&& private_quad(
                octet_value(b.subrange(0, i)),
                octet_value(b.subrange(i + 1, j)),
                octet_value(b.subrange(j + 1, k)),
                octet_value(b.subrange(k + 1, b.len() as int)),
            )
        }
}

/// Parse one decimal segment of a dotted quad.
fn parse_octet(b: &Vec<u8>, from: usize, to: usize) -> (r: Option<u8>)
    requires
        from <= to <= b@.len(),
    ensures
        match r {
            Some(v) => valid_octet(b@.subrange(from as int, to as int)) && v == octet_value(
                b@.subrange(from as int, to as int),
            ),
            None => !valid_octet(b@.subrange(from as int, to as int)),
        },
{
    let ghost seg = b@.subrange(from as int, to as int);
    let len = to - from;
    if len < 1 || len > 3 {
        return None;
    }
    let mut m: usize = 0;
    while m < len
        invariant
            seg == b@.subrange(from as int, to as int),
            from + len == to,
            to <= b@.len(),
            1 <= len <= 3,
            m <= len,
            forall|x: int| 0 <= x < m ==> 48 <= #[trigger] seg[x] <= 57,
        decreases len - m,
    {
        let c = b[from + m];
        proof {
            assert(seg[m as int] == b@[from + m]);
        }
        if c < 48 || c > 57 {
            return None;
        }
        m = m + 1;
    }
    if len > 1 && b[from] == 48 {
        proof {
            assert(seg[0] == b@[from as int]);
        }
        return None;
    }
    proof {
        assert(seg[0] == b@[from as int]);
        assert(len >= 2 ==> seg[1] == b@[from + 1]);
        assert(len == 3 ==> seg[2] == b@[from + 2]);
    }
    let value: u32 = if len == 1 {
        (b[from] - 48) as u32
    } else if len == 2 {
        (b[from] - 48) as u32 * 10 + (b[from + 1] - 48) as u32
    } else {
        (b[from] - 48) as u32 * 100 + (b[from + 1] - 48) as u32 * 10 + (b[from + 2] - 48) as u32
    };
    if value > 255 {
        return None;
    }
    Some(value as u8)
}

/// Parse a canonical dotted-quad IPv4 host, as the standard address
/// parser accepts it.
fn parse_ipv4(b: &Vec<u8>) -> (r: Option<(u8, u8, u8, u8)>)
    ensures
        match r {
            Some(q) => private_ipv4_host(b@) == private_quad(
                q.0 as int,
                q.1 as int,
                q.2 as int,
                q.3 as int,
            ),
            None => !private_ipv4_host(b@),
        },
{
    let n = b.len();
    proof {
        assert(n == b@.len());
    }
    let i = match find_byte_from(b, 46, 0) {
        Some(i) => i,
        None => {
            proof {
                assert(!private_ipv4_host(b@)) by {
                    if private_ipv4_host(b@) {
                        let (x, y, z) = choose|x: int, y: int, z: int|
                            #[trigger] dot_positions(b@, x, y, z);
                        assert(b@[x] == 46u8);
                    }
                }
            }
            return None;
        },
    };
    let j = match find_byte_from(b, 46, i + 1) {
        Some(j) => j,
        None => {
            proof {
                assert(!private_ipv4_host(b@)) by {
                    if private_ipv4_host(b@) {
                        let (x, y, z) = choose|x: int, y: int, z: int|
                            #[trigger] dot_positions(b@, x, y, z);
                        assert(b@[z] == 46u8 && z > x >= i);
                    }
                }
            }
            return None;
        },
    };
    let k = match find_byte_from(b, 46, j + 1) {
        Some(k) => k,
        None => {
            proof {
                assert(!private_ipv4_host(b@)) by {
                    if private_ipv4_host(b@) {
                        let (x, y, z) = choose|x: int, y: int, z: int|
                            #[trigger] dot_positions(b@, x, y, z);
                        assert(b@[x] == 46u8 && b@[y] == 46u8 && b@[z] == 46u8);
                        assert(x >= i && y > x && z > y);
                        assert(y == i || y == j);
                        assert(z == i || z == j);
                    }
                }
            }
            return None;
        },
    };
    if let Some(_) = find_byte_from(b, 46, k + 1) {
        proof {
            let l = choose|l: int| k < l < b@.len() && b@[l] == 46u8;
            assert(!private_ipv4_host(b@)) by {
                if private_ipv4_host(b@) {
                    let (x, y, z) = choose|x: int, y: int, z: int|
                        #[trigger] dot_positions(b@, x, y, z);
                    assert(b@[l] == 46u8);
                    assert(l == x || l == y || l == z);
                    assert((i as int) == x || (i as int) == y || (i as int) == z);
                    assert((j as int) == x || (j as int) == y || (j as int) == z);
                    assert((k as int) == x || (k as int) == y || (k as int) == z);
                }
            }
        }
        return None;
    }
    // The dots stand exactly at i < j < k.
    proof {
        assert(dot_positions(b@, i as int, j as int, k as int));
        assert forall|x: int, y: int, z: int| #[trigger] dot_positions(b@, x, y, z)
            implies x == i as int && y == j as int && z == k as int by {
            assert(x == i || x == j || x == k);
            assert(y == i || y == j || y == k);
            assert(z == i || z == j || z == k);
        }
    }
    let o0 = match parse_octet(b, 0, i) {
        Some(v) => v,
        None => {
            return None;
        },
    };
    let o1 = match parse_octet(b, i + 1, j) {
        Some(v) => v,
        None => {
            return None;
        },
    };
    let o2 = match parse_octet(b, j + 1, k) {
        Some(v) => v,
        None => {
            return None;
        },
    };
    let o3 = match parse_octet(b, k + 1, b.len()) {
        Some(v) => v,
        None => {
            return None;
        },
    };
    Some((o0, o1, o2, o3))
}

/// Validate a callback URL against server-side request forgery: only
/// http(s), and never localhost, a private or link-local IPv4 address,
/// or a cloud metadata endpoint.
pub fn validate_callback_url(url: &str) -> (r: Result<(), AppError>)
    ensures
        r matches Err(e) ==> e is BadRequest,
        ({
            match url_parts_of(url@) {
                None => r is Err,
                Some(parts) => {
                    let scheme = parts.0;
                    if scheme != "http"@ && scheme != "https"@ {
                        r is Err
                    } else {
                        match parts.1 {
                            None => r is Err,
                            Some(h) => {
                                if h == "localhost"@ || h == "127.0.0.1"@ || h == "::1"@ || h
                                    == "[::1]"@ || h == "0.0.0.0"@ {
                                    r is Err
                                } else if private_ipv4_host(encode_utf8(h)) {
                                    r is Err
                                } else if h == "169.254.169.254"@ || h
                                    == "metadata.google.internal"@ {
                                    r is Err
                                } else {
                                    r is Ok
                                }
                            },
                        }
                    }
                },
            }
        }),
{
    let parts = match parse_url_parts(url) {
        Some(p) => p,
        None => {
            return Err(AppError::BadRequest(String::from_str("Invalid URL format")));
        },
    };
    if !str_eq(parts.scheme.as_str(), "http") && !str_eq(parts.scheme.as_str(), "https") {
        return Err(AppError::BadRequest(String::from_str("URL scheme must be http or https")));
    }
    let host = match parts.host {
        Some(h) => h,
        None => {
            return Err(AppError::BadRequest(String::from_str("URL must have a host")));
        },
    };
    if str_eq(host.as_str(), "localhost") || str_eq(host.as_str(), "127.0.0.1") || str_eq(
        host.as_str(),
        "::1",
    ) || str_eq(host.as_str(), "[::1]") || str_eq(host.as_str(), "0.0.0.0") {
        return Err(AppError::BadRequest(String::from_str("Callback URL must not target localhost")));
    }
    let host_bytes = host.as_str().as_bytes_vec();
    if let Some((o0, o1, o2, o3)) = parse_ipv4(&host_bytes) {
        if o0 == 10 || (o0 == 172 && 16 <= o1 && o1 <= 31) || (o0 == 192 && o1 == 168) || o0 == 127
            || (o0 == 169 && o1 == 254) || (o0 == 0 && o1 == 0 && o2 == 0 && o3 == 0) {
            return Err(AppError::BadRequest(String::from_str("Callback URL must not target private IP addresses")));
        }
    }
    if str_eq(host.as_str(), "169.254.169.254") || str_eq(host.as_str(), "metadata.google.internal")
    {
        return Err(AppError::BadRequest(String::from_str("Callback URL must not target cloud metadata endpoints")));
    }
    Ok(())
}

/// Expansion of one character under RFC 4515 escaping.
pub open spec fn ldap_escape_char(c: char) -> Seq<char> {
    if c == '\\' {
        "\\5c"@
    } else if c == '*' {
        "\\2a"@
    } else if c == '(' {
        "\\28"@
    } else if c == ')' {
        "\\29"@
    } else if c == '\0' {
        "\\00"@
    } else {
        seq![c]
    }
}

/// The whole input, escaped character by character.
pub open spec fn ldap_escaped(s: Seq<char>) -> Seq<char>
    decreases s.len(),
{
    if s.len() == 0 {
        Seq::empty()
    } else {
        ldap_escaped(s.drop_last()) + ldap_escape_char(s.last())
    }
}

/// Escape special characters in LDAP filter values per RFC 4515.
pub fn ldap_escape(input: &str) -> (r: String)
    ensures
        r@ == ldap_escaped(input@),
{
    let len = input.unicode_len();
    let mut out = String::new();
    let mut i: usize = 0;
    while i < len
        invariant
            len == input@.len(),
            i <= len,
            out@ == ldap_escaped(input@.take(i as int)),
        decreases len - i,
    {
        let c = input.get_char(i);
        if c == '\\' {
            out.append("\\5c");
        } else if c == '*' {
            out.append("\\2a");
        } else if c == '(' {
            out.append("\\28");
        } else if c == ')' {
            out.append("\\29");
        } else if c == '\0' {
            out.append("\\00");
        } else {
            let piece = input.substring_char(i, i + 1);
            proof {
                assert(piece@ =~= seq![input@[i as int]]);
            }
            out.append(piece);
        }
        proof {
            assert(input@.take(i + 1).drop_last() =~= input@.take(i as int));
            assert(input@.take(i + 1).last() == input@[i as int]);
            assert(ldap_escaped(input@.take(i + 1)) == ldap_escaped(input@.take(i as int))
                + ldap_escape_char(input@[i as int]));
        }
        i = i + 1;
    }
    proof {
        assert(input@.take(len as int) =~= input@);
    }
    out
}

} // verus!
