//! Identifier classification.
//!
//! Decides, without any network traffic, whether an input string is
//! syntactically a server name, a URL, or both. A leading insecure scheme
//! prefix is recorded so that server-name discovery can skip transport
//! security, and is stripped before server-name validation.

use vstd::prelude::*;
use vstd::string::*;

verus! {

/// `p` is a prefix of `s`.
pub open spec fn spec_has_prefix(s: Seq<char>, p: Seq<char>) -> bool {
    p.len() <= s.len() && s.subrange(0, p.len() as int) == p
}

/// The input with a leading `http://` or `https://` scheme removed, if one
/// is present; otherwise the input itself.
pub open spec fn spec_scheme_stripped(s: Seq<char>) -> Seq<char> {
    if spec_has_prefix(s, "http://"@) {
        s.subrange("http://"@.len() as int, s.len() as int)
    } else if spec_has_prefix(s, "https://"@) {
        s.subrange("https://"@.len() as int, s.len() as int)
    } else {
        s
    }
}

/// What `ruma`'s server-name validation says of a candidate string: `None`
/// when the string is a syntactically valid server name, otherwise the
/// parse-error message.
pub uninterp spec fn server_name_error(s: Seq<char>) -> Option<Seq<char>>;

/// What `url`'s parser says of a candidate string: `None` when the string
/// is not a well-formed URL, otherwise the canonical serialization of the
/// parsed URL.
pub uninterp spec fn url_parse(s: Seq<char>) -> Option<Seq<char>>;

/// The input, once stripped of any scheme prefix, is a valid server name.
pub open spec fn spec_server_name_ok(s: Seq<char>) -> bool {
    server_name_error(spec_scheme_stripped(s)) is None
}

/// The input parses as a well-formed URL.
pub open spec fn spec_url_ok(s: Seq<char>) -> bool {
    url_parse(s) is Some
}

fn has_prefix(s: &str, p: &str) -> (r: bool)
    ensures
        r == spec_has_prefix(s@, p@),
{
    let n = p.unicode_len();
    let l = s.unicode_len();
    if l < n {
        return false;
    }
    let mut i: usize = 0;
    while i < n
        invariant
            i <= n,
            n == p@.len(),
            n <= s@.len(),
            forall|j: int| 0 <= j < i ==> s@[j] == p@[j],
        decreases n - i,
    {
        if s.get_char(i) != p.get_char(i) {
            proof {
                if spec_has_prefix(s@, p@) {
                    assert(s@.subrange(0, p@.len() as int)[i as int] == s@[i as int]);
                }
            }
            return false;
        }
        i += 1;
    }
    proof {
        assert(s@.subrange(0, p@.len() as int) =~= p@);
    }
    true
}

/// Removes a leading `http://` or `https://` scheme, if present, leaving
/// the candidate server name.
fn strip_scheme<'a>(s: &'a str) -> (r: &'a str)
    ensures
        r@ == spec_scheme_stripped(s@),
{
    if has_prefix(s, "http://") {
        let n = "http://".unicode_len();
        s.substring_char(n, s.unicode_len())
    } else if has_prefix(s, "https://") {
        let n = "https://".unicode_len();
        s.substring_char(n, s.unicode_len())
    } else {
        s
    }
}

/// Relies on `ruma::ServerName::parse`: it validates the string against the
/// server-name grammar without side effects; on success the owned name holds
/// exactly the validated input, on failure the error describes the parse
/// cause.
#[verifier::external_body]
fn parse_server_name(s: &str) -> (r: Result<String, String>)
    ensures
        r is Ok <==> server_name_error(s@) is None,
        r matches Ok(n) ==> n@ == s@,
        r matches Err(m) ==> server_name_error(s@) == Some(m@),
{
    match ruma::ServerName::parse(s) {
        Ok(name) => Ok(name.as_str().to_owned()),
        Err(e) => Err(e.to_string()),
    }
}

/// Relies on `url::Url::parse`: it parses the string as an absolute URL
/// without side effects; on success the result serializes back to the
/// canonical form of the parsed URL.
#[verifier::external_body]
fn parse_homeserver_url(s: &str) -> (r: Option<String>)
    ensures
        r is Some <==> url_parse(s@) is Some,
        r matches Some(u) ==> url_parse(s@) == Some(u@),
{
    match url::Url::parse(s) {
        Ok(u) => Some(String::from(u)),
        Err(_) => None,
    }
}

/// Both syntactic readings of one input string: the server-name reading
/// (with the insecure flag that discovery must honour) and the URL reading.
pub struct ClassifiedIdentifier {
    /// The sanitized server name, or the parse-error message.
    pub server_name: Result<String, String>,
    /// The input carried an insecure scheme prefix, so server-name
    /// discovery must skip transport security.
    pub insecure: bool,
    /// The canonical URL, where the input parses as one.
    pub url: Option<String>,
}

/// Attempts both readings of the input; pure parsing, no network calls.
pub fn classify_identifier(input: &str) -> (c: ClassifiedIdentifier)
    ensures
        c.server_name is Ok <==> spec_server_name_ok(input@),
        c.server_name matches Ok(n) ==> n@ == spec_scheme_stripped(input@),
        c.server_name matches Err(m) ==> server_name_error(spec_scheme_stripped(input@))
            == Some(m@),
        c.insecure == spec_has_prefix(input@, "http://"@),
        c.url is Some <==> spec_url_ok(input@),
        c.url matches Some(u) ==> url_parse(input@) == Some(u@),
{
    let insecure = has_prefix(input, "http://");
    let stripped = strip_scheme(input);
    ClassifiedIdentifier {
        server_name: parse_server_name(stripped),
        insecure,
        url: parse_homeserver_url(input),
    }
}

} // verus!
