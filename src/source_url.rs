use vstd::prelude::*;

verus! {

/// Address the app loads when none has been configured.
pub const DEFAULT_SOURCE_URL: &'static str = "https://monochrome.samidy.com";

/// Characters with the Unicode `White_Space` property.
pub open spec fn is_white_space(c: char) -> bool {
    let v = c as u32;
    (0x9 <= v <= 0xd) || v == 0x20 || v == 0x85 || v == 0xa0 || v == 0x1680
        || (0x2000 <= v <= 0x200a) || v == 0x2028 || v == 0x2029 || v == 0x202f
        || v == 0x205f || v == 0x3000
}

pub open spec fn trim_start_spec(s: Seq<char>) -> Seq<char>
    decreases s.len(),
{
    if s.len() > 0 && is_white_space(s[0]) {
        trim_start_spec(s.drop_first())
    } else {
        s
    }
}

pub open spec fn trim_end_spec(s: Seq<char>) -> Seq<char>
    decreases s.len(),
{
    if s.len() > 0 && is_white_space(s.last()) {
        trim_end_spec(s.drop_last())
    } else {
        s
    }
}

/// `s` without leading and trailing white space.
pub open spec fn trimmed(s: Seq<char>) -> Seq<char> {
    trim_end_spec(trim_start_spec(s))
}

/// What `url` serializes a parsed address to, or `None` when it rejects the text.
pub uninterp spec fn url_serialization(s: Seq<char>) -> Option<Seq<char>>;

pub open spec fn has_prefix_spec(s: Seq<char>, p: Seq<char>) -> bool {
    p.len() <= s.len() && s.subrange(0, p.len() as int) == p
}

pub open spec fn https_scheme() -> Seq<char> {
    seq!['h', 't', 't', 'p', 's', ':', '/', '/']
}

pub open spec fn http_scheme() -> Seq<char> {
    seq!['h', 't', 't', 'p', ':', '/', '/']
}

pub open spec fn mailto_scheme() -> Seq<char> {
    seq!['m', 'a', 'i', 'l', 't', 'o', ':']
}

pub open spec fn tel_scheme() -> Seq<char> {
    seq!['t', 'e', 'l', ':']
}

/// Addresses that may be handed to the system's opener.
pub open spec fn is_external_scheme(s: Seq<char>) -> bool {
    has_prefix_spec(s, http_scheme()) || has_prefix_spec(s, https_scheme())
        || has_prefix_spec(s, mailto_scheme()) || has_prefix_spec(s, tel_scheme())
}

/// Relies on `str::trim`: drops leading and trailing characters with the
/// Unicode `White_Space` property.
#[verifier::external_body]
fn trim_text(s: &str) -> (r: String)
    ensures
        r@ == trimmed(s@),
{
    s.trim().to_string()
}

/// Relies on `url::Url::parse` and the `Display` of `url::Url`, which writes
/// the URL's serialization; on rejection, the `Display` of the parse error.
#[verifier::external_body]
fn parse_url(s: &str) -> (r: Result<String, String>)
    ensures
        r is Ok <==> url_serialization(s@) is Some,
        r is Ok ==> url_serialization(s@) == Some(r->Ok_0@),
{
    match url::Url::parse(s) {
        Ok(u) => Ok(u.to_string()),
        Err(e) => Err(e.to_string()),
    }
}

/// Whether `s` starts with `p`.
pub fn has_prefix(s: &str, p: &str) -> (r: bool)
    ensures
        r == has_prefix_spec(s@, p@),
{
    let n = p.unicode_len();
    if n > s.unicode_len() {
        return false;
    }
    let mut i: usize = 0;
    while i < n
        invariant
            n == p@.len(),
            n <= s@.len(),
            0 <= i <= n,
            forall|k: int| 0 <= k < i ==> s@[k] == p@[k],
        decreases n - i,
    {
        if s.get_char(i) != p.get_char(i) {
            assert(s@.subrange(0, n as int)[i as int] != p@[i as int]);
            return false;
        }
        i += 1;
    }
    assert(s@.subrange(0, n as int) =~= p@);
    true
}

/// Why an address was refused.
#[derive(Debug, Clone, PartialEq, Eq)]
pub enum UrlError {
    /// A source address must use `https://`.
    NotHttps,
    /// The address could not be parsed; the parser's description.
    Invalid(String),
    /// The external address uses a scheme other than http, https, mailto or tel.
    UnsupportedScheme,
}

impl UrlError {
    /// Human-readable description handed to the calling layer.
    pub fn message(&self) -> (r: String)
        ensures
            match self {
                UrlError::NotHttps => r@ == "Only HTTPS URLs are allowed"@,
                UrlError::Invalid(d) => r@ == "Invalid URL: "@ + d@,
                UrlError::UnsupportedScheme => r@ == "unsupported url scheme"@,
            },
    {
        match self {
            UrlError::NotHttps => {
                proof { reveal_strlit("Only HTTPS URLs are allowed"); }
                String::from_str("Only HTTPS URLs are allowed")
            },
            UrlError::Invalid(d) => {
                proof { reveal_strlit("Invalid URL: "); }
                String::from_str("Invalid URL: ").concat(d.as_str())
            },
            UrlError::UnsupportedScheme => {
                proof { reveal_strlit("unsupported url scheme"); }
                String::from_str("unsupported url scheme")
            },
        }
    }
}

/// The source address to store for the text `url`: trimmed, required to use
/// `https://`, then parsed and written back in its serialized form.
pub fn validate_source_url(url: &str) -> (r: Result<String, UrlError>)
    ensures
        !has_prefix_spec(trimmed(url@), https_scheme()) <==> r == Err::<String, UrlError>(UrlError::NotHttps),
        has_prefix_spec(trimmed(url@), https_scheme()) ==> match url_serialization(trimmed(url@)) {
            Some(s) => r is Ok && r->Ok_0@ == s,
            None => r is Err && r->Err_0 is Invalid,
        },
{
    let t = trim_text(url);
    proof { reveal_strlit("https://"); }
    assert("https://"@ =~= https_scheme());
    if !has_prefix(t.as_str(), "https://") {
        return Err(UrlError::NotHttps);
    }
    match parse_url(t.as_str()) {
        Ok(s) => Ok(s),
        Err(d) => Err(UrlError::Invalid(d)),
    }
}

/// The address to open outside the app for the text `url`: trimmed, and
/// refused unless it uses http, https, mailto or tel.
pub fn check_external_url(url: &str) -> (r: Result<String, UrlError>)
    ensures
        is_external_scheme(trimmed(url@)) ==> r is Ok && r->Ok_0@ == trimmed(url@),
        !is_external_scheme(trimmed(url@)) ==> r == Err::<String, UrlError>(UrlError::UnsupportedScheme),
{
    let t = trim_text(url);
    proof {
        reveal_strlit("http://");
        reveal_strlit("https://");
        reveal_strlit("mailto:");
        reveal_strlit("tel:");
    }
    assert("http://"@ =~= http_scheme());
    assert("https://"@ =~= https_scheme());
    assert("mailto:"@ =~= mailto_scheme());
    assert("tel:"@ =~= tel_scheme());
    if has_prefix(t.as_str(), "http://") || has_prefix(t.as_str(), "https://")
        || has_prefix(t.as_str(), "mailto:") || has_prefix(t.as_str(), "tel:")
    {
        Ok(t)
    } else {
        Err(UrlError::UnsupportedScheme)
    }
}

/// The source address given the stored configuration text, if any: the text
/// trimmed, or the default address when that is empty or nothing is stored.
pub fn source_url_from_config(content: Option<String>) -> (r: String)
    ensures
        match content {
            Some(c) => trimmed(c@).len() > 0 ==> r@ == trimmed(c@),
            None => true,
        },
        (content is None || trimmed(content->Some_0@).len() == 0) ==> r@ == DEFAULT_SOURCE_URL@,
{
    match content {
        Some(c) => {
            let t = trim_text(c.as_str());
            if t.as_str().unicode_len() > 0 {
                return t;
            }
            String::from_str(DEFAULT_SOURCE_URL)
        },
        None => String::from_str(DEFAULT_SOURCE_URL),
    }
}

} // verus!
