//! The values a short URL is made of: its name, its target and the time it
//! was last changed.

use vstd::prelude::*;

use crate::text::{chars_of, render_decimal, str_eq, decimal};
use crate::wire::{eq_ignore_ascii_case, lower_ascii};

verus! {

/// A short URL name was refused.
#[derive(Debug, Clone, Copy, PartialEq, Eq, Structural)]
pub struct InvalidShortUrlName;

impl InvalidShortUrlName {
    pub fn message(&self) -> (r: &'static str) {
        "Invalid short URL name"
    }
}

/// A target URL was refused.
#[derive(Debug, Clone, Copy, PartialEq, Eq, Structural)]
pub struct InvalidUrl;

impl InvalidUrl {
    pub fn message(&self) -> (r: &'static str) {
        "Invalid short URL"
    }
}

/// A short URL was refused, for its name or for its target.
#[derive(Debug, Clone, Copy, PartialEq, Eq, Structural)]
pub enum InvalidShortUrl {
    InvalidName,
    InvalidUrl,
}

impl InvalidShortUrl {
    pub fn message(&self) -> (r: &'static str) {
        match self {
            InvalidShortUrl::InvalidName => "Invalid short URL name",
            InvalidShortUrl::InvalidUrl => "Invalid short URL url",
        }
    }
}

impl From<InvalidShortUrlName> for InvalidShortUrl {
    fn from(e: InvalidShortUrlName) -> (r: InvalidShortUrl) {
        InvalidShortUrl::InvalidName
    }
}

impl vstd::std_specs::convert::FromSpecImpl<InvalidShortUrlName> for InvalidShortUrl {
    open spec fn obeys_from_spec() -> bool {
        true
    }

    open spec fn from_spec(e: InvalidShortUrlName) -> InvalidShortUrl {
        InvalidShortUrl::InvalidName
    }
}

impl From<InvalidUrl> for InvalidShortUrl {
    fn from(e: InvalidUrl) -> (r: InvalidShortUrl) {
        InvalidShortUrl::InvalidUrl
    }
}

impl vstd::std_specs::convert::FromSpecImpl<InvalidUrl> for InvalidShortUrl {
    open spec fn obeys_from_spec() -> bool {
        true
    }

    open spec fn from_spec(e: InvalidUrl) -> InvalidShortUrl {
        InvalidShortUrl::InvalidUrl
    }
}

/// A character a short URL name may hold: an ASCII letter or digit, `-`
/// or `_`.
pub open spec fn is_name_char(c: char) -> bool {
    let u = c as u32;
    ||| 48 <= u <= 57
    ||| 65 <= u <= 90
    ||| 97 <= u <= 122
    ||| u == 45
    ||| u == 95
}

/// A valid short URL name: 2 to 16 name characters.
pub open spec fn valid_short_url_name(s: Seq<char>) -> bool {
    2 <= s.len() <= 16 && forall|i: int| 0 <= i < s.len() ==> is_name_char(#[trigger] s[i])
}

/// The name a short URL is reached by. Names are compared without regard
/// to ASCII case.
#[derive(Debug, Clone)]
pub struct ShortUrlName(String);

impl View for ShortUrlName {
    type V = Seq<char>;

    closed spec fn view(&self) -> Seq<char> {
        self.0@
    }
}

impl ShortUrlName {
    pub const MIN_LENGTH: usize = 2;

    pub const MAX_LENGTH: usize = 16;

    /// Accepts a valid name.
    pub fn parse(value: &str) -> (r: Result<ShortUrlName, InvalidShortUrlName>)
        ensures
            match r {
                Ok(n) => valid_short_url_name(value@) && n@ == value@,
                Err(_) => !valid_short_url_name(value@),
            },
    {
        let cs = chars_of(value);
        if cs.len() < 2 || cs.len() > 16 {
            return Err(InvalidShortUrlName);
        }
        let mut i: usize = 0;
        while i < cs.len()
            invariant
                i <= cs.len(),
                2 <= cs.len() <= 16,
                cs@ == value@,
                forall|j: int| 0 <= j < i ==> is_name_char(#[trigger] cs@[j]),
            decreases cs.len() - i,
        {
            let u = cs[i] as u32;
            if !((48 <= u && u <= 57) || (65 <= u && u <= 90) || (97 <= u && u <= 122) || u == 45
                || u == 95) {
                return Err(InvalidShortUrlName);
            }
            i = i + 1;
        }
        Ok(ShortUrlName(value.to_owned()))
    }

    pub fn as_str(&self) -> (r: &str)
        ensures
            r@ == self@,
    {
        self.0.as_str()
    }
}

impl<'a> TryFrom<&'a str> for ShortUrlName {
    type Error = InvalidShortUrlName;

    fn try_from(value: &'a str) -> (r: Result<ShortUrlName, InvalidShortUrlName>)
        ensures
            match r {
                Ok(n) => valid_short_url_name(value@) && n@ == value@,
                Err(_) => !valid_short_url_name(value@),
            },
    {
        ShortUrlName::parse(value)
    }
}

impl<'a> vstd::std_specs::convert::TryFromSpecImpl<&'a str> for ShortUrlName {
    open spec fn obeys_try_from_spec() -> bool {
        false
    }

    open spec fn try_from_spec(value: &'a str) -> Result<ShortUrlName, InvalidShortUrlName> {
        Err(InvalidShortUrlName)
    }
}

impl PartialEq for ShortUrlName {
    fn eq(&self, other: &ShortUrlName) -> (r: bool) {
        eq_ignore_ascii_case(self.0.as_str(), other.0.as_str())
    }
}

impl vstd::std_specs::cmp::PartialEqSpecImpl for ShortUrlName {
    open spec fn obeys_eq_spec() -> bool {
        true
    }

    open spec fn eq_spec(&self, other: &ShortUrlName) -> bool {
        lower_ascii(self@) == lower_ascii(other@)
    }
}

impl Eq for ShortUrlName {

}

// ----- target URLs -----

/// The serialization `url::Url::parse` gives `s`, or `None` where it
/// refuses `s`.
pub uninterp spec fn url_text_of(s: Seq<char>) -> Option<Seq<char>>;

/// The scheme of `s` as parsed by `url::Url::parse`.
pub uninterp spec fn url_scheme_of(s: Seq<char>) -> Seq<char>;

/// The user name of `s` as parsed by `url::Url::parse` (empty when none).
pub uninterp spec fn url_username_of(s: Seq<char>) -> Seq<char>;

/// Whether `s`, as parsed by `url::Url::parse`, carries a password.
pub uninterp spec fn url_has_password_of(s: Seq<char>) -> bool;

/// Relies on `url::Url::parse`, and on `Url::as_str`, `Url::scheme`,
/// `Url::username` and `Url::password` of what it returns.
#[verifier::external_body]
fn parse_url(s: &str) -> (r: Option<(String, String, String, bool)>)
    ensures
        match r {
            Some(p) => {
                &&& url_text_of(s@) == Some(p.0@)
                &&& p.1@ == url_scheme_of(s@)
                &&& p.2@ == url_username_of(s@)
                &&& p.3 == url_has_password_of(s@)
            },
            None => url_text_of(s@) is None,
        },
{
    url::Url::parse(s).ok().map(
        |u| (u.as_str().to_string(), u.scheme().to_string(), u.username().to_string(), u.password().is_some()),
    )
}

/// The target a string names: an `http` or `https` URL without user name
/// or password, in the serialization the `url` crate gives it.
pub open spec fn target_url_of(s: Seq<char>) -> Option<Seq<char>> {
    match url_text_of(s) {
        Some(t) => if (url_scheme_of(s) == "http"@ || url_scheme_of(s) == "https"@) && !url_has_password_of(s)
            && url_username_of(s).len() == 0 {
            Some(t)
        } else {
            None
        },
        None => None,
    }
}

/// The URL a short URL leads to.
#[derive(Debug, Clone, PartialEq, Eq)]
pub struct Url(String);

impl View for Url {
    type V = Seq<char>;

    closed spec fn view(&self) -> Seq<char> {
        self.0@
    }
}

impl Url {
    /// Accepts an `http` or `https` URL without credentials.
    pub fn parse(s: &str) -> (r: Result<Url, InvalidUrl>)
        ensures
            match r {
                Ok(u) => target_url_of(s@) == Some(u@),
                Err(_) => target_url_of(s@) is None,
            },
    {
        match parse_url(s) {
            Some((text, scheme, username, has_password)) => {
                let web = str_eq(scheme.as_str(), "http") || str_eq(scheme.as_str(), "https");
                if web && !has_password && username.as_str().is_empty() {
                    Ok(Url(text))
                } else {
                    Err(InvalidUrl)
                }
            },
            None => Err(InvalidUrl),
        }
    }

    pub fn as_str(&self) -> (r: &str)
        ensures
            r@ == self@,
    {
        self.0.as_str()
    }
}

impl<'a> TryFrom<&'a str> for Url {
    type Error = InvalidUrl;

    fn try_from(value: &'a str) -> (r: Result<Url, InvalidUrl>)
        ensures
            match r {
                Ok(u) => target_url_of(value@) == Some(u@),
                Err(_) => target_url_of(value@) is None,
            },
    {
        Url::parse(value)
    }
}

impl<'a> vstd::std_specs::convert::TryFromSpecImpl<&'a str> for Url {
    open spec fn obeys_try_from_spec() -> bool {
        false
    }

    open spec fn try_from_spec(value: &'a str) -> Result<Url, InvalidUrl> {
        Err(InvalidUrl)
    }
}

// ----- timestamps -----

/// Seconds since the Unix epoch; only values at or after it exist.
#[derive(Debug, Clone, Copy, Default, PartialEq, Eq, PartialOrd, Ord, Hash, Structural)]
pub struct UnixTimestamp(pub u64);

/// The RFC 3339 text (`1970-01-01T00:00:00Z`, whole seconds, `Z` for UTC)
/// of a count of seconds since the epoch, where `chrono` can represent it.
pub uninterp spec fn rfc3339_of(secs: i64) -> Option<Seq<char>>;

/// Relies on `chrono::DateTime::from_timestamp` and
/// `DateTime::to_rfc3339_opts` with whole seconds and `Z`.
#[verifier::external_body]
fn rfc3339_secs(secs: i64) -> (r: Option<String>)
    ensures
        match r {
            Some(t) => rfc3339_of(secs) == Some(t@),
            None => rfc3339_of(secs) is None,
        },
{
    chrono::DateTime::from_timestamp(secs, 0).map(|x| x.to_rfc3339_opts(chrono::SecondsFormat::Secs, true))
}

impl UnixTimestamp {
    /// The time in RFC 3339 form, where it can be written.
    pub fn iso8601(self) -> (r: Option<String>)
        ensures
            match r {
                Some(t) => self.0 <= i64::MAX && rfc3339_of(self.0 as i64) == Some(t@),
                None => self.0 > i64::MAX || rfc3339_of(self.0 as i64) is None,
            },
    {
        if self.0 > i64::MAX as u64 {
            None
        } else {
            rfc3339_secs(self.0 as i64)
        }
    }

    /// The count of seconds in decimal.
    pub fn to_string(&self) -> (r: String)
        ensures
            r@ == decimal(self.0 as nat),
    {
        render_decimal(self.0)
    }
}

/// A short URL: a name, the URL it leads to, and when it last changed.
#[derive(Debug, Clone, PartialEq, Eq)]
pub struct ShortUrl {
    pub name: ShortUrlName,
    pub url: Url,
    pub last_modified: Option<UnixTimestamp>,
}

impl ShortUrl {
    /// A short URL from its name and target, the name checked first.
    pub fn new(name: &str, url: &str, last_modified: Option<UnixTimestamp>) -> (r: Result<ShortUrl, InvalidShortUrl>)
        ensures
            match r {
                Ok(s) => {
                    &&& valid_short_url_name(name@)
                    &&& s.name@ == name@
                    &&& target_url_of(url@) == Some(s.url@)
                    &&& s.last_modified == last_modified
                },
                Err(e) => if !valid_short_url_name(name@) {
                    e == InvalidShortUrl::InvalidName
                } else {
                    target_url_of(url@) is None && e == InvalidShortUrl::InvalidUrl
                },
            },
    {
        let name = match ShortUrlName::parse(name) {
            Ok(n) => n,
            Err(e) => {
                return Err(InvalidShortUrl::from(e));
            },
        };
        let url = match Url::parse(url) {
            Ok(u) => u,
            Err(e) => {
                return Err(InvalidShortUrl::from(e));
            },
        };
        Ok(ShortUrl { name, url, last_modified })
    }
}

} // verus!
