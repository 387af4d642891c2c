use vstd::prelude::*;

verus! {

/// What `url::Url::parse` gives for `input`: the serialization (`as_str`) of the parsed URL,
/// or `None` where the text is not an absolute URL.
pub uninterp spec fn url_parse(input: Seq<char>) -> Option<Seq<char>>;

/// What `url::Url::scheme` gives for the URL that `url::Url::parse` makes of `text`
/// (the empty text where `text` does not parse).
pub uninterp spec fn url_scheme(text: Seq<char>) -> Seq<char>;

/// What `url::Url::port` gives for the URL that `url::Url::parse` makes of `text`
/// (`None` where `text` does not parse).
pub uninterp spec fn url_port(text: Seq<char>) -> Option<u16>;

/// What `url::Url::host_str` gives for the URL that `url::Url::parse` makes of `text`
/// (`None` where `text` does not parse or the URL has no host).
pub uninterp spec fn url_host(text: Seq<char>) -> Option<Seq<char>>;

/// What `url::Url::path` gives for the URL that `url::Url::parse` makes of `text` (the
/// empty text where `text` does not parse).
pub uninterp spec fn url_path(text: Seq<char>) -> Seq<char>;

/// The serialization of what `url::Url::join` gives for the URL parsed from `text` and
/// `input`; `None` where either step fails.
pub uninterp spec fn url_join(text: Seq<char>, input: Seq<char>) -> Option<Seq<char>>;

/// The serialization of the URL parsed from `text` after `url::Url::set_port(port)`;
/// `None` where parsing or the setter fails.
pub uninterp spec fn url_set_port(text: Seq<char>, port: Option<u16>) -> Option<Seq<char>>;

/// The serialization of the URL parsed from `text` after `url::Url::set_scheme(scheme)`;
/// `None` where parsing or the setter fails.
pub uninterp spec fn url_set_scheme(text: Seq<char>, scheme: Seq<char>) -> Option<Seq<char>>;

/// Whether `scheme` is `http` or `https`, the schemes of web addresses.
pub open spec fn is_web_scheme(scheme: Seq<char>) -> bool {
    scheme == "http"@ || scheme == "https"@
}

/// The port that `url::Url::set_port` keeps when given `port` on a web address of `scheme`:
/// none where `port` is the scheme's default.
pub open spec fn port_after_set(scheme: Seq<char>, port: Option<u16>) -> Option<u16> {
    if (scheme == "http"@ && port == Some(80u16)) || (scheme == "https"@ && port == Some(
        443u16,
    )) {
        None
    } else {
        port
    }
}

/// An absolute URL, held as its serialization.
#[derive(Clone, Debug, PartialEq, Eq)]
pub struct WebUrl {
    text: String,
}

impl View for WebUrl {
    type V = Seq<char>;

    closed spec fn view(&self) -> Seq<char> {
        self.text@
    }
}

/// Calls `url::Url::parse` and returns the serialization (`as_str`) of the result.
/// Trusted: the result is `url_parse` of the input, by the name's definition.
#[verifier::external_body]
fn parse_text(input: &str) -> (r: Option<String>)
    ensures
        match r {
            Some(t) => url_parse(input@) == Some(t@),
            None => url_parse(input@) is None,
        },
{
    match url::Url::parse(input) {
        Ok(u) => Some(u.as_str().to_string()),
        Err(_) => None,
    }
}

/// Calls `url::Url::scheme` on the URL parsed from `text`.
/// Trusted: the result is `url_scheme(text)`, by the name's definition.
#[verifier::external_body]
fn scheme_text(text: &str) -> (r: String)
    ensures
        r@ == url_scheme(text@),
{
    match url::Url::parse(text) {
        Ok(u) => u.scheme().to_string(),
        Err(_) => String::new(),
    }
}

/// Calls `url::Url::port` on the URL parsed from `text`.
/// Trusted: the result is `url_port(text)`, by the name's definition.
#[verifier::external_body]
fn port_of_text(text: &str) -> (r: Option<u16>)
    ensures
        r == url_port(text@),
{
    match url::Url::parse(text) {
        Ok(u) => u.port(),
        Err(_) => None,
    }
}

/// Calls `url::Url::host_str` on the URL parsed from `text`.
/// Trusted: the result is `url_host(text)`, by the name's definition.
#[verifier::external_body]
fn host_text(text: &str) -> (r: Option<String>)
    ensures
        match r {
            Some(h) => url_host(text@) == Some(h@),
            None => url_host(text@) is None,
        },
{
    match url::Url::parse(text) {
        Ok(u) => u.host_str().map(|h| h.to_string()),
        Err(_) => None,
    }
}

/// Calls `url::Url::path` on the URL parsed from `text`.
/// Trusted: the result is `url_path(text)`, by the name's definition.
#[verifier::external_body]
fn path_text(text: &str) -> (r: String)
    ensures
        r@ == url_path(text@),
{
    match url::Url::parse(text) {
        Ok(u) => u.path().to_string(),
        Err(_) => String::new(),
    }
}

/// Calls `url::Url::join` on the URL parsed from `text`.
/// Trusted: the result is `url_join(text, input)`, by the name's definition.
#[verifier::external_body]
fn join_text(text: &str, input: &str) -> (r: Option<String>)
    ensures
        match r {
            Some(t) => url_join(text@, input@) == Some(t@),
            None => url_join(text@, input@) is None,
        },
{
    match url::Url::parse(text) {
        Ok(u) => match u.join(input) {
            Ok(j) => Some(j.as_str().to_string()),
            Err(_) => None,
        },
        Err(_) => None,
    }
}

/// Calls `url::Url::set_port` on the URL parsed from `text`.
/// Trusted: the result is `url_set_port(text, port)`, by the name's definition; and, on a
/// web address (`http` or `https`, which always has a non-empty host), `set_port` succeeds,
/// keeps the scheme, and leaves the port `port`, or none where `port` is the scheme's
/// default, which parsing the new serialization reads back.
#[verifier::external_body]
fn set_port_text(text: &str, port: Option<u16>) -> (r: Option<String>)
    ensures
        match r {
            Some(t) => url_set_port(text@, port) == Some(t@),
            None => url_set_port(text@, port) is None,
        },
        match r {
            Some(t) => is_web_scheme(url_scheme(text@)) ==> url_scheme(t@) == url_scheme(text@)
                && url_port(t@) == port_after_set(url_scheme(text@), port),
            None => !is_web_scheme(url_scheme(text@)),
        },
{
    match url::Url::parse(text) {
        Ok(mut u) => match u.set_port(port) {
            Ok(()) => Some(u.as_str().to_string()),
            Err(()) => None,
        },
        Err(_) => None,
    }
}

/// Calls `url::Url::set_scheme` on the URL parsed from `text`.
/// Trusted: the result is `url_set_scheme(text, scheme)`, by the name's definition.
#[verifier::external_body]
fn set_scheme_text(text: &str, scheme: &str) -> (r: Option<String>)
    ensures
        match r {
            Some(t) => url_set_scheme(text@, scheme@) == Some(t@),
            None => url_set_scheme(text@, scheme@) is None,
        },
{
    match url::Url::parse(text) {
        Ok(mut u) => match u.set_scheme(scheme) {
            Ok(()) => Some(u.as_str().to_string()),
            Err(()) => None,
        },
        Err(_) => None,
    }
}

impl WebUrl {
    /// Parses an absolute URL; `None` where the `url` crate refuses the text.
    pub fn parse(input: &str) -> (r: Option<WebUrl>)
        ensures
            match r {
                Some(u) => url_parse(input@) == Some(u@),
                None => url_parse(input@) is None,
            },
    {
        match parse_text(input) {
            Some(t) => Some(WebUrl { text: t }),
            None => None,
        }
    }

    /// The serialization of this URL.
    pub fn as_str(&self) -> (r: &str)
        ensures
            r@ == self@,
    {
        self.text.as_str()
    }

    /// The scheme of this URL, without the ':'.
    pub fn scheme(&self) -> (r: String)
        ensures
            r@ == url_scheme(self@),
    {
        scheme_text(self.text.as_str())
    }

    /// The port written in this URL, if any (a scheme's default port is never written).
    pub fn port(&self) -> (r: Option<u16>)
        ensures
            r == url_port(self@),
    {
        port_of_text(self.text.as_str())
    }

    /// The host of this URL as written in its serialization, if it has one.
    pub fn host(&self) -> (r: Option<String>)
        ensures
            match r {
                Some(h) => url_host(self@) == Some(h@),
                None => url_host(self@) is None,
            },
    {
        host_text(self.text.as_str())
    }

    /// The path of this URL, such as the path a callback arrives at.
    pub fn path(&self) -> (r: String)
        ensures
            r@ == url_path(self@),
    {
        path_text(self.text.as_str())
    }

    /// Resolves `input` against this URL.
    pub fn join(&self, input: &str) -> (r: Option<WebUrl>)
        ensures
            match r {
                Some(u) => url_join(self@, input@) == Some(u@),
                None => url_join(self@, input@) is None,
            },
    {
        match join_text(self.text.as_str(), input) {
            Some(t) => Some(WebUrl { text: t }),
            None => None,
        }
    }

    /// This URL with its port set to `port`.
    pub fn with_port(&self, port: Option<u16>) -> (r: Option<WebUrl>)
        ensures
            match r {
                Some(u) => url_set_port(self@, port) == Some(u@),
                None => url_set_port(self@, port) is None,
            },
            is_web_scheme(url_scheme(self@)) ==> (r matches Some(u) && url_scheme(u@) == url_scheme(
                self@,
            ) && url_port(u@) == port_after_set(url_scheme(self@), port)),
    {
        match set_port_text(self.text.as_str(), port) {
            Some(t) => Some(WebUrl { text: t }),
            None => None,
        }
    }

    /// This URL with its scheme set to `scheme`.
    pub fn with_scheme(&self, scheme: &str) -> (r: Option<WebUrl>)
        ensures
            match r {
                Some(u) => url_set_scheme(self@, scheme@) == Some(u@),
                None => url_set_scheme(self@, scheme@) is None,
            },
    {
        match set_scheme_text(self.text.as_str(), scheme) {
            Some(t) => Some(WebUrl { text: t }),
            None => None,
        }
    }

    /// The text itself, taken as a serialization without parsing; used only where the
    /// `url` crate refuses a literal that it is expected to accept.
    pub(crate) fn from_unparsed(text: &str) -> (r: WebUrl)
        ensures
            r@ == text@,
    {
        WebUrl { text: text.to_owned() }
    }

    /// A copy of this URL.
    pub fn duplicate(&self) -> (r: WebUrl)
        ensures
            r@ == self@,
    {
        WebUrl { text: self.text.clone() }
    }
}

} // verus!
