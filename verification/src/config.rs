use vstd::prelude::*;

use crate::text::{clone_opt_string, clone_strings, join_strings, join_texts, str_eq};
use crate::web_url::{
    is_web_scheme, url_join, url_parse, url_port, url_scheme, url_set_port, url_set_scheme, WebUrl,
};

verus! {

/// The port of plain HTTP.
pub const HTTP_PORT: u16 = 80;

/// The port of HTTPS.
pub const TLS_PORT: u16 = 443;

/// Where the site keeps its state when the configuration names no folder.
pub const DEFAULT_SITE_FOLDER: &'static str = ".site";

/// The address the server answers on when nothing else is configured.
pub const LOCALHOST: &'static str = "http://localhost";

/// How certificates are obtained when the site is served over HTTPS.
#[derive(Debug)]
pub struct TlsConfig {
    builder_contacts: Vec<String>,
    poll_attempts: usize,
    poll_interval_seconds: u64,
}

pub struct TlsConfigView {
    pub builder_contacts: Seq<Seq<char>>,
    pub poll_attempts: usize,
    pub poll_interval_seconds: u64,
}

impl View for TlsConfig {
    type V = TlsConfigView;

    closed spec fn view(&self) -> TlsConfigView {
        TlsConfigView {
            builder_contacts: self.builder_contacts.deep_view(),
            poll_attempts: self.poll_attempts,
            poll_interval_seconds: self.poll_interval_seconds,
        }
    }
}

impl TlsConfig {
    pub fn new(builder_contacts: Vec<String>, poll_attempts: usize, poll_interval_seconds: u64) -> (r: Self)
        ensures
            r@.builder_contacts == builder_contacts.deep_view(),
            r@.poll_attempts == poll_attempts,
            r@.poll_interval_seconds == poll_interval_seconds,
    {
        TlsConfig { builder_contacts, poll_attempts, poll_interval_seconds }
    }

    pub fn builder_contacts(&self) -> (r: &Vec<String>)
        ensures
            r.deep_view() == self@.builder_contacts,
    {
        &self.builder_contacts
    }

    pub fn poll_attempts(&self) -> (r: usize)
        ensures
            r == self@.poll_attempts,
    {
        self.poll_attempts
    }

    pub fn poll_interval_seconds(&self) -> (r: u64)
        ensures
            r == self@.poll_interval_seconds,
    {
        self.poll_interval_seconds
    }

    pub fn duplicate(&self) -> (r: Self)
        ensures
            r@ == self@,
    {
        TlsConfig {
            builder_contacts: clone_strings(&self.builder_contacts),
            poll_attempts: self.poll_attempts,
            poll_interval_seconds: self.poll_interval_seconds,
        }
    }
}

/// Where the site is reached: the address it listens on, the address the outside world
/// uses (if different), and how certificates are obtained.
#[derive(Debug)]
pub struct DomainConfig {
    external_url: Option<WebUrl>,
    tls_config: Option<TlsConfig>,
    url: WebUrl,
}

pub struct DomainConfigView {
    pub external_url: Option<Seq<char>>,
    pub tls_config: Option<TlsConfigView>,
    pub url: Seq<char>,
}

pub open spec fn opt_url_view(u: Option<WebUrl>) -> Option<Seq<char>> {
    match u {
        Some(x) => Some(x@),
        None => None,
    }
}

pub open spec fn opt_tls_view(t: Option<TlsConfig>) -> Option<TlsConfigView> {
    match t {
        Some(x) => Some(x@),
        None => None,
    }
}

pub open spec fn opt_text_view(t: Option<String>) -> Option<Seq<char>> {
    match t {
        Some(x) => Some(x@),
        None => None,
    }
}

impl View for DomainConfig {
    type V = DomainConfigView;

    closed spec fn view(&self) -> DomainConfigView {
        DomainConfigView {
            external_url: opt_url_view(self.external_url),
            tls_config: opt_tls_view(self.tls_config),
            url: self.url@,
        }
    }
}

/// The address of the default domain configuration: the `url` crate's reading of
/// `http://localhost`.
pub open spec fn default_url() -> Seq<char> {
    match url_parse(LOCALHOST@) {
        Some(t) => t,
        None => LOCALHOST@,
    }
}

/// The domain configuration in force where none is configured.
pub open spec fn default_domain_config() -> DomainConfigView {
    DomainConfigView {
        external_url: None,
        tls_config: Some(
            TlsConfigView { builder_contacts: Seq::empty(), poll_attempts: 3, poll_interval_seconds: 30 },
        ),
        url: default_url(),
    }
}

impl DomainConfigView {
    /// The address in use: the external one if configured, else the listening one.
    pub open spec fn url_in_use(self) -> Seq<char> {
        match self.external_url {
            Some(u) => u,
            None => self.url,
        }
    }
}

/// Whether `url` is written exactly as the default address.
pub open spec fn url_is_default_spec(url: Seq<char>) -> bool {
    url == LOCALHOST@
}

/// Whether the serialization of `url` is exactly `http://localhost` (then serialization
/// leaves it out).
pub fn url_is_default(url: &WebUrl) -> (r: bool)
    ensures
        r == url_is_default_spec(url@),
{
    str_eq(url.as_str(), LOCALHOST)
}

impl DomainConfig {
    /// A domain configuration that listens on `url`, with no external address and no TLS
    /// configuration.
    pub fn new(url: &str) -> (r: Self)
        requires
            url_parse(url@) is Some,
        ensures
            r@.external_url is None,
            r@.tls_config is None,
            Some(r@.url) == url_parse(url@),
    {
        match WebUrl::parse(url) {
            Some(u) => DomainConfig { external_url: None, tls_config: None, url: u },
            None => {
                assert(false);
                DomainConfig::default()
            },
        }
    }

    /// As `new`, or `None` where `url` is not an absolute URL.
    pub fn try_new(url: &str) -> (r: Option<Self>)
        ensures
            match r {
                Some(d) => {
                    &&& url_parse(url@) is Some
                    &&& d@.external_url is None
                    &&& d@.tls_config is None
                    &&& Some(d@.url) == url_parse(url@)
                },
                None => url_parse(url@) is None,
            },
    {
        match WebUrl::parse(url) {
            Some(_) => Some(DomainConfig::new(url)),
            None => None,
        }
    }

    pub fn with_all_properties(external_url: Option<WebUrl>, tls_config: Option<TlsConfig>, url: WebUrl) -> (r: Self)
        ensures
            r@.external_url == opt_url_view(external_url),
            r@.tls_config == opt_tls_view(tls_config),
            r@.url == url@,
    {
        DomainConfig { external_url, tls_config, url }
    }

    pub fn default() -> (r: Self)
        ensures
            r@ == default_domain_config(),
    {
        let url = match WebUrl::parse(LOCALHOST) {
            Some(u) => u,
            None => WebUrl::from_unparsed(LOCALHOST),
        };
        let contacts: Vec<String> = Vec::new();
        assert(contacts.deep_view() =~= Seq::<Seq<char>>::empty());
        DomainConfig {
            external_url: None,
            tls_config: Some(TlsConfig { builder_contacts: contacts, poll_attempts: 3, poll_interval_seconds: 30 }),
            url,
        }
    }

    pub fn external_url(&self) -> (r: &Option<WebUrl>)
        ensures
            opt_url_view(*r) == self@.external_url,
    {
        &self.external_url
    }

    pub fn tls_config(&self) -> (r: &Option<TlsConfig>)
        ensures
            opt_tls_view(*r) == self@.tls_config,
    {
        &self.tls_config
    }

    pub fn url(&self) -> (r: &WebUrl)
        ensures
            r@ == self@.url,
    {
        &self.url
    }

    /// The contacts for certificate requests; the TLS configuration must be present.
    pub fn builder_contacts(&self) -> (r: Vec<String>)
        requires
            self@.tls_config is Some,
        ensures
            r.deep_view() == self@.tls_config->0.builder_contacts,
    {
        match &self.tls_config {
            Some(t) => clone_strings(&t.builder_contacts),
            None => Vec::new(),
        }
    }

    /// How often a certificate order is polled; the TLS configuration must be present.
    pub fn poll_attempts(&self) -> (r: usize)
        requires
            self@.tls_config is Some,
        ensures
            r == self@.tls_config->0.poll_attempts,
    {
        match &self.tls_config {
            Some(t) => t.poll_attempts,
            None => 0,
        }
    }

    /// Seconds between polls of a certificate order; the TLS configuration must be present.
    pub fn poll_interval_seconds(&self) -> (r: u64)
        requires
            self@.tls_config is Some,
        ensures
            r == self@.tls_config->0.poll_interval_seconds,
    {
        match &self.tls_config {
            Some(t) => t.poll_interval_seconds,
            None => 0,
        }
    }

    /// The address in use: the external one if configured, else the listening one.
    pub fn url_in_use(&self) -> (r: WebUrl)
        ensures
            r@ == self@.url_in_use(),
    {
        match &self.external_url {
            Some(u) => u.duplicate(),
            None => self.url.duplicate(),
        }
    }

    pub fn duplicate(&self) -> (r: Self)
        ensures
            r@ == self@,
    {
        DomainConfig {
            external_url: match &self.external_url {
                Some(u) => Some(u.duplicate()),
                None => None,
            },
            tls_config: match &self.tls_config {
                Some(t) => Some(t.duplicate()),
                None => None,
            },
            url: self.url.duplicate(),
        }
    }
}

} // verus!

verus! {

/// The configuration of the site.
#[derive(Debug)]
pub struct Config {
    domain_config: Option<DomainConfig>,
    email: Option<String>,
    exit_after: Option<u64>,
    site_state_folder: Option<String>,
}

pub struct ConfigView {
    pub domain_config: Option<DomainConfigView>,
    pub email: Option<Seq<char>>,
    pub exit_after: Option<u64>,
    pub site_state_folder: Option<Seq<char>>,
}

pub open spec fn opt_domain_view(d: Option<DomainConfig>) -> Option<DomainConfigView> {
    match d {
        Some(x) => Some(x@),
        None => None,
    }
}

impl View for Config {
    type V = ConfigView;

    closed spec fn view(&self) -> ConfigView {
        ConfigView {
            domain_config: opt_domain_view(self.domain_config),
            email: opt_text_view(self.email),
            exit_after: self.exit_after,
            site_state_folder: opt_text_view(self.site_state_folder),
        }
    }
}

/// The message for a site served over HTTPS without an email address for certificates.
pub open spec fn missing_email_message(url: Seq<char>) -> Seq<char> {
    url + " uses HTTPS, but no email address was provided for certificate requests"@
}

impl ConfigView {
    /// The domain configuration in force: the configured one, else the default.
    pub open spec fn effective_domain_config(self) -> DomainConfigView {
        match self.domain_config {
            Some(d) => d,
            None => default_domain_config(),
        }
    }

    pub open spec fn uses_tls(self) -> bool {
        url_scheme(self.effective_domain_config().url_in_use()) == "https"@
    }

    pub open spec fn ws_scheme(self) -> Seq<char> {
        if self.uses_tls() {
            "wss"@
        } else {
            "ws"@
        }
    }

    /// The port served on: the one written in the listening address, else the default
    /// port of the scheme in use.
    pub open spec fn port(self) -> u16 {
        match url_port(self.effective_domain_config().url) {
            Some(p) => p,
            None => if self.uses_tls() {
                TLS_PORT
            } else {
                HTTP_PORT
            },
        }
    }

    pub open spec fn site_folder(self) -> Seq<char> {
        match self.site_state_folder {
            Some(f) => f,
            None => DEFAULT_SITE_FOLDER@,
        }
    }

    /// What is wrong with this configuration, in the order it is reported.
    pub open spec fn sanity_errors(self) -> Seq<Seq<char>> {
        if self.uses_tls() {
            let email_errors = if self.email is None {
                seq![missing_email_message(self.effective_domain_config().url)]
            } else {
                Seq::empty()
            };
            let tls_errors = match self.effective_domain_config().tls_config {
                Some(t) => if t.builder_contacts.len() == 0 {
                    seq!["No builder contacts configured"@]
                } else {
                    Seq::empty()
                },
                None => seq!["No TLS config found"@],
            };
            email_errors + tls_errors
        } else {
            Seq::empty()
        }
    }

    /// The configuration with the exit delay replaced where one is given.
    pub open spec fn merge_exit_after(self, exit_after: Option<u64>) -> ConfigView {
        if exit_after is Some {
            ConfigView { exit_after, ..self }
        } else {
            self
        }
    }
}

impl Config {
    pub fn with_all_properties(
        domain_config: Option<DomainConfig>,
        email: Option<String>,
        exit_after: Option<u64>,
        site_state_folder: Option<String>,
    ) -> (r: Self)
        ensures
            r@.domain_config == opt_domain_view(domain_config),
            r@.email == opt_text_view(email),
            r@.exit_after == exit_after,
            r@.site_state_folder == opt_text_view(site_state_folder),
    {
        Config { domain_config, email, exit_after, site_state_folder }
    }

    /// Whether a domain configuration is given (rather than the default one in force).
    pub fn has_domain_config(&self) -> (r: bool)
        ensures
            r == self@.domain_config is Some,
    {
        self.domain_config.is_some()
    }

    /// The domain configuration in force: the configured one, else the default one.
    pub fn domain_config(&self) -> (r: DomainConfig)
        ensures
            r@ == self@.effective_domain_config(),
    {
        match &self.domain_config {
            Some(d) => d.duplicate(),
            None => DomainConfig::default(),
        }
    }

    pub fn email(&self) -> (r: &Option<String>)
        ensures
            opt_text_view(*r) == self@.email,
    {
        &self.email
    }

    /// The number of seconds after which the program stops, if any.
    pub fn exit_after(&self) -> (r: Option<u64>)
        ensures
            r == self@.exit_after,
    {
        self.exit_after
    }

    /// The configuration with the exit delay replaced where `exit_after` is given.
    pub fn merge_exit_after(self, exit_after: Option<u64>) -> (r: Self)
        ensures
            r@ == self@.merge_exit_after(exit_after),
    {
        let mut c = self;
        if exit_after.is_some() {
            c.exit_after = exit_after;
        }
        c
    }

    /// The configuration with the listening address's port set to `port`, where one is
    /// given; `None` where the `url` crate refuses to set that port.
    pub fn merge_port(self, port: Option<u16>) -> (r: Option<Self>)
        ensures
            match port {
                None => r matches Some(c) && c@ == self@,
                Some(p) => {
                    let d = self@.effective_domain_config();
                    match url_set_port(d.url, Some(p)) {
                        Some(u) => r matches Some(c) && c@ == (ConfigView {
                            domain_config: Some(DomainConfigView { url: u, ..d }),
                            ..self@
                        }),
                        None => r is None,
                    }
                },
            },
            port matches Some(p) ==> (self@.effective_domain_config().external_url is None
                && is_web_scheme(url_scheme(self@.effective_domain_config().url)) ==> (r matches Some(
                c,
            ) && c@.port() == p)),
    {
        match port {
            None => Some(self),
            Some(p) => {
                let mut domain_config = self.domain_config();
                match domain_config.url.with_port(Some(p)) {
                    Some(u) => {
                        domain_config.url = u;
                        let mut c = self;
                        c.domain_config = Some(domain_config);
                        proof {
                            reveal_strlit("http");
                            reveal_strlit("https");
                            assert("http"@.len() != "https"@.len());
                            assert(c@.effective_domain_config().url == u@);
                        }
                        Some(c)
                    },
                    None => None,
                }
            },
        }
    }

    /// The configuration the program runs with: the one read from the configuration file,
    /// if any (else one with nothing set but the exit delay), with the exit delay and the
    /// port of the command line merged in. `None` where the port cannot be set.
    pub fn new(loaded: Option<Config>, exit_after: Option<u64>, port: Option<u16>) -> (r: Option<Self>)
        ensures
            ({
                let base = match loaded {
                    Some(c) => c@.merge_exit_after(exit_after),
                    None => ConfigView {
                        domain_config: None,
                        email: None,
                        exit_after,
                        site_state_folder: None,
                    },
                };
                match port {
                    None => r matches Some(c) && c@ == base,
                    Some(p) => {
                        let d = base.effective_domain_config();
                        match url_set_port(d.url, Some(p)) {
                            Some(u) => r matches Some(c) && c@ == (ConfigView {
                                domain_config: Some(DomainConfigView { url: u, ..d }),
                                ..base
                            }),
                            None => r is None,
                        }
                    },
                }
            }),
    {
        let base = match loaded {
            Some(c) => c.merge_exit_after(exit_after),
            None => Config { domain_config: None, email: None, exit_after, site_state_folder: None },
        };
        base.merge_port(port)
    }

    /// The port served on.
    pub fn port(&self) -> (r: u16)
        ensures
            r == self@.port(),
    {
        let d = self.domain_config();
        match d.url.port() {
            Some(p) => p,
            None => if self.uses_tls() {
                TLS_PORT
            } else {
                HTTP_PORT
            },
        }
    }

    /// The address the OAuth2 provider redirects to: `/auth/google` on the address in use;
    /// `None` where the `url` crate cannot join it.
    pub fn redirect_uri(&self) -> (r: Option<String>)
        ensures
            match url_join(self@.effective_domain_config().url_in_use(), "/auth/google"@) {
                Some(u) => r matches Some(s) && s@ == u,
                None => r is None,
            },
    {
        let d = self.domain_config();
        match d.url_in_use().join("/auth/google") {
            Some(u) => Some(u.as_str().to_owned()),
            None => None,
        }
    }

    /// Checks that a site served over HTTPS has what certificates need; the error lists
    /// every problem, separated by ", ".
    pub fn sanity_check(&self) -> (r: Result<(), String>)
        ensures
            self@.uses_tls() && (self@.effective_domain_config().tls_config matches Some(t)
                && t.builder_contacts.len() == 0) ==> r is Err,
            self@.uses_tls() && self@.effective_domain_config().tls_config is None ==> r is Err,
            self@.uses_tls() && self@.email is None ==> r is Err,
            !self@.uses_tls() ==> r is Ok,
            self@.sanity_errors().len() == 0 ==> r is Ok,
            self@.sanity_errors().len() != 0 ==> (r matches Err(e) && e@ == join_texts(
                self@.sanity_errors(),
                ", "@,
            )),
    {
        let mut errors: Vec<String> = Vec::new();
        let ghost cv = self@;
        if self.uses_tls() {
            let d = self.domain_config();
            if self.email.is_none() {
                let mut m = d.url.as_str().to_owned();
                m.append(" uses HTTPS, but no email address was provided for certificate requests");
                errors.push(m);
            }
            match &d.tls_config {
                Some(t) => {
                    if t.builder_contacts.len() == 0 {
                        errors.push("No builder contacts configured".to_owned());
                    }
                },
                None => {
                    errors.push("No TLS config found".to_owned());
                },
            }
        }
        assert(errors.deep_view() =~= cv.sanity_errors());
        if errors.len() == 0 {
            Ok(())
        } else {
            Err(join_strings(&errors, ", "))
        }
    }

    /// The folder where the site keeps its state.
    pub fn site_folder(&self) -> (r: &str)
        ensures
            r@ == self@.site_folder(),
    {
        match &self.site_state_folder {
            Some(f) => f.as_str(),
            None => DEFAULT_SITE_FOLDER,
        }
    }

    /// Whether the address in use is an HTTPS address.
    pub fn uses_tls(&self) -> (r: bool)
        ensures
            r == self@.uses_tls(),
    {
        let d = self.domain_config();
        let scheme = d.url_in_use().scheme();
        str_eq(scheme.as_str(), "https")
    }

    /// The address of the web socket: `/ws` on the address in use, with the scheme `ws`
    /// or `wss`; `None` where the `url` crate refuses either step.
    pub fn websocket_url(&self) -> (r: Option<WebUrl>)
        ensures
            match url_join(self@.effective_domain_config().url_in_use(), "/ws"@) {
                Some(j) => match url_set_scheme(j, self@.ws_scheme()) {
                    Some(u) => r matches Some(w) && w@ == u,
                    None => r is None,
                },
                None => r is None,
            },
    {
        let d = self.domain_config();
        match d.url_in_use().join("/ws") {
            Some(j) => j.with_scheme(self.ws_scheme()),
            None => None,
        }
    }

    /// `wss` for a site served over HTTPS, else `ws`.
    pub fn ws_scheme(&self) -> (r: &'static str)
        ensures
            r@ == self@.ws_scheme(),
    {
        if self.uses_tls() {
            "wss"
        } else {
            "ws"
        }
    }

    pub fn duplicate(&self) -> (r: Self)
        ensures
            r@ == self@,
    {
        Config {
            domain_config: match &self.domain_config {
                Some(d) => Some(d.duplicate()),
                None => None,
            },
            email: clone_opt_string(&self.email),
            exit_after: self.exit_after,
            site_state_folder: clone_opt_string(&self.site_state_folder),
        }
    }
}

} // verus!

verus! {

/// A site served over HTTPS whose TLS configuration lists no builder contacts is refused,
/// with "No builder contacts configured" among the errors, whether or not an email address
/// is given (`c` is any such configuration); likewise a missing TLS configuration, with
/// "No TLS config found"; a missing email address is reported whatever the TLS
/// configuration; and with an email address and contacts, nothing is wrong.
pub proof fn https_needs_contacts_and_email(c: ConfigView)
    requires
        c.uses_tls(),
    ensures
        (c.effective_domain_config().tls_config matches Some(t) && t.builder_contacts.len() == 0)
            ==> c.sanity_errors().contains("No builder contacts configured"@),
        c.effective_domain_config().tls_config is None ==> c.sanity_errors().contains(
            "No TLS config found"@,
        ),
        c.email is None ==> c.sanity_errors().contains(missing_email_message(c.effective_domain_config().url)),
        c.email is Some && (c.effective_domain_config().tls_config matches Some(t)
            && t.builder_contacts.len() > 0) ==> c.sanity_errors().len() == 0,
{
    let email_errors = if c.email is None {
        seq![missing_email_message(c.effective_domain_config().url)]
    } else {
        Seq::empty()
    };
    if c.effective_domain_config().tls_config matches Some(t) && t.builder_contacts.len() == 0 {
        assert(c.sanity_errors() == email_errors + seq!["No builder contacts configured"@]);
        assert(c.sanity_errors()[email_errors.len() as int] == "No builder contacts configured"@);
    }
    if c.effective_domain_config().tls_config is None {
        assert(c.sanity_errors() == email_errors + seq!["No TLS config found"@]);
        assert(c.sanity_errors()[email_errors.len() as int] == "No TLS config found"@);
    }
    if c.email is None {
        assert(c.sanity_errors()[0] == missing_email_message(c.effective_domain_config().url));
    }
}


/// A site that is not served over HTTPS always passes the sanity check.
pub proof fn plain_http_is_sane(c: ConfigView)
    requires
        !c.uses_tls(),
    ensures
        c.sanity_errors().len() == 0,
{
}

} // verus!
