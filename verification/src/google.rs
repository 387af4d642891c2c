use vstd::prelude::*;

use crate::config::{Config, ConfigView};
use crate::entity::Entity;
use crate::identifiers::{DataKind, EntityUser, IdentifiableSource};
use crate::lifecycle::{HandleId, Lifecycle, RecvFailure};
use crate::text::{decimal, decimal_text, str_eq};
use crate::web_url::url_host;

verus! {

/// The events of the Google sources.
#[derive(Clone, Debug, PartialEq, Eq)]
pub enum Events {
    /// The user should be sent to this address to authorize access.
    OauthRedirectUrl(String),
}

/// The name under which the Google source is asked to read its configuration again.
pub const GOOGLE_MODULE: &'static str = "google";

/// The name under which the Google Keep source is asked to read its configuration again.
pub const GOOGLE_KEEP_MODULE: &'static str = "google_keep";

/// The default authorization address of Google.
pub const DEFAULT_AUTH_URI: &'static str = "https://accounts.google.com/o/oauth2/auth";

/// The default address of Google's certificates.
pub const DEFAULT_AUTH_PROVIDER_X509_CERT_URL: &'static str = "https://www.googleapis.com/oauth2/v1/certs";

/// The default token address of Google.
pub const DEFAULT_TOKEN_URI: &'static str = "https://oauth2.googleapis.com/token";

/// The value of the form field `key`: that of the last pair with that key, as a form read
/// into a map keeps it.
pub open spec fn form_value(form: Seq<(String, String)>, key: Seq<char>) -> Option<Seq<char>>
    decreases form.len(),
{
    if form.len() == 0 {
        None
    } else if form.last().0@ == key {
        Some(form.last().1@)
    } else {
        form_value(form.drop_last(), key)
    }
}

/// The value of the form field `key`, or `default` where the form has none.
pub open spec fn form_value_or(form: Seq<(String, String)>, key: Seq<char>, default: Seq<char>) -> Seq<char> {
    match form_value(form, key) {
        Some(v) => v,
        None => default,
    }
}

/// Looks up the form field `key`; `None` where the form has none.
pub fn lookup(form: &Vec<(String, String)>, key: &str) -> (r: Option<String>)
    ensures
        match r {
            Some(v) => form_value(form@, key@) == Some(v@),
            None => form_value(form@, key@) is None,
        },
{
    let mut i: usize = form.len();
    assert(form@.take(i as int) =~= form@);
    while i > 0
        invariant
            0 <= i <= form.len(),
            form_value(form@, key@) == form_value(form@.take(i as int), key@),
        decreases i,
    {
        assert(form@.take(i as int).drop_last() =~= form@.take(i - 1));
        if str_eq(form[i - 1].0.as_str(), key) {
            return Some(form[i - 1].1.clone());
        }
        i = i - 1;
    }
    None
}

/// Looks up the form field `key`, falling back on `default`.
pub fn lookup_or(form: &Vec<(String, String)>, key: &str, default: &str) -> (r: String)
    ensures
        r@ == form_value_or(form@, key@, default@),
{
    match lookup(form, key) {
        Some(v) => v,
        None => default.to_owned(),
    }
}

/// The attributes of a form field with a value.
pub open spec fn field_text(name: Seq<char>, value: Seq<char>) -> Seq<char> {
    "name=\""@ + name + "\" value=\""@ + value + "\""@
}

/// The attributes of a form field without a value.
pub open spec fn empty_field_text(name: Seq<char>) -> Seq<char> {
    "name=\""@ + name + "\""@
}

/// The host the OAuth2 provider sends the user back to: that of the address in use where a
/// domain is configured, else `localhost`.
pub open spec fn redirect_host(c: ConfigView) -> Option<Seq<char>> {
    match c.domain_config {
        Some(d) => url_host(d.url_in_use()),
        None => Some("localhost"@),
    }
}

/// The address the OAuth2 provider sends the user back to on `host`: the scheme in use, the
/// port served on, and the path `/sessions/auth/google`.
pub open spec fn redirect_address(c: ConfigView, host: Seq<char>) -> Seq<char> {
    (if c.uses_tls() {
        "https"@
    } else {
        "http"@
    }) + "://"@ + host + ":"@ + decimal_text(c.port() as nat) + "/sessions/auth/google"@
}

/// The Google OAuth2 settings that the user enters in the configuration page.
#[derive(Clone, Debug, PartialEq, Eq)]
pub struct ConfigQuery {
    pub project_id: String,
    pub client_id: String,
    pub client_secret: String,
    pub auth_uri: String,
    pub auth_provider_x509_cert_url: String,
    pub token_uri: String,
}

/// The settings of an OAuth2 application, as Google writes them.
#[derive(Clone, Debug, PartialEq, Eq)]
pub struct ApplicationSecret {
    pub client_id: String,
    pub client_secret: String,
    pub token_uri: String,
    pub auth_uri: String,
    pub redirect_uris: Vec<String>,
    pub project_id: Option<String>,
    pub client_email: Option<String>,
    pub auth_provider_x509_cert_url: Option<String>,
    pub client_x509_cert_url: Option<String>,
}

/// The configuration of the Google Keep source.
#[derive(Clone, Debug, PartialEq, Eq)]
pub struct KeepConfig {
    pub web: ApplicationSecret,
}

/// The redirect address of a Google Keep configuration read from a file that gives none.
pub const KEEP_DEFAULT_REDIRECT_URI: &'static str = "http://localhost:8080/api/sessions/oauth/google";

/// The redirect addresses of a Google Keep configuration read from a file: those given,
/// else the one default address.
pub fn keep_redirect_uris(given: Option<Vec<String>>) -> (r: Vec<String>)
    ensures
        match given {
            Some(v) => r@ == v@,
            None => r@.len() == 1 && r@[0]@ == KEEP_DEFAULT_REDIRECT_URI@,
        },
{
    match given {
        Some(v) => v,
        None => {
            let mut r: Vec<String> = Vec::new();
            r.push(KEEP_DEFAULT_REDIRECT_URI.to_owned());
            r
        },
    }
}

/// The errors of the Google Keep source.
#[derive(Clone, Debug, PartialEq, Eq)]
pub enum KeepError {
    BadConfig(String),
    BadServiceAccountKeyYaml(String),
    BuilderError(String),
    Unknown,
}

impl ConfigQuery {
    /// The settings entered in a form: each field's value, else nothing for the project and
    /// the client, and Google's addresses for the others.
    pub fn new(form: &Vec<(String, String)>) -> (r: Self)
        ensures
            r.project_id@ == form_value_or(form@, "project_id"@, Seq::empty()),
            r.client_id@ == form_value_or(form@, "client_id"@, Seq::empty()),
            r.client_secret@ == form_value_or(form@, "client_secret"@, Seq::empty()),
            r.auth_uri@ == form_value_or(form@, "auth_uri"@, DEFAULT_AUTH_URI@),
            r.auth_provider_x509_cert_url@ == form_value_or(
                form@,
                "auth_provider_x509_cert_url"@,
                DEFAULT_AUTH_PROVIDER_X509_CERT_URL@,
            ),
            r.token_uri@ == form_value_or(form@, "token_uri"@, DEFAULT_TOKEN_URI@),
    {
        let empty = String::new();
        ConfigQuery {
            project_id: lookup_or(form, "project_id", empty.as_str()),
            client_id: lookup_or(form, "client_id", empty.as_str()),
            client_secret: lookup_or(form, "client_secret", empty.as_str()),
            auth_uri: lookup_or(form, "auth_uri", DEFAULT_AUTH_URI),
            auth_provider_x509_cert_url: lookup_or(
                form,
                "auth_provider_x509_cert_url",
                DEFAULT_AUTH_PROVIDER_X509_CERT_URL,
            ),
            token_uri: lookup_or(form, "token_uri", DEFAULT_TOKEN_URI),
        }
    }

    /// The attributes `name="…" value="…"` of a form field.
    pub fn format(name: &str, value: &str) -> (r: String)
        ensures
            r@ == field_text(name@, value@),
    {
        let mut r = "name=\"".to_owned();
        r.append(name);
        r.append("\" value=\"");
        r.append(value);
        r.append("\"");
        r
    }

    /// The attribute `name="…"` of an empty form field.
    pub fn format_empty(name: &str) -> (r: String)
        ensures
            r@ == empty_field_text(name@),
    {
        let mut r = "name=\"".to_owned();
        r.append(name);
        r.append("\"");
        r
    }

    /// The fields of an empty configuration page: no value for the project and the client,
    /// Google's addresses for the others.
    pub fn empty_page_data() -> (r: Vec<(&'static str, String)>)
        ensures
            r.len() == 6,
            r@[0].0@ == "project_id"@ && r@[0].1@ == empty_field_text("project_id"@),
            r@[1].0@ == "client_id"@ && r@[1].1@ == empty_field_text("client_id"@),
            r@[2].0@ == "client_secret"@ && r@[2].1@ == empty_field_text("client_secret"@),
            r@[3].0@ == "auth_uri"@ && r@[3].1@ == field_text("auth_uri"@, DEFAULT_AUTH_URI@),
            r@[4].0@ == "auth_provider_x509_cert_url"@ && r@[4].1@ == field_text(
                "auth_provider_x509_cert_url"@,
                DEFAULT_AUTH_PROVIDER_X509_CERT_URL@,
            ),
            r@[5].0@ == "token_uri"@ && r@[5].1@ == field_text("token_uri"@, DEFAULT_TOKEN_URI@),
    {
        let mut r: Vec<(&'static str, String)> = Vec::new();
        r.push(("project_id", Self::format_empty("project_id")));
        r.push(("client_id", Self::format_empty("client_id")));
        r.push(("client_secret", Self::format_empty("client_secret")));
        r.push(("auth_uri", Self::format("auth_uri", DEFAULT_AUTH_URI)));
        r.push(
            (
                "auth_provider_x509_cert_url",
                Self::format("auth_provider_x509_cert_url", DEFAULT_AUTH_PROVIDER_X509_CERT_URL),
            ),
        );
        r.push(("token_uri", Self::format("token_uri", DEFAULT_TOKEN_URI)));
        r
    }

    /// The fields of the configuration page showing these settings.
    pub fn to_page_data(&self) -> (r: Vec<(&'static str, String)>)
        ensures
            r.len() == 6,
            r@[0].0@ == "project_id"@ && r@[0].1@ == field_text("project_id"@, self.project_id@),
            r@[1].0@ == "client_id"@ && r@[1].1@ == field_text("client_id"@, self.client_id@),
            r@[2].0@ == "client_secret"@ && r@[2].1@ == field_text("client_secret"@, self.client_secret@),
            r@[3].0@ == "auth_uri"@ && r@[3].1@ == field_text("auth_uri"@, self.auth_uri@),
            r@[4].0@ == "auth_provider_x509_cert_url"@ && r@[4].1@ == field_text(
                "auth_provider_x509_cert_url"@,
                self.auth_provider_x509_cert_url@,
            ),
            r@[5].0@ == "token_uri"@ && r@[5].1@ == field_text("token_uri"@, self.token_uri@),
    {
        let mut r: Vec<(&'static str, String)> = Vec::new();
        r.push(("project_id", Self::format("project_id", self.project_id.as_str())));
        r.push(("client_id", Self::format("client_id", self.client_id.as_str())));
        r.push(("client_secret", Self::format("client_secret", self.client_secret.as_str())));
        r.push(("auth_uri", Self::format("auth_uri", self.auth_uri.as_str())));
        r.push(
            (
                "auth_provider_x509_cert_url",
                Self::format("auth_provider_x509_cert_url", self.auth_provider_x509_cert_url.as_str()),
            ),
        );
        r.push(("token_uri", Self::format("token_uri", self.token_uri.as_str())));
        r
    }

    /// The addresses the OAuth2 provider may send the user back to: the one of
    /// `redirect_address`; `None` where the configured address has no host.
    pub fn make_redirect_uris(config: &Config) -> (r: Option<Vec<String>>)
        ensures
            match redirect_host(config@) {
                Some(h) => r matches Some(v) && v@.len() == 1 && v@[0]@ == redirect_address(
                    config@,
                    h,
                ),
                None => r is None,
            },
    {
        let host = if config.has_domain_config() {
            config.domain_config().url_in_use().host()
        } else {
            Some("localhost".to_owned())
        };
        match host {
            Some(h) => {
                let mut uri = if config.uses_tls() {
                    "https".to_owned()
                } else {
                    "http".to_owned()
                };
                uri.append("://");
                uri.append(h.as_str());
                uri.append(":");
                let port = decimal(config.port());
                uri.append(port.as_str());
                uri.append("/sessions/auth/google");
                let mut uris: Vec<String> = Vec::new();
                uris.push(uri);
                Some(uris)
            },
            None => None,
        }
    }

    /// The application settings for these settings, redirecting as `make_redirect_uris`
    /// says; `None` where that address cannot be made.
    pub fn to_application_secret(&self, config: &Config) -> (r: Option<ApplicationSecret>)
        ensures
            match redirect_host(config@) {
                Some(h) => r matches Some(s) && {
                    &&& s.client_id == self.client_id
                    &&& s.client_secret == self.client_secret
                    &&& s.token_uri == self.token_uri
                    &&& s.auth_uri == self.auth_uri
                    &&& s.redirect_uris@.len() == 1
                    &&& s.redirect_uris@[0]@ == redirect_address(config@, h)
                    &&& s.project_id == Some(self.project_id)
                    &&& s.client_email is None
                    &&& s.auth_provider_x509_cert_url == Some(self.auth_provider_x509_cert_url)
                    &&& s.client_x509_cert_url is None
                },
                None => r is None,
            },
    {
        match Self::make_redirect_uris(config) {
            Some(redirect_uris) => {
                Some(
                    ApplicationSecret {
                        client_id: self.client_id.clone(),
                        client_secret: self.client_secret.clone(),
                        token_uri: self.token_uri.clone(),
                        auth_uri: self.auth_uri.clone(),
                        redirect_uris,
                        project_id: Some(self.project_id.clone()),
                        client_email: None,
                        auth_provider_x509_cert_url: Some(self.auth_provider_x509_cert_url.clone()),
                        client_x509_cert_url: None,
                    },
                )
            },
            None => None,
        }
    }

    /// The Google Keep configuration for these settings, with no redirect address.
    pub fn to_config(&self) -> (r: Result<KeepConfig, KeepError>)
        ensures
            r matches Ok(c) && {
                &&& c.web.client_id == self.client_id
                &&& c.web.client_secret == self.client_secret
                &&& c.web.token_uri == self.token_uri
                &&& c.web.auth_uri == self.auth_uri
                &&& c.web.redirect_uris@.len() == 0
                &&& c.web.project_id == Some(self.project_id)
                &&& c.web.client_email is None
                &&& c.web.auth_provider_x509_cert_url == Some(self.auth_provider_x509_cert_url)
                &&& c.web.client_x509_cert_url is None
            },
    {
        Ok(
            KeepConfig {
                web: ApplicationSecret {
                    client_id: self.client_id.clone(),
                    client_secret: self.client_secret.clone(),
                    token_uri: self.token_uri.clone(),
                    auth_uri: self.auth_uri.clone(),
                    redirect_uris: Vec::new(),
                    project_id: Some(self.project_id.clone()),
                    client_email: None,
                    auth_provider_x509_cert_url: Some(self.auth_provider_x509_cert_url.clone()),
                    client_x509_cert_url: None,
                },
            },
        )
    }
}

} // verus!

verus! {

/// The data of a Google Keep note as entities carry it.
#[derive(Clone, Copy, Debug, PartialEq, Eq)]
pub struct GoogleKeep {}

/// The Google Keep source, as the source of the entities it makes.
#[derive(Debug)]
pub struct GoogleKeepSource {}

impl IdentifiableSource for GoogleKeepSource {
    const SOURCE_ID: &'static str = "google_keep";

    fn this_identifier(&self) -> (r: &'static str)
        ensures
            r@ == "google_keep"@,
    {
        Self::SOURCE_ID
    }
}

impl EntityUser for GoogleKeepSource {
    fn supported_entity_data() -> (r: Vec<DataKind>)
        ensures
            r@ == seq![DataKind::GoogleKeep],
    {
        vec![DataKind::GoogleKeep]
    }
}

/// A note as listed by Google Keep: its title and its times (microseconds after the Unix
/// epoch), each of which may be missing.
#[derive(Clone, Debug, PartialEq, Eq)]
pub struct Note {
    pub title: Option<String>,
    pub create_time: Option<i64>,
    pub update_time: Option<i64>,
}

/// A page of notes listed by Google Keep.
#[derive(Clone, Debug, PartialEq, Eq)]
pub struct ListNotesResponse {
    pub notes: Option<Vec<Note>>,
}

/// Whether a note becomes an entity: it needs a title and a creation time.
pub open spec fn note_is_kept(n: Note) -> bool {
    n.title is Some && n.create_time is Some
}

/// The notes that become entities, in order.
pub open spec fn kept_notes(notes: Seq<Note>) -> Seq<Note>
    decreases notes.len(),
{
    if notes.len() == 0 {
        Seq::empty()
    } else {
        let rest = kept_notes(notes.drop_last());
        if note_is_kept(notes.last()) {
            rest.push(notes.last())
        } else {
            rest
        }
    }
}

/// The notes that become entities are exactly those with a title and a creation time, in
/// their order: no other condition (such as a repeated title) drops a note.
pub proof fn kept_notes_are_the_dated_titled_notes(notes: Seq<Note>)
    ensures
        kept_notes(notes) == notes.filter(|n: Note| n.title is Some && n.create_time is Some),
    decreases notes.len(),
{
    let pred = |n: Note| n.title is Some && n.create_time is Some;
    reveal_with_fuel(Seq::filter, 1);
    if notes.len() > 0 {
        kept_notes_are_the_dated_titled_notes(notes.drop_last());
    }
    assert(kept_notes(notes) =~= notes.filter(pred));
}

/// Whether entity `e` is the one made of note `n`: named by its title, created at its
/// creation time, updated at its update time (else its creation time).
pub open spec fn entity_of_note(e: Entity<GoogleKeep>, n: Note) -> bool {
    &&& e.id@.name == n.title->0@
    &&& e.id@.source == "google_keep"@
    &&& e.created_at == n.create_time->0
    &&& e.updated_at == match n.update_time {
        Some(u) => u,
        None => n.create_time->0,
    }
}

pub open spec fn response_notes(response: ListNotesResponse) -> Seq<Note> {
    match response.notes {
        Some(v) => v@,
        None => Seq::empty(),
    }
}

impl ListNotesResponse {
    /// The entities of the listed notes that have a title and a creation time, in order.
    pub fn to_entities(&self) -> (r: Vec<Entity<GoogleKeep>>)
        ensures
            r.len() == response_notes(*self).filter(|n: Note| n.title is Some && n.create_time is Some).len(),
            r.len() == kept_notes(response_notes(*self)).len(),
            forall|i: int|
                0 <= i < r.len() ==> entity_of_note(#[trigger] r@[i], kept_notes(response_notes(*self))[i]),
    {
        let mut r: Vec<Entity<GoogleKeep>> = Vec::new();
        match &self.notes {
            None => {
                assert(kept_notes(Seq::<Note>::empty()) =~= Seq::<Note>::empty());
                proof {
                    kept_notes_are_the_dated_titled_notes(Seq::<Note>::empty());
                }
                r
            },
            Some(notes) => {
                let mut i: usize = 0;
                while i < notes.len()
                    invariant
                        0 <= i <= notes.len(),
                        self.notes == Some(*notes),
                        r.len() == kept_notes(notes@.take(i as int)).len(),
                        forall|j: int|
                            0 <= j < r.len() ==> entity_of_note(
                                #[trigger] r@[j],
                                kept_notes(notes@.take(i as int))[j],
                            ),
                    decreases notes.len() - i,
                {
                    assert(notes@.take(i + 1).drop_last() =~= notes@.take(i as int));
                    let note = &notes[i];
                    match (&note.title, note.create_time) {
                        (Some(title), Some(create_time)) => {
                            let updated = match note.update_time {
                                Some(u) => u,
                                None => create_time,
                            };
                            let e = Entity::new::<GoogleKeepSource>(create_time, GoogleKeep {}, title.as_str(), updated);
                            r.push(e);
                        },
                        _ => {},
                    }
                    i = i + 1;
                }
                assert(notes@.take(notes.len() as int) =~= notes@);
                proof {
                    kept_notes_are_the_dated_titled_notes(notes@);
                }
                r
            },
        }
    }
}

/// Makes Google Keep entities into text entities.
#[derive(Clone, Debug)]
pub struct Translator;

impl Translator {
    /// The same entity carrying the text `translated data`.
    pub fn translate(&self, entity: &Entity<GoogleKeep>) -> (r: Entity<String>)
        ensures
            r.data@ == "translated data"@,
            r.created_at == entity.created_at,
            r.id@ == entity.id@,
            r.updated_at == entity.updated_at,
    {
        let data = "translated data".to_owned();
        entity.with_data(&data)
    }
}

/// What the Google Keep source does with a lifecycle event.
#[derive(Clone, Copy, Debug, PartialEq, Eq)]
pub enum KeepLifecycleAction {
    /// Look for a configuration, then reply on this channel.
    CheckConfigThenReply(HandleId),
    /// Look for a configuration.
    CheckConfig,
    /// Keep listening.
    Ignore,
    /// Abort the retrieval of notes and stop listening.
    AbortAndExit,
    /// Stop listening.
    Exit,
}

pub open spec fn keep_lifecycle_action(event: Result<Lifecycle, RecvFailure>) -> KeepLifecycleAction {
    match event {
        Ok(Lifecycle::Init(h)) => KeepLifecycleAction::CheckConfigThenReply(h),
        Ok(Lifecycle::ReadConfig(m)) => if m@ == GOOGLE_KEEP_MODULE@ {
            KeepLifecycleAction::CheckConfig
        } else {
            KeepLifecycleAction::Ignore
        },
        Ok(Lifecycle::Redirect(_, _)) => KeepLifecycleAction::Ignore,
        Ok(Lifecycle::Stop) => KeepLifecycleAction::AbortAndExit,
        Err(_) => KeepLifecycleAction::Exit,
    }
}

/// One turn of the Google Keep source's lifecycle listener: on start it looks for a
/// configuration and replies; when asked to read its own configuration it looks again; on
/// stop it aborts the retrieval; a failed receive ends the listener.
pub fn keep_lifecycle_step(event: &Result<Lifecycle, RecvFailure>) -> (r: KeepLifecycleAction)
    ensures
        r == keep_lifecycle_action(*event),
{
    match event {
        Ok(Lifecycle::Init(h)) => KeepLifecycleAction::CheckConfigThenReply(*h),
        Ok(Lifecycle::ReadConfig(m)) => if str_eq(m.as_str(), GOOGLE_KEEP_MODULE) {
            KeepLifecycleAction::CheckConfig
        } else {
            KeepLifecycleAction::Ignore
        },
        Ok(Lifecycle::Redirect(_, _)) => KeepLifecycleAction::Ignore,
        Ok(Lifecycle::Stop) => KeepLifecycleAction::AbortAndExit,
        Err(_) => KeepLifecycleAction::Exit,
    }
}

/// What the Google source does with a lifecycle event.
#[derive(Clone, Copy, Debug, PartialEq, Eq)]
pub enum GoogleLifecycleAction {
    /// Abort the synchronisation and stop listening.
    AbortAndExit,
    /// Ask the synchronisation to load, then reply on this channel.
    LoadThenReply(HandleId),
    /// Ask the synchronisation to load.
    Load,
    /// Keep listening.
    Ignore,
}

pub open spec fn google_lifecycle_action(event: Result<Lifecycle, RecvFailure>) -> GoogleLifecycleAction {
    match event {
        Ok(Lifecycle::Stop) => GoogleLifecycleAction::AbortAndExit,
        Ok(Lifecycle::Init(h)) => GoogleLifecycleAction::LoadThenReply(h),
        Ok(Lifecycle::ReadConfig(m)) => if m@ == GOOGLE_MODULE@ {
            GoogleLifecycleAction::Load
        } else {
            GoogleLifecycleAction::Ignore
        },
        Ok(Lifecycle::Redirect(_, _)) => GoogleLifecycleAction::Ignore,
        Err(_) => GoogleLifecycleAction::Ignore,
    }
}

/// One turn of the Google source's lifecycle listener: on stop it aborts the
/// synchronisation; on start, and when asked to read its own configuration, it asks the
/// synchronisation to load (replying to the start); a failed receive is skipped.
pub fn google_lifecycle_step(event: &Result<Lifecycle, RecvFailure>) -> (r: GoogleLifecycleAction)
    ensures
        r == google_lifecycle_action(*event),
{
    match event {
        Ok(Lifecycle::Stop) => GoogleLifecycleAction::AbortAndExit,
        Ok(Lifecycle::Init(h)) => GoogleLifecycleAction::LoadThenReply(*h),
        Ok(Lifecycle::ReadConfig(m)) => if str_eq(m.as_str(), GOOGLE_MODULE) {
            GoogleLifecycleAction::Load
        } else {
            GoogleLifecycleAction::Ignore
        },
        Ok(Lifecycle::Redirect(_, _)) => GoogleLifecycleAction::Ignore,
        Err(_) => GoogleLifecycleAction::Ignore,
    }
}

/// What the Google synchronisation learns of its load channel.
#[derive(Clone, Copy, Debug, PartialEq, Eq)]
pub enum LoadSignal {
    /// A load request was received.
    Received,
    /// The channel is closed.
    Closed,
    /// The channel is open (no request is waited for).
    Open,
}

/// Whether the synchronisation goes on (with the given new "initialized" state) or ends:
/// before its first load request it waits for one and ends if the channel closes; after
/// it, it ends once the channel is closed.
pub fn sync_gate(initialized: bool, signal: LoadSignal) -> (r: Option<bool>)
    ensures
        !initialized ==> r == match signal {
            LoadSignal::Received => Some(true),
            _ => None::<bool>,
        },
        initialized ==> r == if signal is Closed {
            None::<bool>
        } else {
            Some(true)
        },
{
    if !initialized {
        match signal {
            LoadSignal::Received => Some(true),
            _ => None,
        }
    } else {
        match signal {
            LoadSignal::Closed => None,
            _ => Some(true),
        }
    }
}

/// Whether the synchronisation keeps syncing with its current client: only while no new
/// load request waits and the channel is open.
pub fn keep_syncing(load_pending: bool, load_closed: bool) -> (r: bool)
    ensures
        r == (!load_pending && !load_closed),
{
    !load_pending && !load_closed
}

} // verus!
