//! Credentials and the authentication facade.
//!
//! The facade picks one of two token providers, in order: a service-account key
//! found on disk, then the metadata service. Finding files, building the key's
//! token client and querying the metadata service are done by the caller; the
//! decisions between them are the state machine below. Token fetches through the
//! service-account provider are exclusive: a second fetch while one is in flight
//! fails at once.
use vstd::prelude::*;

verus! {

/// The field of a credential file that names the project.
pub const PROJECT_ID_FIELD: &'static str = "project_id";

/// The token type of every token that the metadata provider hands out.
pub const BEARER: &'static str = "Bearer";

/// The string stored under `key` in the JSON object that `bytes` hold, if any.
pub uninterp spec fn json_string_field(bytes: Seq<u8>, key: Seq<char>) -> Option<Seq<char>>;

/// Relies on `serde_json::from_slice` and `Value::get`: the value under `key`,
/// when `bytes` parse as a JSON object that holds a string there.
#[verifier::external_body]
fn string_field(bytes: &[u8], key: &str) -> (r: Option<String>)
    ensures
        match r {
            Some(s) => json_string_field(bytes@, key@) == Some(s@),
            None => json_string_field(bytes@, key@) is None,
        },
{
    match serde_json::from_slice::<serde_json::Value>(bytes) {
        Ok(v) => match v.get(key) {
            Some(serde_json::Value::String(s)) => Some(s.clone()),
            _ => None,
        },
        Err(_) => None,
    }
}

/// The project id that a credential file's contents name.
pub open spec fn project_id_of(contents: Seq<u8>) -> Option<Seq<char>> {
    json_string_field(contents, PROJECT_ID_FIELD@)
}

/// A credential descriptor: the key file and the project it names.
#[derive(Clone, Debug)]
pub struct ApiKey {
    pub file_path: String,
    pub project_id: String,
}

impl View for ApiKey {
    type V = (Seq<char>, Seq<char>);

    open spec fn view(&self) -> (Seq<char>, Seq<char>) {
        (self.file_path@, self.project_id@)
    }
}

/// A candidate credential file: its path, and its contents when it could be read.
#[derive(Clone, Debug)]
pub struct CredentialFile {
    pub path: String,
    pub contents: Option<Vec<u8>>,
}

/// The descriptor that a candidate file yields: it must be readable and name a project.
pub open spec fn candidate_key(c: Option<CredentialFile>) -> Option<(Seq<char>, Seq<char>)> {
    match c {
        Some(f) => match f.contents {
            Some(b) => match project_id_of(b@) {
                Some(p) => Some((f.path@, p)),
                None => None,
            },
            None => None,
        },
        None => None,
    }
}

pub open spec fn api_key_view(k: Option<ApiKey>) -> Option<(Seq<char>, Seq<char>)> {
    match k {
        Some(k) => Some(k@),
        None => None,
    }
}

impl ApiKey {
    /// The descriptor for the key file at `file_path`, whose contents are
    /// `contents`; `None` unless they name a project.
    pub fn from_file(file_path: &str, contents: &[u8]) -> (r: Option<ApiKey>)
        ensures
            match r {
                Some(k) => k.file_path@ == file_path@ && project_id_of(contents@) == Some(
                    k.project_id@,
                ),
                None => project_id_of(contents@) is None,
            },
    {
        match string_field(contents, PROJECT_ID_FIELD) {
            Some(project_id) => Some(ApiKey { file_path: file_path.to_owned(), project_id }),
            None => None,
        }
    }

    /// Resolves the descriptor: the file at the fixed place under the home
    /// directory first, then the file that the environment names.
    pub fn lookup(home: Option<CredentialFile>, env: Option<CredentialFile>) -> (r: Option<
        ApiKey,
    >)
        ensures
            api_key_view(r) == match candidate_key(home) {
                Some(k) => Some(k),
                None => candidate_key(env),
            },
    {
        match ApiKey::from_candidate(home) {
            Some(k) => Some(k),
            None => ApiKey::from_candidate(env),
        }
    }

    fn from_candidate(c: Option<CredentialFile>) -> (r: Option<ApiKey>)
        ensures
            api_key_view(r) == candidate_key(c),
    {
        match c {
            Some(f) => match f.contents {
                Some(b) => ApiKey::from_file(f.path.as_str(), b.as_slice()),
                None => None,
            },
            None => None,
        }
    }
}

/// A bearer token.
#[derive(Clone, Debug)]
pub struct Token {
    pub access_token: String,
    pub refresh_token: String,
    pub token_type: String,
    pub expires_in: Option<i64>,
}

/// The token that the metadata service handed out.
#[derive(Clone, Debug)]
pub struct GcpAuthToken {
    pub access_token: String,
    pub token_type: String,
    pub expires_in: u32,
}

/// The bearer token made of a metadata token: its access token, no refresh
/// token, no expiry.
pub open spec fn is_bearer_of(tok: Token, t: GcpAuthToken) -> bool {
    &&& tok.access_token@ == t.access_token@
    &&& tok.refresh_token@ == Seq::<char>::empty()
    &&& tok.token_type@ == BEARER@
    &&& tok.expires_in is None
}

impl GcpAuthToken {
    /// The metadata path has no API key.
    pub fn api_key(&self) -> (r: Option<String>)
        ensures
            r is None,
    {
        None
    }

    /// The bearer token for any scopes: the metadata token is fetched once and reused.
    pub fn token(&self) -> (r: Token)
        ensures
            is_bearer_of(r, *self),
    {
        Token {
            access_token: self.access_token.clone(),
            refresh_token: String::new(),
            token_type: BEARER.to_owned(),
            expires_in: None,
        }
    }
}

/// Why the service-account provider is unavailable.
#[derive(Clone, Debug)]
pub enum ServiceAccountFailure {
    /// No credential file was found.
    NoCredentials,
    /// A credential file was found, but no token client could be built from it.
    KeyFile(String),
}

#[derive(Clone, Debug)]
pub enum AuthError {
    /// A token fetch was asked for while another one was in flight.
    AlreadyBorrowed,
    /// Neither provider is available; the reason of each.
    NoProvider { service_account: ServiceAccountFailure, metadata: String },
}

/// The provider that a facade uses; `S` is the service-account token client.
#[derive(Clone, Debug)]
pub enum Provider<S> {
    ServiceAccount(S),
    Metadata(GcpAuthToken),
}

/// The authentication facade: the project, the chosen provider, and whether a
/// fetch through the service-account provider is in flight.
#[derive(Clone, Debug)]
pub struct Auth<S> {
    pub project_id: String,
    pub provider: Provider<S>,
    pub fetching: bool,
}

/// Where the facade's setup stands, and what its driver does next.
pub enum Setup<S> {
    /// Look for a credential file.
    FindCredentials,
    /// Build a token client from this descriptor's key file.
    BuildServiceAccount(ApiKey),
    /// Ask the metadata service for the project id.
    QueryProjectId(ServiceAccountFailure),
    /// Ask the metadata service for a token; the project id is known.
    QueryToken(ServiceAccountFailure, String),
    /// Setup is over.
    Done(Result<Auth<S>, AuthError>),
}

/// What the driver reports after doing what a step asked.
pub enum SetupEvent<S> {
    Credentials(Option<ApiKey>),
    ServiceAccount(Result<S, String>),
    ProjectId(Result<String, String>),
    Token(Result<GcpAuthToken, String>),
}

/// The step that follows `step` on `event`. An event that does not answer the
/// step leaves it as it is.
pub open spec fn setup_transition<S>(step: Setup<S>, event: SetupEvent<S>) -> Setup<S> {
    match (step, event) {
        (Setup::FindCredentials, SetupEvent::Credentials(Some(k))) => Setup::BuildServiceAccount(k),
        (Setup::FindCredentials, SetupEvent::Credentials(None)) => Setup::QueryProjectId(
            ServiceAccountFailure::NoCredentials,
        ),
        (Setup::BuildServiceAccount(k), SetupEvent::ServiceAccount(Ok(s))) => Setup::Done(
            Ok(Auth { project_id: k.project_id, provider: Provider::ServiceAccount(s), fetching: false }),
        ),
        (Setup::BuildServiceAccount(_), SetupEvent::ServiceAccount(Err(e))) => Setup::QueryProjectId(
            ServiceAccountFailure::KeyFile(e),
        ),
        (Setup::QueryProjectId(f), SetupEvent::ProjectId(Ok(p))) => Setup::QueryToken(f, p),
        (Setup::QueryProjectId(f), SetupEvent::ProjectId(Err(e))) => Setup::Done(
            Err(AuthError::NoProvider { service_account: f, metadata: e }),
        ),
        (Setup::QueryToken(_, p), SetupEvent::Token(Ok(t))) => Setup::Done(
            Ok(Auth { project_id: p, provider: Provider::Metadata(t), fetching: false }),
        ),
        (Setup::QueryToken(f, _), SetupEvent::Token(Err(e))) => Setup::Done(
            Err(AuthError::NoProvider { service_account: f, metadata: e }),
        ),
        (step, _) => step,
    }
}

impl<S> Setup<S> {
    /// The first step of setup.
    pub fn start() -> (r: Setup<S>)
        ensures
            r is FindCredentials,
    {
        Setup::FindCredentials
    }

    /// Advances setup by one event.
    pub fn next(self, event: SetupEvent<S>) -> (r: Setup<S>)
        ensures
            r == setup_transition(self, event),
    {
        match (self, event) {
            (Setup::FindCredentials, SetupEvent::Credentials(Some(k))) => Setup::BuildServiceAccount(k),
            (Setup::FindCredentials, SetupEvent::Credentials(None)) => Setup::QueryProjectId(
                ServiceAccountFailure::NoCredentials,
            ),
            (Setup::BuildServiceAccount(k), SetupEvent::ServiceAccount(Ok(s))) => Setup::Done(
                Ok(Auth { project_id: k.project_id, provider: Provider::ServiceAccount(s), fetching: false }),
            ),
            (Setup::BuildServiceAccount(_), SetupEvent::ServiceAccount(Err(e))) => Setup::QueryProjectId(
                ServiceAccountFailure::KeyFile(e),
            ),
            (Setup::QueryProjectId(f), SetupEvent::ProjectId(Ok(p))) => Setup::QueryToken(f, p),
            (Setup::QueryProjectId(f), SetupEvent::ProjectId(Err(e))) => Setup::Done(
                Err(AuthError::NoProvider { service_account: f, metadata: e }),
            ),
            (Setup::QueryToken(_, p), SetupEvent::Token(Ok(t))) => Setup::Done(
                Ok(Auth { project_id: p, provider: Provider::Metadata(t), fetching: false }),
            ),
            (Setup::QueryToken(f, _), SetupEvent::Token(Err(e))) => Setup::Done(
                Err(AuthError::NoProvider { service_account: f, metadata: e }),
            ),
            (step, _) => step,
        }
    }
}

/// A usable key file settles setup on the service-account provider, with the
/// file's project, without any query to the metadata service.
pub proof fn lemma_key_file_first<S>(k: ApiKey, client: S)
    ensures
        setup_transition(Setup::<S>::FindCredentials, SetupEvent::Credentials(Some(k)))
            == Setup::<S>::BuildServiceAccount(k),
        setup_transition(Setup::BuildServiceAccount(k), SetupEvent::ServiceAccount(Ok(client)))
            == Setup::Done(
            Ok(Auth { project_id: k.project_id, provider: Provider::ServiceAccount(client), fetching: false }),
        ),
{
}

/// Without credentials, setup falls back to the metadata service and ends with
/// the project id and token that it answered.
pub proof fn lemma_metadata_fallback<S>(project_id: String, token: GcpAuthToken)
    ensures
        ({
            let s1 = setup_transition(Setup::<S>::FindCredentials, SetupEvent::Credentials(None));
            let s2 = setup_transition(s1, SetupEvent::ProjectId(Ok(project_id)));
            let s3 = setup_transition(s2, SetupEvent::Token(Ok(token)));
            &&& s1 is QueryProjectId
            &&& s2 is QueryToken
            &&& s3 == Setup::<S>::Done(
                Ok(Auth { project_id, provider: Provider::Metadata(token), fetching: false }),
            )
        }),
{
}

/// What a token fetch uses: the cached metadata token, or the service-account client.
#[derive(Clone, Debug)]
pub enum TokenSource {
    Cached(Token),
    FetchServiceAccount,
}

/// How a token fetch begins: the metadata path hands out its cached token; the
/// service-account path takes exclusive access, and fails while it is taken.
pub open spec fn begins_fetch<S>(pre: Auth<S>, post: Auth<S>, r: Result<TokenSource, AuthError>) -> bool {
    match pre.provider {
        Provider::Metadata(t) => post == pre && (r matches Ok(TokenSource::Cached(tok)) && is_bearer_of(tok, t)),
        Provider::ServiceAccount(_) => if pre.fetching {
            post == pre && r == Err::<TokenSource, AuthError>(AuthError::AlreadyBorrowed)
        } else {
            post == Auth { project_id: pre.project_id, provider: pre.provider, fetching: true }
                && r == Ok::<TokenSource, AuthError>(TokenSource::FetchServiceAccount)
        },
    }
}

impl<S> Auth<S> {
    /// Begins a token fetch.
    pub fn begin_token(&mut self) -> (r: Result<TokenSource, AuthError>)
        ensures
            begins_fetch(*old(self), *final(self), r),
    {
        match &self.provider {
            Provider::Metadata(t) => Ok(TokenSource::Cached(t.token())),
            Provider::ServiceAccount(_) => {
                if self.fetching {
                    Err(AuthError::AlreadyBorrowed)
                } else {
                    self.fetching = true;
                    Ok(TokenSource::FetchServiceAccount)
                }
            },
        }
    }

    /// Ends a token fetch: the service-account client is free again.
    pub fn end_token(&mut self)
        ensures
            final(self).project_id == old(self).project_id,
            final(self).provider == old(self).provider,
            !final(self).fetching,
    {
        self.fetching = false;
    }

    /// Whether the service-account client is to be asked for an API key: the
    /// metadata path has none, and none is handed out while a fetch is in flight.
    pub fn asks_api_key(&self) -> (r: bool)
        ensures
            r == (self.provider is ServiceAccount && !self.fetching),
    {
        match &self.provider {
            Provider::ServiceAccount(_) => !self.fetching,
            Provider::Metadata(_) => false,
        }
    }

    /// The service-account client, when that is the provider.
    pub fn service_account(&self) -> (r: Option<&S>)
        ensures
            match self.provider {
                Provider::ServiceAccount(c) => r == Some(&c),
                Provider::Metadata(_) => r is None,
            },
    {
        match &self.provider {
            Provider::ServiceAccount(c) => Some(c),
            Provider::Metadata(_) => None,
        }
    }
}

/// Two fetches through the service-account provider, the first not yet ended:
/// the first gets the client, the second fails at once and changes nothing.
pub proof fn lemma_second_fetch_fails<S>(
    a0: Auth<S>,
    a1: Auth<S>,
    r1: Result<TokenSource, AuthError>,
    a2: Auth<S>,
    r2: Result<TokenSource, AuthError>,
)
    requires
        a0.provider is ServiceAccount,
        !a0.fetching,
        begins_fetch(a0, a1, r1),
        begins_fetch(a1, a2, r2),
    ensures
        r1 == Ok::<TokenSource, AuthError>(TokenSource::FetchServiceAccount),
        r2 == Err::<TokenSource, AuthError>(AuthError::AlreadyBorrowed),
        a2 == a1,
{
}

} // verus!
