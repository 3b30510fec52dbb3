//! `KagiClient`: one credential and one configuration, and the checks that
//! decide which surface the credential may use.

use vstd::prelude::*;

use crate::auth::{credentials_kind, BotToken, CredentialKind, Credentials, SessionToken};
use crate::config::{config_problem, ClientConfig};
use crate::error::KagiError;
use crate::official_api::OfficialApi;
use crate::routing::{surface_credential, ProtocolSurface};
use crate::session_web::SessionWeb;

verus! {

/// A validated configuration with a credential.
#[derive(Debug, Clone)]
pub struct KagiClient {
    credentials: Credentials,
    config: ClientConfig,
}

/// `r` is what `KagiClient::new` gives for `credentials` and `config`.
pub open spec fn new_client_outcome(credentials: Credentials, config: ClientConfig, r: Result<KagiClient, KagiError>) -> bool {
    match config_problem(config) {
        None => r matches Ok(c) && c.credentials_spec() == credentials && c.config_spec() == config,
        Some(reason) => r matches Err(KagiError::InvalidClientConfiguration { reason: m }) && m@
            == reason,
    }
}

/// `r` is the answer to a request for `surface` with a credential of kind
/// `provided`: allowed when the kinds match, else `UnsupportedAuthSurface`.
pub open spec fn surface_access(provided: CredentialKind, surface: ProtocolSurface, r: Result<(), KagiError>) -> bool {
    if provided == surface_credential(surface) {
        r is Ok
    } else {
        r matches Err(KagiError::UnsupportedAuthSurface { surface: s, credential, expected }) && s
            == surface && credential == provided && expected == surface_credential(surface)
    }
}

/// The default configuration passes validation.
proof fn lemma_default_config_valid()
    ensures
        forall|c: ClientConfig|
            c.base_url@ == ("https"@, "https://kagi.com/"@) && c.timeout_nanos == 20_000_000_000
                && c.user_agent@ == "kagi-sdk-rust/0.1.3"@ ==> #[trigger] config_problem(c) is None,
{
    reveal_strlit("kagi-sdk-rust/0.1.3");
    assert(!crate::text::is_ws("kagi-sdk-rust/0.1.3"@[0]));
}

impl KagiClient {
    pub closed spec fn credentials_spec(&self) -> Credentials {
        self.credentials
    }

    pub closed spec fn config_spec(&self) -> ClientConfig {
        self.config
    }

    pub fn builder() -> (r: KagiClientBuilder)
        ensures
            r.credentials_spec() is None,
            r.conflict_spec() is None,
    {
        KagiClientBuilder::default()
    }

    /// A client for `credentials`; the configuration must pass validation.
    pub fn new(credentials: Credentials, config: ClientConfig) -> (r: Result<Self, KagiError>)
        ensures
            new_client_outcome(credentials, config, r),
    {
        match config.validate() {
            Err(e) => Err(e),
            Ok(()) => Ok(KagiClient { credentials, config }),
        }
    }

    /// A client for a bot token with the default configuration.
    pub fn with_bot_token(token: BotToken) -> (r: Result<Self, KagiError>)
        ensures
            r matches Ok(c) && c.credentials_spec() == Credentials::BotToken(token)
                && c.config_spec().base_url@ == ("https"@, "https://kagi.com/"@)
                && c.config_spec().timeout_nanos == 20_000_000_000
                && c.config_spec().user_agent@ == "kagi-sdk-rust/0.1.3"@,
    {
        proof {
            lemma_default_config_valid();
        }
        Self::new(Credentials::BotToken(token), ClientConfig::default())
    }

    /// A client for a session token with the default configuration.
    pub fn with_session_token(token: SessionToken) -> (r: Result<Self, KagiError>)
        ensures
            r matches Ok(c) && c.credentials_spec() == Credentials::SessionToken(token)
                && c.config_spec().base_url@ == ("https"@, "https://kagi.com/"@)
                && c.config_spec().timeout_nanos == 20_000_000_000
                && c.config_spec().user_agent@ == "kagi-sdk-rust/0.1.3"@,
    {
        proof {
            lemma_default_config_valid();
        }
        Self::new(Credentials::SessionToken(token), ClientConfig::default())
    }

    /// The official API, open to a bot token only.
    pub fn official_api(&self) -> (r: Result<OfficialApi<'_>, KagiError>)
        ensures
            surface_access(
                credentials_kind(self.credentials_spec()),
                ProtocolSurface::OfficialApi,
                match r {
                    Ok(_) => Ok(()),
                    Err(e) => Err(e),
                },
            ),
            r matches Ok(api) ==> api.client() == self,
    {
        match self.ensure_surface_access(ProtocolSurface::OfficialApi) {
            Err(e) => Err(e),
            Ok(()) => Ok(OfficialApi::new(self)),
        }
    }

    /// The session web, open to a session token only.
    pub fn session_web(&self) -> (r: Result<SessionWeb<'_>, KagiError>)
        ensures
            surface_access(
                credentials_kind(self.credentials_spec()),
                ProtocolSurface::SessionWeb,
                match r {
                    Ok(_) => Ok(()),
                    Err(e) => Err(e),
                },
            ),
            r matches Ok(web) ==> web.client() == self,
    {
        match self.ensure_surface_access(ProtocolSurface::SessionWeb) {
            Err(e) => Err(e),
            Ok(()) => Ok(SessionWeb::new(self)),
        }
    }

    pub fn credentials(&self) -> (r: &Credentials)
        ensures
            *r == self.credentials_spec(),
    {
        &self.credentials
    }

    pub fn config(&self) -> (r: &ClientConfig)
        ensures
            *r == self.config_spec(),
    {
        &self.config
    }

    fn ensure_surface_access(&self, surface: ProtocolSurface) -> (r: Result<(), KagiError>)
        ensures
            surface_access(credentials_kind(self.credentials_spec()), surface, r),
    {
        let provided = self.credentials.kind();
        let expected = match surface {
            ProtocolSurface::OfficialApi => CredentialKind::BotToken,
            ProtocolSurface::SessionWeb => CredentialKind::SessionToken,
        };
        if provided != expected {
            return Err(KagiError::UnsupportedAuthSurface { surface, credential: provided, expected });
        }
        Ok(())
    }
}

/// Collects a configuration and one credential; a second credential of the
/// other kind is a conflict that `build` reports.
#[derive(Debug, Clone)]
pub struct KagiClientBuilder {
    config: ClientConfig,
    credentials: Option<Credentials>,
    credential_conflict: Option<(CredentialKind, CredentialKind)>,
}

/// The builder state after offering `next`: a credential of the kind already
/// held (or the first one) replaces the held one; one of the other kind
/// records the conflict (kind held, kind offered) and changes nothing else.
pub open spec fn offer(
    held: Option<Credentials>,
    conflict: Option<(CredentialKind, CredentialKind)>,
    next: Credentials,
) -> (Option<Credentials>, Option<(CredentialKind, CredentialKind)>) {
    match held {
        Some(c) => if credentials_kind(c) != credentials_kind(next) {
            (held, Some((credentials_kind(c), credentials_kind(next))))
        } else {
            (Some(next), conflict)
        },
        None => (Some(next), conflict),
    }
}

/// `r` is what `build` gives for the builder state.
pub open spec fn build_outcome(
    config: ClientConfig,
    held: Option<Credentials>,
    conflict: Option<(CredentialKind, CredentialKind)>,
    r: Result<KagiClient, KagiError>,
) -> bool {
    match conflict {
        Some((already_set, attempted)) => r matches Err(
            KagiError::ConflictingCredentialConfiguration { already_set: a, attempted: b },
        ) && a == already_set && b == attempted,
        None => match held {
            None => r matches Err(KagiError::MissingCredentialConfiguration { reason }) && reason@
                == "set bot_token(...) or session_token(...) before build()"@,
            Some(c) => new_client_outcome(c, config, r),
        },
    }
}

impl Default for KagiClientBuilder {
    /// The default configuration and no credential.
    fn default() -> (r: Self)
        ensures
            r.credentials_spec() is None,
            r.conflict_spec() is None,
    {
        KagiClientBuilder { config: ClientConfig::default(), credentials: None, credential_conflict: None }
    }
}

impl KagiClientBuilder {
    pub closed spec fn config_spec(&self) -> ClientConfig {
        self.config
    }

    pub closed spec fn credentials_spec(&self) -> Option<Credentials> {
        self.credentials
    }

    pub closed spec fn conflict_spec(&self) -> Option<(CredentialKind, CredentialKind)> {
        self.credential_conflict
    }

    pub fn config(self, config: ClientConfig) -> (r: Self)
        ensures
            r.config_spec() == config,
            r.credentials_spec() == self.credentials_spec(),
            r.conflict_spec() == self.conflict_spec(),
    {
        KagiClientBuilder { config, ..self }
    }

    pub fn bot_token(self, token: BotToken) -> (r: Self)
        ensures
            r.config_spec() == self.config_spec(),
            (r.credentials_spec(), r.conflict_spec()) == offer(
                self.credentials_spec(),
                self.conflict_spec(),
                Credentials::BotToken(token),
            ),
    {
        self.credentials(Credentials::BotToken(token))
    }

    pub fn session_token(self, token: SessionToken) -> (r: Self)
        ensures
            r.config_spec() == self.config_spec(),
            (r.credentials_spec(), r.conflict_spec()) == offer(
                self.credentials_spec(),
                self.conflict_spec(),
                Credentials::SessionToken(token),
            ),
    {
        self.credentials(Credentials::SessionToken(token))
    }

    pub fn credentials(self, credentials: Credentials) -> (r: Self)
        ensures
            r.config_spec() == self.config_spec(),
            (r.credentials_spec(), r.conflict_spec()) == offer(
                self.credentials_spec(),
                self.conflict_spec(),
                credentials,
            ),
    {
        let mut next = self;
        next.set_credentials(credentials);
        next
    }

    /// Reports a recorded conflict first, then a missing credential, then
    /// builds the client.
    pub fn build(self) -> (r: Result<KagiClient, KagiError>)
        ensures
            build_outcome(self.config_spec(), self.credentials_spec(), self.conflict_spec(), r),
    {
        if let Some((already_set, attempted)) = self.credential_conflict {
            return Err(KagiError::ConflictingCredentialConfiguration { already_set, attempted });
        }
        match self.credentials {
            None => Err(
                KagiError::MissingCredentialConfiguration {
                    reason: String::from_str(
                        "set bot_token(...) or session_token(...) before build()",
                    ),
                },
            ),
            Some(credentials) => KagiClient::new(credentials, self.config),
        }
    }

    fn set_credentials(&mut self, next_credentials: Credentials)
        ensures
            final(self).config == old(self).config,
            (final(self).credentials, final(self).credential_conflict) == offer(
                old(self).credentials,
                old(self).credential_conflict,
                next_credentials,
            ),
    {
        let attempted = next_credentials.kind();
        if let Some(current_credentials) = &self.credentials {
            let already_set = current_credentials.kind();
            if already_set != attempted {
                self.credential_conflict = Some((already_set, attempted));
                return;
            }
        }
        self.credentials = Some(next_credentials);
    }
}

/// Once a builder holds credentials of two kinds, it stays in conflict
/// whatever is offered next, and building fails with that conflict.
pub proof fn law_conflict_is_sticky(
    held: Option<Credentials>,
    conflict: Option<(CredentialKind, CredentialKind)>,
    next: Credentials,
)
    requires
        conflict is Some,
    ensures
        offer(held, conflict, next).1 is Some,
{
}

/// Offering a bot token and then a session token (or the reverse) to a fresh
/// builder makes `build` fail with the conflict (first kind, second kind).
pub proof fn law_mixed_credentials_conflict(
    config: ClientConfig,
    first: Credentials,
    second: Credentials,
    r: Result<KagiClient, KagiError>,
)
    requires
        credentials_kind(first) != credentials_kind(second),
        build_outcome(
            config,
            offer(offer(None, None, first).0, offer(None, None, first).1, second).0,
            offer(offer(None, None, first).0, offer(None, None, first).1, second).1,
            r,
        ),
    ensures
        r matches Err(KagiError::ConflictingCredentialConfiguration { already_set, attempted })
            && already_set == credentials_kind(first) && attempted == credentials_kind(second),
{
}

/// A client reaches exactly the surface of its credential: the official API
/// with a bot token, the session web with a session token.
pub proof fn law_surface_follows_credential(provided: CredentialKind, surface: ProtocolSurface, r: Result<(), KagiError>)
    requires
        surface_access(provided, surface, r),
    ensures
        r is Ok <==> (provided == CredentialKind::BotToken && surface == ProtocolSurface::OfficialApi)
            || (provided == CredentialKind::SessionToken && surface == ProtocolSurface::SessionWeb),
{
}

} // verus!
