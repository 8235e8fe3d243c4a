//! Startup configuration: the provider credentials the service needs and
//! the scopes it requests. All three credential values are required; a
//! missing one is a fatal configuration error reported before any traffic
//! is served.

use vstd::prelude::*;

use crate::error::ApiError;
use crate::error::ErrorKind;
use crate::error::ErrorModel;
use crate::model::opt_str_view;

verus! {

/// The provider credentials: client identifier, client secret, and the
/// long-lived refresh token exchanged at startup for an access token.
pub struct Credentials {
    pub client_id: String,
    pub client_secret: String,
    pub refresh_token: String,
}

/// Mathematical model of [`Credentials`].
pub struct CredentialsModel {
    pub client_id: Seq<char>,
    pub client_secret: Seq<char>,
    pub refresh_token: Seq<char>,
}

impl View for Credentials {
    type V = CredentialsModel;

    open spec fn view(&self) -> CredentialsModel {
        CredentialsModel {
            client_id: self.client_id@,
            client_secret: self.client_secret@,
            refresh_token: self.refresh_token@,
        }
    }
}

/// The model of validated credentials or of the configuration error.
pub open spec fn credentials_result_view(r: Result<Credentials, ApiError>) -> Result<
    CredentialsModel,
    ErrorModel,
> {
    match r {
        Ok(c) => Ok(c@),
        Err(e) => Err(e@),
    }
}

/// How the credentials are validated: all three values must be present;
/// otherwise the first missing one, in this order, is reported as a
/// configuration error.
pub open spec fn spec_credentials(
    client_id: Option<Seq<char>>,
    client_secret: Option<Seq<char>>,
    refresh_token: Option<Seq<char>>,
) -> Result<CredentialsModel, ErrorModel> {
    match client_id {
        None => Err(
            ErrorModel { kind: ErrorKind::Config, message: "the client identifier is not set"@ },
        ),
        Some(id) => match client_secret {
            None => Err(
                ErrorModel { kind: ErrorKind::Config, message: "the client secret is not set"@ },
            ),
            Some(secret) => match refresh_token {
                None => Err(
                    ErrorModel {
                        kind: ErrorKind::Config,
                        message: "the refresh token is not set"@,
                    },
                ),
                Some(token) => Ok(
                    CredentialsModel { client_id: id, client_secret: secret, refresh_token: token },
                ),
            },
        },
    }
}

/// Validates the configuration values read from the environment: returns
/// the credentials exactly when all three are present, else the
/// configuration error naming the first missing value.
pub fn credentials_from(
    client_id: Option<String>,
    client_secret: Option<String>,
    refresh_token: Option<String>,
) -> (r: Result<Credentials, ApiError>)
    ensures
        credentials_result_view(r) == spec_credentials(
            opt_str_view(client_id),
            opt_str_view(client_secret),
            opt_str_view(refresh_token),
        ),
{
    let id = match client_id {
        Some(v) => v,
        None => {
            return Err(
                ApiError {
                    kind: ErrorKind::Config,
                    message: "the client identifier is not set".to_owned(),
                },
            );
        },
    };
    let secret = match client_secret {
        Some(v) => v,
        None => {
            return Err(
                ApiError {
                    kind: ErrorKind::Config,
                    message: "the client secret is not set".to_owned(),
                },
            );
        },
    };
    let token = match refresh_token {
        Some(v) => v,
        None => {
            return Err(
                ApiError {
                    kind: ErrorKind::Config,
                    message: "the refresh token is not set".to_owned(),
                },
            );
        },
    };
    Ok(Credentials { client_id: id, client_secret: secret, refresh_token: token })
}

/// The scopes the service requests from the provider.
pub open spec fn spec_required_scopes() -> Seq<Seq<char>> {
    seq![
        "user-read-currently-playing"@,
        "user-read-recently-played"@,
        "user-top-read"@,
        "user-read-playback-position"@,
        "user-read-playback-state"@,
    ]
}

/// The scopes the service requests: reading current playback, recent
/// plays, top tracks, playback position and playback state.
pub fn required_scopes() -> (v: Vec<String>)
    ensures
        v@.map_values(|s: String| s@) == spec_required_scopes(),
{
    let mut v: Vec<String> = Vec::new();
    v.push("user-read-currently-playing".to_owned());
    v.push("user-read-recently-played".to_owned());
    v.push("user-top-read".to_owned());
    v.push("user-read-playback-position".to_owned());
    v.push("user-read-playback-state".to_owned());
    proof {
        assert(v@.map_values(|s: String| s@) =~= spec_required_scopes());
    }
    v
}

} // verus!
