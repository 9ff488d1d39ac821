//! The errors a CLI call can end in.
use vstd::prelude::*;

verus! {

/// How a call of the `flute` CLI failed.
#[derive(Debug)]
pub enum FluteError {
    /// The API answered with an error status.
    Api { status: u16, message: String, correlation_id: Option<String> },
    /// The request did not reach the API.
    Transport { message: String },
    /// No usable credentials.
    Auth { message: String },
    /// The API's answer could not be decoded.
    Decode { message: String },
    /// The call was refused before reaching the API (bad usage, or refused by this server).
    Client { message: String },
    /// The CLI could not be started.
    Spawn(String),
    /// The CLI did not finish in time.
    Timeout { secs: u64 },
    /// The CLI failed without printing a recognisable error envelope.
    BadOutput { exit_code: i32, stdout: String, stderr: String },
}

/// The `{kind, message, status?, correlation_id?}` error envelope the CLI
/// prints on a failed call, as read from its standard output.
#[derive(Debug)]
pub struct Envelope {
    pub kind: String,
    pub message: String,
    pub status: Option<u16>,
    pub correlation_id: Option<String>,
}

/// The error a failed call ends in: the envelope's own kind when it names one
/// the CLI documents (`api`, `transport`, `auth`, `decode`, `client`; an `api`
/// error without a status gets status 0), otherwise `BadOutput` carrying the
/// raw output.
pub open spec fn envelope_error(
    exit_code: i32,
    stdout: String,
    stderr: String,
    envelope: Option<Envelope>,
) -> FluteError {
    let bad = FluteError::BadOutput { exit_code, stdout, stderr };
    match envelope {
        None => bad,
        Some(env) => if env.kind@ == "api"@ {
            FluteError::Api {
                status: match env.status {
                    Some(s) => s,
                    None => 0,
                },
                message: env.message,
                correlation_id: env.correlation_id,
            }
        } else if env.kind@ == "transport"@ {
            FluteError::Transport { message: env.message }
        } else if env.kind@ == "auth"@ {
            FluteError::Auth { message: env.message }
        } else if env.kind@ == "decode"@ {
            FluteError::Decode { message: env.message }
        } else if env.kind@ == "client"@ {
            FluteError::Client { message: env.message }
        } else {
            bad
        },
    }
}

impl FluteError {
    /// Classifies a failed (non-zero exit) call from its exit code, its raw
    /// output, and the error envelope read from its standard output (`None`
    /// when the output was not an envelope).
    pub fn from_envelope(
        exit_code: i32,
        stdout: String,
        stderr: String,
        envelope: Option<Envelope>,
    ) -> (res: FluteError)
        ensures
            res == envelope_error(exit_code, stdout, stderr, envelope),
    {
        match envelope {
            None => FluteError::BadOutput { exit_code, stdout, stderr },
            Some(env) => {
                let Envelope { kind, message, status, correlation_id } = env;
                if kind == String::from_str("api") {
                    FluteError::Api {
                        status: match status {
                            Some(s) => s,
                            None => 0,
                        },
                        message,
                        correlation_id,
                    }
                } else if kind == String::from_str("transport") {
                    FluteError::Transport { message }
                } else if kind == String::from_str("auth") {
                    FluteError::Auth { message }
                } else if kind == String::from_str("decode") {
                    FluteError::Decode { message }
                } else if kind == String::from_str("client") {
                    FluteError::Client { message }
                } else {
                    FluteError::BadOutput { exit_code, stdout, stderr }
                }
            },
        }
    }
}

} // verus!
