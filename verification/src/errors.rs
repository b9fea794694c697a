//! Crate-wide typed errors. Every fallible operation returns `Result<_, Error>`
//! so that cleanup guards unwind; a variant never embeds a secret value, only
//! an id and a non-secret reason.

use vstd::prelude::*;
use vstd::string::*;

verus! {

#[verifier::external_type_specification]
#[verifier::external_body]
pub struct ExIoError(std::io::Error);

#[derive(Debug)]
pub enum Error {
    Config(String),
    Policy(String),
    /// the reason is non-secret, e.g. "pin too short: len < 8"
    Resolve { id: &'static str, reason: String },
    KeyIdentity(String),
    Parse(String),
    Runner(String),
    /// regime-qualified and non-secret
    Compliance(String),
    Io(std::io::Error),
}

pub type Result<T> = core::result::Result<T, Error>;

impl Error {
    /// The human-readable message of this error, such as
    /// `decision pin-min-length: len < 8`.
    pub fn to_string(&self) -> (s: String)
        ensures
            match self {
                Error::Config(m) => s@ == "config: "@ + m@,
                Error::Policy(m) => s@ == "policy: "@ + m@,
                Error::Resolve { id, reason } => s@ == "decision "@ + id@ + ": "@ + reason@,
                Error::KeyIdentity(m) => s@ == "identity: "@ + m@,
                Error::Parse(m) => s@ == "parse: "@ + m@,
                Error::Runner(m) => s@ == "runner: "@ + m@,
                Error::Compliance(m) => s@ == "compliance: "@ + m@,
                Error::Io(e) => exists|t: String|
                    to_string_from_display_ensures::<std::io::Error>(e, t) && s@ == "io: "@ + t@,
            },
    {
        match self {
            Error::Config(m) => prefixed("config: ", m.as_str()),
            Error::Policy(m) => prefixed("policy: ", m.as_str()),
            Error::Resolve { id, reason } => {
                let mut s = String::from_str("decision ");
                s.append(id);
                s.append(": ");
                s.append(reason.as_str());
                s
            },
            Error::KeyIdentity(m) => prefixed("identity: ", m.as_str()),
            Error::Parse(m) => prefixed("parse: ", m.as_str()),
            Error::Runner(m) => prefixed("runner: ", m.as_str()),
            Error::Compliance(m) => prefixed("compliance: ", m.as_str()),
            Error::Io(e) => {
                let t = e.to_string();
                prefixed("io: ", t.as_str())
            },
        }
    }
}

fn prefixed(label: &str, body: &str) -> (s: String)
    ensures
        s@ == label@ + body@,
{
    let mut s = String::from_str(label);
    s.append(body);
    s
}

} // verus!
