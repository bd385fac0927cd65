//! The result of one bounded-time status probe against a server.
//!
//! A probe is a single connect-plus-handshake attempt under one fixed
//! deadline; the application performs it and reports back one of these
//! outcomes. The dispatcher never retries.

use vstd::prelude::*;

verus! {

/// The deadline on one whole probe, connection and handshake together.
pub const PROBE_TIMEOUT_MS: u64 = 250;

/// Why a probe yielded no status: the connection could not be made, the
/// deadline passed, or the endpoint answered with a malformed
/// handshake. Each detail string carries the underlying error's text.
#[derive(Debug, PartialEq, Eq)]
pub enum ProbeError {
    ConnectFailed { detail: String },
    TimedOut,
    ProtocolError { detail: String },
}

impl ProbeError {
    /// The text a reply embeds for this failure.
    pub open spec fn message_spec(&self) -> Seq<char> {
        match self {
            ProbeError::ConnectFailed { detail } => detail@,
            ProbeError::TimedOut => "timed out"@,
            ProbeError::ProtocolError { detail } => detail@,
        }
    }

    pub fn message(&self) -> (r: String)
        ensures
            r@ == self.message_spec(),
    {
        match self {
            ProbeError::ConnectFailed { detail } => String::from_str(detail.as_str()),
            ProbeError::TimedOut => String::from_str("timed out"),
            ProbeError::ProtocolError { detail } => String::from_str(detail.as_str()),
        }
    }
}

/// What one probe produced: a status, or a failure. An absent sample
/// list in a status is the same as an empty one.
#[derive(Debug, PartialEq, Eq)]
pub enum ProbeOutcome {
    Online { players: u32, max_players: u32, sample: Vec<String> },
    Failed { error: ProbeError },
}

impl ProbeOutcome {
    /// Builds the online outcome from a handshake response's fields,
    /// collapsing an absent sample list to an empty one.
    pub fn online_from_status(players: u32, max_players: u32, sample: Option<Vec<String>>) -> (r:
        ProbeOutcome)
        ensures
            (r matches ProbeOutcome::Online { players: p, max_players: m, sample: s } && p
                == players && m == max_players && s@ == match sample {
                Some(v) => v@,
                None => Seq::<String>::empty(),
            }),
    {
        match sample {
            Some(v) => ProbeOutcome::Online { players, max_players, sample: v },
            None => ProbeOutcome::Online { players, max_players, sample: Vec::new() },
        }
    }
}

} // verus!
