//! The translator's error surface. Every failure a decoder or builder can
//! produce is one of these variants; deferral and skipping are not errors.

use vstd::prelude::*;

verus! {

/// Errors of the decoder and the message builders.
#[derive(Clone, Debug)]
pub enum Error {
    /// An expected event attribute or query-response field is absent.
    MissingField { name: String },
    /// A value failed to decode or parse.
    DecodeError { what: String, cause: String },
    /// A chain query failed.
    QueryFailed { cause: String },
    /// A chain query returned nothing for the given key.
    NotFound { entity: String },
    /// The counterparty connection id is required but absent.
    MissingCounterpartyConnectionId,
    /// The counterparty channel id is required but absent.
    MissingChannelId,
    /// The connection end carries no version.
    NoConnectionVersion,
    /// The `header` attribute of an update-client event is unparseable.
    MalformedHeader,
    /// A timeout-height attribute is neither `"0"` nor a valid height.
    InvalidTimeoutHeight,
    /// An ABCI event kind the decoder does not know.
    UnsupportedAbciEvent { kind: String },
    /// A required attribute key is absent.
    MissingKey { name: String },
}

pub enum ErrorV {
    MissingField { name: Seq<char> },
    DecodeError { what: Seq<char>, cause: Seq<char> },
    QueryFailed { cause: Seq<char> },
    NotFound { entity: Seq<char> },
    MissingCounterpartyConnectionId,
    MissingChannelId,
    NoConnectionVersion,
    MalformedHeader,
    InvalidTimeoutHeight,
    UnsupportedAbciEvent { kind: Seq<char> },
    MissingKey { name: Seq<char> },
}

impl View for Error {
    type V = ErrorV;

    open spec fn view(&self) -> ErrorV {
        match self {
            Error::MissingField { name } => ErrorV::MissingField { name: name@ },
            Error::DecodeError { what, cause } => ErrorV::DecodeError {
                what: what@,
                cause: cause@,
            },
            Error::QueryFailed { cause } => ErrorV::QueryFailed { cause: cause@ },
            Error::NotFound { entity } => ErrorV::NotFound { entity: entity@ },
            Error::MissingCounterpartyConnectionId => ErrorV::MissingCounterpartyConnectionId,
            Error::MissingChannelId => ErrorV::MissingChannelId,
            Error::NoConnectionVersion => ErrorV::NoConnectionVersion,
            Error::MalformedHeader => ErrorV::MalformedHeader,
            Error::InvalidTimeoutHeight => ErrorV::InvalidTimeoutHeight,
            Error::UnsupportedAbciEvent { kind } => ErrorV::UnsupportedAbciEvent { kind: kind@ },
            Error::MissingKey { name } => ErrorV::MissingKey { name: name@ },
        }
    }
}

impl Error {
    /// A short tag naming the variant, for callers that report errors.
    pub fn tag(&self) -> (r: String)
        ensures
            r@.len() > 0,
    {
        let s: &str = match self {
            Error::MissingField { .. } => "missing field",
            Error::DecodeError { .. } => "decode error",
            Error::QueryFailed { .. } => "query failed",
            Error::NotFound { .. } => "not found",
            Error::MissingCounterpartyConnectionId => "missing counterparty connection id",
            Error::MissingChannelId => "missing channel id",
            Error::NoConnectionVersion => "no connection version",
            Error::MalformedHeader => "malformed header",
            Error::InvalidTimeoutHeight => "invalid timeout height",
            Error::UnsupportedAbciEvent { .. } => "unsupported abci event",
            Error::MissingKey { .. } => "missing key",
        };
        proof {
            reveal_strlit("missing field");
            reveal_strlit("decode error");
            reveal_strlit("query failed");
            reveal_strlit("not found");
            reveal_strlit("missing counterparty connection id");
            reveal_strlit("missing channel id");
            reveal_strlit("no connection version");
            reveal_strlit("malformed header");
            reveal_strlit("invalid timeout height");
            reveal_strlit("unsupported abci event");
            reveal_strlit("missing key");
        }
        s.to_owned()
    }
}

} // verus!
