//! Error types for the session, fetch and harvester layers, each with the
//! exact message text it reports.

use crate::replay::util::{decimal, decimal_text, signed_decimal, signed_decimal_text};
use vstd::prelude::*;
use vstd::string::*;

verus! {

/// Errors from opening or driving a replay session.
#[derive(Debug)]
pub enum SessionError {
    /// A session is already open in this process (one session per process).
    AlreadyOpen,
    /// The `MTLREPLAYER_LOCK_PARAM_BUFFER_SIZE_TO_MAX=0` unlock var is not set.
    UnlockEnv(String),
    /// The capture bundle path is missing a required entry.
    BadBundle(String),
    /// APR bootstrap failed.
    Apr {
        /// Error code from APR.
        code: i32,
    },
    /// `-load:error:` reported failure, or the error observer recorded one.
    Replayer {
        /// Error message from the replayer.
        message: String,
    },
    /// `-load:` returned NO without an observed error.
    LoadFailed {
        /// Path to the capture bundle.
        bundle: String,
    },
}

/// Errors from a fetch.
#[derive(Debug)]
pub enum FetchError {
    /// The request slice was empty.
    EmptyBatch,
    /// `-fetch:` returned no token.
    NoToken,
    /// The completion handler did not fire within the timeout.
    Timeout,
    /// No response object was delivered.
    NoResponse,
    /// The reply carried no data.
    NoData,
    /// The replayer reported an error attributed to this fetch.
    Replayer {
        /// Error message from the replayer.
        message: String,
    },
    /// The reply could not be parsed.
    Parse(String),
    /// Building the fetch request/batch itself failed: a class the framework
    /// should export was not registered, or constructing one returned nil.
    Setup(String),
}

/// Errors from parsing a harvester capture block.
#[derive(Debug, Clone, Copy, PartialEq, Eq)]
pub enum HarvesterError {
    /// The block does not start with the "capture" magic.
    BadMagic,
    /// The buffer is too small to hold the claimed metadata/planes.
    Truncated,
    /// The block is not a texture-type block.
    WrongType(u16),
}

impl SessionError {
    /// The text this error reports.
    pub open spec fn spec_message(&self) -> Seq<char> {
        match self {
            SessionError::AlreadyOpen => "a replay session is already open in this process (one per process)"@,
            SessionError::UnlockEnv(s) => "replayer unlock env not set: "@ + s@,
            SessionError::BadBundle(s) => "capture bundle is malformed: "@ + s@,
            SessionError::Apr { code } => "APR bootstrap failed (code "@ + signed_decimal(*code as int) + ")"@,
            SessionError::Replayer { message } => "the replayer reported an error: "@ + message@,
            SessionError::LoadFailed { bundle } => "loading the capture failed: "@ + bundle@,
        }
    }

    /// The text this error reports.
    pub fn message(&self) -> (r: String)
        ensures
            r@ == self.spec_message(),
    {
        match self {
            SessionError::AlreadyOpen => String::from_str(
                "a replay session is already open in this process (one per process)",
            ),
            SessionError::UnlockEnv(s) => String::from_str("replayer unlock env not set: ").concat(
                s.as_str(),
            ),
            SessionError::BadBundle(s) => String::from_str("capture bundle is malformed: ").concat(
                s.as_str(),
            ),
            SessionError::Apr { code } => {
                let digits = signed_decimal_text(*code);
                String::from_str("APR bootstrap failed (code ").concat(digits.as_str()).concat(")")
            },
            SessionError::Replayer { message } => String::from_str(
                "the replayer reported an error: ",
            ).concat(message.as_str()),
            SessionError::LoadFailed { bundle } => String::from_str(
                "loading the capture failed: ",
            ).concat(bundle.as_str()),
        }
    }
}

impl FetchError {
    /// The text this error reports.
    pub open spec fn spec_message(&self) -> Seq<char> {
        match self {
            FetchError::EmptyBatch => "fetch batch was empty"@,
            FetchError::NoToken => "fetch returned no token"@,
            FetchError::Timeout => "fetch timed out"@,
            FetchError::NoResponse => "fetch delivered no response"@,
            FetchError::NoData => "fetch reply had no data"@,
            FetchError::Replayer { message } => "the replayer reported an error for the fetch: "@
                + message@,
            FetchError::Parse(s) => "reply parse failed: "@ + s@,
            FetchError::Setup(s) => "fetch setup failed: "@ + s@,
        }
    }

    /// The text this error reports.
    pub fn message(&self) -> (r: String)
        ensures
            r@ == self.spec_message(),
    {
        match self {
            FetchError::EmptyBatch => String::from_str("fetch batch was empty"),
            FetchError::NoToken => String::from_str("fetch returned no token"),
            FetchError::Timeout => String::from_str("fetch timed out"),
            FetchError::NoResponse => String::from_str("fetch delivered no response"),
            FetchError::NoData => String::from_str("fetch reply had no data"),
            FetchError::Replayer { message } => String::from_str(
                "the replayer reported an error for the fetch: ",
            ).concat(message.as_str()),
            FetchError::Parse(s) => String::from_str("reply parse failed: ").concat(s.as_str()),
            FetchError::Setup(s) => String::from_str("fetch setup failed: ").concat(s.as_str()),
        }
    }
}

impl HarvesterError {
    /// The text this error reports.
    pub open spec fn spec_message(&self) -> Seq<char> {
        match self {
            HarvesterError::BadMagic => "not a capture block: wrong magic"@,
            HarvesterError::Truncated => "capture block is truncated"@,
            HarvesterError::WrongType(t) => "capture block is not a texture block (type "@ + decimal(
                *t as nat,
            ) + ")"@,
        }
    }

    /// The text this error reports.
    pub fn message(&self) -> (r: String)
        ensures
            r@ == self.spec_message(),
    {
        match self {
            HarvesterError::BadMagic => String::from_str("not a capture block: wrong magic"),
            HarvesterError::Truncated => String::from_str("capture block is truncated"),
            HarvesterError::WrongType(t) => {
                let digits = decimal_text(*t as u64);
                String::from_str("capture block is not a texture block (type ").concat(
                    digits.as_str(),
                ).concat(")")
            },
        }
    }
}

} // verus!
