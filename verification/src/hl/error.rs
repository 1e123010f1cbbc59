//! The high-level layer's error type: substrate failures alongside the
//! layer's own decode and format errors, each with the text it reports.

use crate::replay::error::{FetchError, SessionError};
use crate::replay::util::{decimal, decimal_text, hex, hex_text};
use vstd::prelude::*;
use vstd::string::*;

verus! {

/// Errors from the high-level layer.
#[derive(Debug)]
pub enum Error {
    /// A session/open failure from the substrate.
    Session(SessionError),
    /// A fetch failure from the substrate.
    Fetch(FetchError),
    /// Requested element size does not match the format's stride.
    FormatMismatch {
        /// The element size the caller asked for, in bytes.
        requested: usize,
        /// The format's actual stride, in bytes.
        actual: usize,
    },
    /// Typed pixel access on a non-`Color`/single-aspect format.
    WrongCategory(&'static str),
    /// Rows are padded; use `rows()` not `pixels()`.
    Padded {
        /// The stride between rows, in bytes, as stored.
        bytes_per_row: u32,
        /// The unpadded row length, in bytes.
        row_len: u32,
    },
    /// A format the table does not describe.
    UnknownFormat(u32),
    /// The payload sub-slice a zero-copy cast would read from is not a
    /// multiple of the requested element type's alignment.
    Misaligned {
        /// The requested element type's required alignment, in bytes.
        align: usize,
    },
    /// A payload too short for the geometry/field being decoded.
    Truncated,
    /// The pipeline nested bplist did not parse to the expected shape.
    BadPipeline(String),
}

impl Error {
    /// The text this error reports (a substrate error reports its own text).
    pub open spec fn spec_message(&self) -> Seq<char> {
        match self {
            Error::Session(e) => e.spec_message(),
            Error::Fetch(e) => e.spec_message(),
            Error::FormatMismatch { requested, actual } => "format mismatch: requested "@ + decimal(
                *requested as nat,
            ) + " B, format is "@ + decimal(*actual as nat) + " B"@,
            Error::WrongCategory(s) => "typed access unavailable: "@ + s@,
            Error::Padded { bytes_per_row, row_len } => "rows are padded (bytes_per_row "@ + decimal(
                *bytes_per_row as nat,
            ) + " > row "@ + decimal(*row_len as nat) + "); use rows()"@,
            Error::UnknownFormat(f) => "unknown pixel format 0x"@ + hex(*f as nat),
            Error::Misaligned { align } => "payload offset not "@ + decimal(*align as nat)
                + "-aligned for the requested element type"@,
            Error::Truncated => "payload truncated: shorter than the declared geometry requires"@,
            Error::BadPipeline(s) => "bad pipeline payload: "@ + s@,
        }
    }

    /// The text this error reports.
    pub fn message(&self) -> (r: String)
        ensures
            r@ == self.spec_message(),
    {
        match self {
            Error::Session(e) => e.message(),
            Error::Fetch(e) => e.message(),
            Error::FormatMismatch { requested, actual } => {
                let a = decimal_text(*requested as u64);
                let b = decimal_text(*actual as u64);
                String::from_str("format mismatch: requested ").concat(a.as_str()).concat(
                    " B, format is ",
                ).concat(b.as_str()).concat(" B")
            },
            Error::WrongCategory(s) => String::from_str("typed access unavailable: ").concat(*s),
            Error::Padded { bytes_per_row, row_len } => {
                let a = decimal_text(*bytes_per_row as u64);
                let b = decimal_text(*row_len as u64);
                String::from_str("rows are padded (bytes_per_row ").concat(a.as_str()).concat(
                    " > row ",
                ).concat(b.as_str()).concat("); use rows()")
            },
            Error::UnknownFormat(f) => {
                let h = hex_text(*f as u64);
                String::from_str("unknown pixel format 0x").concat(h.as_str())
            },
            Error::Misaligned { align } => {
                let a = decimal_text(*align as u64);
                String::from_str("payload offset not ").concat(a.as_str()).concat(
                    "-aligned for the requested element type",
                )
            },
            Error::Truncated => String::from_str(
                "payload truncated: shorter than the declared geometry requires",
            ),
            Error::BadPipeline(s) => String::from_str("bad pipeline payload: ").concat(s.as_str()),
        }
    }
}

impl From<SessionError> for Error {
    fn from(e: SessionError) -> (r: Error) {
        Error::Session(e)
    }
}

impl vstd::std_specs::convert::FromSpecImpl<SessionError> for Error {
    open spec fn obeys_from_spec() -> bool {
        true
    }

    open spec fn from_spec(e: SessionError) -> Error {
        Error::Session(e)
    }
}

impl From<FetchError> for Error {
    fn from(e: FetchError) -> (r: Error) {
        Error::Fetch(e)
    }
}

impl vstd::std_specs::convert::FromSpecImpl<FetchError> for Error {
    open spec fn obeys_from_spec() -> bool {
        true
    }

    open spec fn from_spec(e: FetchError) -> Error {
        Error::Fetch(e)
    }
}

} // verus!
