//! What can be wrong with a DSCP specifier or with marking a socket.

use crate::text::{decimal, push_decimal};
use vstd::prelude::*;

verus! {

/// Why a DSCP specifier was rejected or a socket could not be marked.
#[derive(Debug)]
pub enum DscpError {
    /// Neither a keyword nor a number.
    InvalidValue(String),
    /// A number above 63.
    OutOfRange(u16),
    /// A specifier without any entry.
    Empty,
    /// A weight that is no number.
    InvalidWeight { weight: String, entry: String },
    /// Some entries have a weight, others have none.
    MixedWeights,
    /// The weights add up to this, which is not 100.
    WeightSum(u128),
    /// The operating system refused the socket option.
    SetOption { option: String, cause: String },
    /// There is no such socket option on this platform.
    Unsupported,
}

/// The contents of a [`DscpError`].
pub enum ErrorView {
    InvalidValue(Seq<char>),
    OutOfRange(nat),
    Empty,
    InvalidWeight { weight: Seq<char>, entry: Seq<char> },
    MixedWeights,
    WeightSum(nat),
    SetOption { option: Seq<char>, cause: Seq<char> },
    Unsupported,
}

impl View for DscpError {
    type V = ErrorView;

    open spec fn view(&self) -> ErrorView {
        match self {
            DscpError::InvalidValue(s) => ErrorView::InvalidValue(s@),
            DscpError::OutOfRange(n) => ErrorView::OutOfRange(*n as nat),
            DscpError::Empty => ErrorView::Empty,
            DscpError::InvalidWeight { weight, entry } => ErrorView::InvalidWeight {
                weight: weight@,
                entry: entry@,
            },
            DscpError::MixedWeights => ErrorView::MixedWeights,
            DscpError::WeightSum(n) => ErrorView::WeightSum(*n as nat),
            DscpError::SetOption { option, cause } => ErrorView::SetOption {
                option: option@,
                cause: cause@,
            },
            DscpError::Unsupported => ErrorView::Unsupported,
        }
    }
}

impl ErrorView {
    /// The text that tells a user what is wrong.
    pub open spec fn message(self) -> Seq<char> {
        match self {
            ErrorView::InvalidValue(s) => "invalid DSCP value '"@ + s
                + "': expected a keyword (e.g. ef, cs5, af41) or a number 0-63"@,
            ErrorView::OutOfRange(n) => "DSCP value "@ + decimal(n)
                + " out of range (must be 0-63)"@,
            ErrorView::Empty => "empty --dscp value"@,
            ErrorView::InvalidWeight { weight, entry } => "invalid DSCP weight '"@ + weight
                + "' in '"@ + entry + "': expected a non-negative integer"@,
            ErrorView::MixedWeights =>
                "give a weight for every DSCP (e.g. ef:60,cs1:40) or for none (equal split)"@,
            ErrorView::WeightSum(n) => "--dscp weights must sum to 100, got "@ + decimal(n),
            ErrorView::SetOption { option, cause } => "failed to set DSCP via "@ + option + ": "@
                + cause,
            ErrorView::Unsupported => "DSCP marking is not supported on this platform"@,
        }
    }
}

impl DscpError {
    /// The text that tells a user what is wrong.
    pub fn to_string(&self) -> (r: String)
        ensures
            r@ == self@.message(),
    {
        let mut r = String::new();
        match self {
            DscpError::InvalidValue(s) => {
                r.append("invalid DSCP value '");
                r.append(s.as_str());
                r.append("': expected a keyword (e.g. ef, cs5, af41) or a number 0-63");
            },
            DscpError::OutOfRange(n) => {
                r.append("DSCP value ");
                push_decimal(&mut r, *n as u128);
                r.append(" out of range (must be 0-63)");
            },
            DscpError::Empty => {
                r.append("empty --dscp value");
            },
            DscpError::InvalidWeight { weight, entry } => {
                r.append("invalid DSCP weight '");
                r.append(weight.as_str());
                r.append("' in '");
                r.append(entry.as_str());
                r.append("': expected a non-negative integer");
            },
            DscpError::MixedWeights => {
                r.append(
                    "give a weight for every DSCP (e.g. ef:60,cs1:40) or for none (equal split)",
                );
            },
            DscpError::WeightSum(n) => {
                r.append("--dscp weights must sum to 100, got ");
                push_decimal(&mut r, *n);
            },
            DscpError::SetOption { option, cause } => {
                r.append("failed to set DSCP via ");
                r.append(option.as_str());
                r.append(": ");
                r.append(cause.as_str());
            },
            DscpError::Unsupported => {
                r.append("DSCP marking is not supported on this platform");
            },
        }
        assert(r@ =~= self@.message());
        r
    }
}

} // verus!
