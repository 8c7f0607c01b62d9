//! Marking one socket: which option carries the TOS byte, and what became of setting it.

use crate::engine::dscp::{tos_byte, tos_of};
use crate::engine::error::{DscpError, ErrorView};
use vstd::prelude::*;

verus! {

/// The socket option that carries the TOS byte.
#[derive(Debug, Clone, Copy, PartialEq, Eq, Structural)]
pub enum TosOption {
    /// `IP_TOS` at the level `IPPROTO_IP`.
    IpTos,
    /// `IPV6_TCLASS` at the level `IPPROTO_IPV6`.
    Ipv6Tclass,
}

/// Why a socket option was not set.
#[derive(Debug)]
pub enum OptionError {
    /// The operating system refused it, for this reason.
    Refused(String),
    /// The platform has no such option.
    Unsupported,
}

/// The option of a socket of the given family.
pub open spec fn option_of(is_ipv6: bool) -> TosOption {
    if is_ipv6 {
        TosOption::Ipv6Tclass
    } else {
        TosOption::IpTos
    }
}

/// The name of a socket option.
pub open spec fn option_name(option: TosOption) -> Seq<char> {
    match option {
        TosOption::IpTos => "IP_TOS"@,
        TosOption::Ipv6Tclass => "IPV6_TCLASS"@,
    }
}

impl TosOption {
    /// The name of the option.
    pub fn name(&self) -> (r: &'static str)
        ensures
            r@ == option_name(*self),
    {
        match self {
            TosOption::IpTos => "IP_TOS",
            TosOption::Ipv6Tclass => "IPV6_TCLASS",
        }
    }
}

/// What marking a socket comes to, when setting `option` has come to `set`.
pub open spec fn marked(option: TosOption, set: Result<(), OptionError>) -> Result<(), ErrorView> {
    match set {
        Ok(()) => Ok(()),
        Err(OptionError::Refused(cause)) => Err(
            ErrorView::SetOption { option: option_name(option), cause: cause@ },
        ),
        Err(OptionError::Unsupported) => Err(ErrorView::Unsupported),
    }
}

/// A result with its error's contents.
pub open spec fn unit_outcome(r: Result<(), DscpError>) -> Result<(), ErrorView> {
    match r {
        Ok(()) => Ok(()),
        Err(e) => Err(e@),
    }
}

/// What marking a socket comes to, when setting `option` has come to `set`.
pub fn mark_outcome(option: TosOption, set: Result<(), OptionError>) -> (r: Result<(), DscpError>)
    ensures
        unit_outcome(r) == marked(option, set),
{
    match set {
        Ok(()) => Ok(()),
        Err(OptionError::Refused(cause)) => {
            let option = option.name().to_string();
            Err(DscpError::SetOption { option, cause })
        },
        Err(OptionError::Unsupported) => Err(DscpError::Unsupported),
    }
}

/// Sets the DSCP marking on a socket. `set` writes the given byte to the given option of
/// the socket.
///
/// `is_ipv6` selects between `IPV6_TCLASS` and `IP_TOS`. Best-effort: callers should treat
/// an error as "marking unavailable" and continue, not abort.
pub fn apply<F: FnOnce(TosOption, u32) -> Result<(), OptionError>>(
    set: F,
    dscp: u8,
    is_ipv6: bool,
) -> (r: Result<(), DscpError>)
    requires
        forall|tos: u32|
            tos == tos_of(dscp) ==> #[trigger] call_requires(set, (option_of(is_ipv6), tos)),
    ensures
        exists|tos: u32, done: Result<(), OptionError>|
            tos == tos_of(dscp) && #[trigger] call_ensures(set, (option_of(is_ipv6), tos), done)
                && unit_outcome(r) == marked(option_of(is_ipv6), done),
{
    let tos = tos_byte(dscp);
    let option = if is_ipv6 {
        TosOption::Ipv6Tclass
    } else {
        TosOption::IpTos
    };
    let done = set(option, tos);
    let ghost was = done;
    assert(call_ensures(set, (option_of(is_ipv6), tos), was));
    mark_outcome(option, done)
}

} // verus!
