//! The supported blockchain networks and their base-unit divisors.

use vstd::prelude::*;
use crate::error::ExportError;

verus! {

/// A blockchain network whose staking rewards can be exported.
#[derive(Debug, Clone, Copy, PartialEq, Eq, Structural)]
pub enum Network {
    /// The Polkadot network.
    Polkadot,
    /// The Kusama network.
    Kusama,
}

impl Network {
    /// Number of decimal digits separating the smallest on-chain unit from
    /// the display denomination (DOT or KSM).
    pub open spec fn spec_divisor_exp(self) -> nat {
        match self {
            Network::Polkadot => 10,
            Network::Kusama => 12,
        }
    }

    /// The base-unit divisor: 10^10 for Polkadot, 10^12 for Kusama.
    pub open spec fn spec_divisor(self) -> u128 {
        match self {
            Network::Polkadot => 10_000_000_000,
            Network::Kusama => 1_000_000_000_000,
        }
    }

    /// The base-unit divisor as an executable value.
    pub fn divisor(&self) -> (d: u128)
        ensures
            d == self.spec_divisor(),
    {
        match self {
            Network::Polkadot => 10_000_000_000,
            Network::Kusama => 1_000_000_000_000,
        }
    }

    /// The identifier used when naming output files.
    pub open spec fn spec_id(self) -> Seq<char> {
        match self {
            Network::Polkadot => "polkdadot"@,
            Network::Kusama => "kusama"@,
        }
    }

    /// The identifier used when naming output files.
    pub fn id(&self) -> (s: &'static str)
        ensures
            s@ == self.spec_id(),
    {
        match self {
            Network::Polkadot => "polkdadot",
            Network::Kusama => "kusama",
        }
    }
}

/// The text that lowercasing a string yields; it depends on the characters
/// alone.
pub uninterp spec fn lowercase_of(s: Seq<char>) -> Seq<char>;

/// Relies on str::to_lowercase: the result is a function of the input
/// characters alone.
#[verifier::external_body]
fn to_lowercase_string(s: &str) -> (r: String)
    ensures
        r@ == lowercase_of(s@),
{
    s.to_lowercase()
}

/// The network a lowercased name denotes, if any: "polkadot" and "dot" name
/// Polkadot, "kusama" and "ksm" name Kusama.
pub open spec fn spec_network_for_name(s: Seq<char>) -> Option<Network> {
    if s == "polkadot"@ || s == "dot"@ {
        Some(Network::Polkadot)
    } else if s == "kusama"@ || s == "ksm"@ {
        Some(Network::Kusama)
    } else {
        None
    }
}

/// Decides which network an already-lowercased name denotes.
pub fn network_for_lowered_name(s: &String) -> (r: Option<Network>)
    ensures
        r == spec_network_for_name(s@),
{
    let polkadot = String::from_str("polkadot");
    let dot = String::from_str("dot");
    let kusama = String::from_str("kusama");
    let ksm = String::from_str("ksm");
    if s.eq(&polkadot) || s.eq(&dot) {
        Some(Network::Polkadot)
    } else if s.eq(&kusama) || s.eq(&ksm) {
        Some(Network::Kusama)
    } else {
        None
    }
}

/// Parses a network name, ignoring case: accepts the case variants of
/// "polkadot", "dot", "kusama" and "ksm", and rejects everything else with
/// `UnknownNetwork` carrying the name as supplied.
pub fn parse_network(s: &str) -> (r: Result<Network, ExportError>)
    ensures
        r is Ok <==> spec_network_for_name(lowercase_of(s@)) is Some,
        r matches Ok(n) ==> spec_network_for_name(lowercase_of(s@)) == Some(n),
        r matches Err(e) ==> (e matches ExportError::UnknownNetwork { name } && name@ == s@),
{
    let lowered = to_lowercase_string(s);
    match network_for_lowered_name(&lowered) {
        Some(n) => Ok(n),
        None => Err(ExportError::UnknownNetwork { name: s.to_owned() }),
    }
}

} // verus!
