//! Classifying relay addresses into timeout classes.

use vstd::prelude::*;

verus! {

/// Seconds a standard relay gets to become ready.
pub const DIRECT_CONNECTION_TIMEOUT_SECS: u64 = 10;

/// Seconds a relay behind the anonymity network gets to become ready.
pub const ONION_CONNECTION_TIMEOUT_SECS: u64 = 60;

/// Port of the local SOCKS proxy that routes onion traffic.
pub const PROXY_PORT: u16 = 9050;

/// How a relay is reached, which decides its deadline and its route.
#[derive(Clone, Copy, Debug, PartialEq, Eq, Structural)]
pub enum AddressClass {
    Standard,
    AnonymityRouted,
}

/// A forward proxy: an IPv4 address `a.b.c.d` and a port.
#[derive(Clone, Copy, Debug, PartialEq, Eq, Structural)]
pub struct ProxyEndpoint {
    pub a: u8,
    pub b: u8,
    pub c: u8,
    pub d: u8,
    pub port: u16,
}

/// Whether `url` is a relay address (`None` if not) and, if it is, whether
/// its host is an onion service.
pub uninterp spec fn relay_url_onion(url: Seq<char>) -> Option<bool>;

/// The class of an address that parses, given whether its host is onion.
pub open spec fn class_of_onion(onion: bool) -> AddressClass {
    if onion {
        AddressClass::AnonymityRouted
    } else {
        AddressClass::Standard
    }
}

/// The class of `url`, or `None` when it is no relay address.
pub open spec fn class_of(url: Seq<char>) -> Option<AddressClass> {
    match relay_url_onion(url) {
        Some(onion) => Some(class_of_onion(onion)),
        None => None,
    }
}

pub open spec fn timeout_of(class: AddressClass) -> u64 {
    match class {
        AddressClass::Standard => DIRECT_CONNECTION_TIMEOUT_SECS,
        AddressClass::AnonymityRouted => ONION_CONNECTION_TIMEOUT_SECS,
    }
}

/// Relies on `nostr::RelayUrl::parse`, which accepts `ws` and `wss` URLs with
/// one scheme separator, and on `RelayUrl::is_onion`, whether the parsed
/// domain ends in `.onion`. Both depend on the text alone.
#[verifier::external_body]
fn parse_onion_flag(url: &str) -> (r: Option<bool>)
    ensures
        r == relay_url_onion(url@),
{
    match nostr::RelayUrl::parse(url) {
        Ok(u) => Some(u.is_onion()),
        Err(_) => None,
    }
}

/// The class of a relay address whose host has been found to be onion or not.
pub fn class_for(onion: bool) -> (r: AddressClass)
    ensures
        r == class_of_onion(onion),
        onion <==> r == AddressClass::AnonymityRouted,
{
    if onion {
        AddressClass::AnonymityRouted
    } else {
        AddressClass::Standard
    }
}

/// Classifies a relay address; `None` when the text is no relay address.
pub fn classify_address(url: &str) -> (r: Option<AddressClass>)
    ensures
        r == class_of(url@),
{
    match parse_onion_flag(url) {
        Some(onion) => Some(class_for(onion)),
        None => None,
    }
}

/// The deadline, in seconds, for connecting to a relay of this class and for
/// each probe made on its session.
pub fn connection_timeout_secs(class: AddressClass) -> (r: u64)
    ensures
        r == timeout_of(class),
        class == AddressClass::Standard ==> r == 10,
        class == AddressClass::AnonymityRouted ==> r == 60,
{
    match class {
        AddressClass::Standard => DIRECT_CONNECTION_TIMEOUT_SECS,
        AddressClass::AnonymityRouted => ONION_CONNECTION_TIMEOUT_SECS,
    }
}

/// The proxy a session to a relay of this class goes through: the local
/// SOCKS endpoint for onion relays, none for the others.
pub fn proxy_for(class: AddressClass) -> (r: Option<ProxyEndpoint>)
    ensures
        class == AddressClass::Standard ==> r.is_none(),
        class == AddressClass::AnonymityRouted ==> r == Some(
            ProxyEndpoint { a: 127u8, b: 0u8, c: 0u8, d: 1u8, port: PROXY_PORT },
        ),
{
    match class {
        AddressClass::Standard => None,
        AddressClass::AnonymityRouted => Some(ProxyEndpoint { a: 127, b: 0, c: 0, d: 1, port: PROXY_PORT }),
    }
}

/// Classification depends on the address alone: equal addresses get equal
/// classes, an onion class gets the longer deadline and a standard class the
/// shorter one.
pub proof fn lemma_classification_deterministic(a: Seq<char>, b: Seq<char>)
    requires
        a == b,
    ensures
        class_of(a) == class_of(b),
        class_of(a) == Some(AddressClass::AnonymityRouted) ==> timeout_of(
            AddressClass::AnonymityRouted,
        ) == 60,
        class_of(a) == Some(AddressClass::Standard) ==> timeout_of(AddressClass::Standard) == 10,
        timeout_of(AddressClass::Standard) < timeout_of(AddressClass::AnonymityRouted),
{
}

} // verus!
