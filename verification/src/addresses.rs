//! The addresses of this host's network interfaces.

use crate::bus::Reply;
use vstd::prelude::*;

verus! {

/// One address of one network interface.
#[derive(Debug, PartialEq, Eq)]
pub struct InterfaceAddress {
    /// The name of the interface.
    pub name: String,
    /// Whether the address is a loopback address.
    pub loopback: bool,
    /// The address, as text.
    pub address: String,
}

/// An [`InterfaceAddress`] as plain values.
pub struct InterfaceAddressView {
    pub name: Seq<char>,
    pub loopback: bool,
    pub address: Seq<char>,
}

impl View for InterfaceAddress {
    type V = InterfaceAddressView;

    open spec fn view(&self) -> InterfaceAddressView {
        InterfaceAddressView { name: self.name@, loopback: self.loopback, address: self.address@ }
    }
}

impl DeepView for InterfaceAddress {
    type V = InterfaceAddressView;

    open spec fn deep_view(&self) -> InterfaceAddressView {
        self@
    }
}

/// The address of `found`, where it belongs to `interface` and is no
/// loopback address.
pub open spec fn published_address(found: InterfaceAddressView, interface: Seq<char>) -> Option<
    Seq<char>,
> {
    if !found.loopback && found.name == interface {
        Some(found.address)
    } else {
        None
    }
}

/// The addresses of `interface` among `found` that are no loopback
/// addresses, in the order of `found`.
pub open spec fn addresses_of(found: Seq<InterfaceAddressView>, interface: Seq<char>) -> Seq<
    Seq<char>,
> {
    found.filter_map(|one: InterfaceAddressView| published_address(one, interface))
}

/// The reply to a request for the addresses of `interface`, given what the
/// host said of its interfaces.
pub open spec fn addresses_reply(
    found: Result<Seq<InterfaceAddressView>, Seq<char>>,
    interface: Seq<char>,
) -> crate::bus::ReplyView {
    match found {
        Ok(found) => crate::bus::ReplyView::Addresses(addresses_of(found, interface)),
        Err(message) => crate::bus::ReplyView::Failed(message),
    }
}

/// Picks the addresses of `interface` that are no loopback addresses.
pub fn select_addresses(found: &Vec<InterfaceAddress>, interface: &str) -> (out: Vec<String>)
    ensures
        out.deep_view() == addresses_of(found.deep_view(), interface@),
{
    let wanted = interface.to_owned();
    let ghost pick = |one: InterfaceAddressView| published_address(one, interface@);
    let mut out: Vec<String> = Vec::new();
    let mut i: usize = 0;
    while i < found.len()
        invariant
            i <= found.len(),
            wanted@ == interface@,
            pick == |one: InterfaceAddressView| published_address(one, interface@),
            out.deep_view() == found.deep_view().take(i as int).filter_map(pick),
        decreases found.len() - i,
    {
        proof {
            found.deep_view().lemma_filter_map_take_succ(pick, i as int);
        }
        if !found[i].loopback && found[i].name == wanted {
            out.push(found[i].address.clone());
        }
        i += 1;
    }
    assert(found.deep_view().take(found.len() as int) =~= found.deep_view());
    out
}

/// Turns what the host said of its interfaces into the reply to a request
/// for the addresses of `interface`.
pub fn reply_addresses(found: Result<Vec<InterfaceAddress>, String>, interface: &str) -> (reply:
    Reply)
    ensures
        reply@ == addresses_reply(
            match found {
                Ok(found) => Ok(found.deep_view()),
                Err(message) => Err(message@),
            },
            interface@,
        ),
{
    match found {
        Ok(found) => Reply::Addresses(select_addresses(&found, interface)),
        Err(message) => Reply::Failed(message),
    }
}

/// Lists the addresses of this host's interfaces with `if_addrs::get_if_addrs`.
///
/// Nothing is claimed of the outcome: it is whatever the host reports at the
/// moment of the call, or the text of the error with which the listing
/// failed.
#[verifier::external_body]
fn host_addresses() -> (found: Result<Vec<InterfaceAddress>, String>) {
    match if_addrs::get_if_addrs() {
        Ok(found) => Ok(
            found.into_iter().map(
                |one| InterfaceAddress {
                    name: one.name.clone(),
                    loopback: one.addr.is_loopback(),
                    address: one.ip().to_string(),
                },
            ).collect(),
        ),
        Err(error) => Err(error.to_string()),
    }
}

/// Answers a request for the addresses of `interface` from what this host
/// reports of its interfaces right now.
///
/// Which addresses come back depends on the host; the reply is always one
/// that answers such a request.
pub fn interface_addresses(interface: &str) -> (reply: Reply)
    ensures
        reply is Addresses || reply is Failed,
{
    reply_addresses(host_addresses(), interface)
}

} // verus!
