//! Internet addresses: the text a caller names a peer with, and the IPv4
//! block that DHCP offers.
use vstd::prelude::*;
use crate::state::NetError;

verus! {

/// An internet address, as the network stack knows it.
#[derive(Clone, Copy, Debug)]
pub enum IpAddr {
    /// No address assigned.
    Unspecified,
    /// An IPv4 address, its four octets in network order.
    Ipv4([u8; 4]),
    /// An IPv6 address, its sixteen octets in network order.
    Ipv6([u8; 16]),
}

/// The text that `bytes` encode in UTF-8, or `None` where they are not
/// valid UTF-8.
pub uninterp spec fn decoded_utf8(bytes: Seq<u8>) -> Option<Seq<char>>;

/// The address that smoltcp reads from `text`: dotted IPv4 or IPv6
/// notation, the whole text and nothing else; `None` where it reads none.
pub uninterp spec fn parsed_ip_address(text: Seq<char>) -> Option<IpAddr>;

/// The address that the bytes `ip` name, read as UTF-8 text.
pub open spec fn remote_address(ip: Seq<u8>) -> Option<IpAddr> {
    match decoded_utf8(ip) {
        Some(text) => parsed_ip_address(text),
        None => None,
    }
}

/// Calls `std::str::from_utf8`. Trusted: the text it returns is the UTF-8
/// decoding of `bytes`, and it returns `None` exactly where `bytes` are not
/// valid UTF-8; that decoding is left unstated under the name
/// [`decoded_utf8`].
#[verifier::external_body]
fn utf8_text(bytes: &[u8]) -> (r: Option<&str>)
    ensures
        match r {
            Some(text) => decoded_utf8(bytes@) == Some(text@),
            None => decoded_utf8(bytes@) is None,
        },
{
    std::str::from_utf8(bytes).ok()
}

/// Calls smoltcp's `FromStr` for `smoltcp::wire::IpAddress`, and converts
/// the address to an [`IpAddr`]. Trusted: the result is what smoltcp's
/// parser reads from `text`, left unstated under the name
/// [`parsed_ip_address`].
#[verifier::external_body]
fn ip_address_from_text(text: &str) -> (r: Option<IpAddr>)
    ensures
        r == parsed_ip_address(text@),
{
    match text.parse::<smoltcp::wire::IpAddress>() {
        Ok(smoltcp::wire::IpAddress::Ipv4(a)) => Some(IpAddr::Ipv4(a.0)),
        Ok(smoltcp::wire::IpAddress::Ipv6(a)) => Some(IpAddr::Ipv6(a.0)),
        Ok(_) => Some(IpAddr::Unspecified),
        Err(()) => None,
    }
}

/// The address a connect is aimed at, from what parsing gave: a failed
/// parse is an `Illegal` request.
pub fn address_or_illegal(parsed: Option<IpAddr>) -> (r: Result<IpAddr, NetError>)
    ensures
        match parsed {
            Some(a) => r == Ok::<IpAddr, NetError>(a),
            None => r == Err::<IpAddr, NetError>(NetError::Illegal),
        },
{
    match parsed {
        Some(a) => Ok(a),
        None => Err(NetError::Illegal),
    }
}

/// Reads the address of a peer from the bytes a caller passed: UTF-8 text
/// in IPv4 or IPv6 notation. Bytes that are not UTF-8, or text that is no
/// address, give `Illegal`.
pub fn parse_remote_address(ip: &[u8]) -> (r: Result<IpAddr, NetError>)
    ensures
        match remote_address(ip@) {
            Some(a) => r == Ok::<IpAddr, NetError>(a),
            None => r == Err::<IpAddr, NetError>(NetError::Illegal),
        },
{
    match utf8_text(ip) {
        Some(text) => address_or_illegal(ip_address_from_text(text)),
        None => Err(NetError::Illegal),
    }
}

/// Whether an address is unspecified: no address, an IPv4 address in
/// `0.0.0.0/8`, or the IPv6 address `::`.
pub open spec fn is_unspecified_ip(a: IpAddr) -> bool {
    match a {
        IpAddr::Unspecified => true,
        IpAddr::Ipv4(o) => is_unspecified_ipv4(o),
        IpAddr::Ipv6(o) => forall|i: int| 0 <= i < 16 ==> o@[i] == 0,
    }
}

/// An IPv4 address block: an address and the length of its network prefix.
#[derive(Clone, Copy, Debug)]
pub struct Ipv4Cidr {
    pub address: [u8; 4],
    pub prefix_len: u8,
}

/// Whether an IPv4 address lies in the unspecified range `0.0.0.0/8`.
pub open spec fn is_unspecified_ipv4(address: [u8; 4]) -> bool {
    address@[0] == 0
}

/// Tells whether `address` lies in the unspecified range `0.0.0.0/8`, as
/// smoltcp's `Ipv4Address::is_unspecified` does.
pub fn ipv4_is_unspecified(address: [u8; 4]) -> (r: bool)
    ensures
        r == is_unspecified_ipv4(address),
{
    address[0] == 0
}

/// Whether two address blocks are the same: same address, same prefix.
pub open spec fn same_cidr(a: Ipv4Cidr, b: Ipv4Cidr) -> bool {
    a.address@ == b.address@ && a.prefix_len == b.prefix_len
}

/// Tells whether two address blocks are the same.
pub fn cidr_eq(a: &Ipv4Cidr, b: &Ipv4Cidr) -> (r: bool)
    ensures
        r == same_cidr(*a, *b),
{
    let same_address = a.address[0] == b.address[0] && a.address[1] == b.address[1]
        && a.address[2] == b.address[2] && a.address[3] == b.address[3];
    proof {
        if same_address {
            assert(a.address@ =~= b.address@);
        }
    }
    same_address && a.prefix_len == b.prefix_len
}

/// The block that the interface takes from a DHCP offer, when it has been
/// using `current`: an offered block that differs from it and whose address
/// is specified; nothing otherwise.
pub open spec fn dhcp_assignment(current: Ipv4Cidr, offered: Option<Ipv4Cidr>) -> Option<
    Ipv4Cidr,
> {
    match offered {
        Some(cidr) => if !same_cidr(cidr, current) && !is_unspecified_ipv4(cidr.address) {
            Some(cidr)
        } else {
            None
        },
        None => None,
    }
}

/// Decides which address block, if any, the interface takes from a DHCP
/// offer while it uses `current`.
pub fn address_to_assign(current: &Ipv4Cidr, offered: Option<Ipv4Cidr>) -> (r: Option<Ipv4Cidr>)
    ensures
        r == dhcp_assignment(*current, offered),
{
    match offered {
        Some(cidr) => {
            if !cidr_eq(&cidr, current) && !ipv4_is_unspecified(cidr.address) {
                Some(cidr)
            } else {
                None
            }
        },
        None => None,
    }
}

/// Takes a DHCP offer into the block the interface uses: the block it
/// takes, if any, as [`dhcp_assignment`] says, becomes `current`, and is
/// returned to be assigned to the interface.
pub fn take_dhcp_offer(current: &mut Ipv4Cidr, offered: Option<Ipv4Cidr>) -> (r: Option<
    Ipv4Cidr,
>)
    ensures
        r == dhcp_assignment(*old(current), offered),
        r matches Some(taken) ==> *final(current) == taken,
        r is None ==> *final(current) == *old(current),
{
    let taken = address_to_assign(current, offered);
    match taken {
        Some(cidr) => {
            *current = cidr;
        },
        None => {},
    }
    taken
}

/// Once the interface has taken a block from a DHCP offer, the same offer
/// again changes nothing; and a block it takes is always a specified one.
pub proof fn lemma_dhcp_assignment_settles(current: Ipv4Cidr, offered: Option<Ipv4Cidr>)
    ensures
        dhcp_assignment(current, offered) matches Some(taken) ==> dhcp_assignment(taken, offered)
            is None,
        dhcp_assignment(current, offered) matches Some(taken) ==> !is_unspecified_ipv4(
            taken.address,
        ),
{
}

/// A DHCP offer is taken exactly when its block differs from the current
/// one and its address lies outside `0.0.0.0/8`, whatever the current block
/// is; so a changed lease is always followed.
pub proof fn lemma_dhcp_takes_every_new_lease(current: Ipv4Cidr, offered: Ipv4Cidr)
    ensures
        (dhcp_assignment(current, Some(offered)) is Some) <==> ((offered.address@
            != current.address@ || offered.prefix_len != current.prefix_len)
            && offered.address@[0] != 0),
        dhcp_assignment(current, Some(offered)) is Some ==> dhcp_assignment(
            current,
            Some(offered),
        ) == Some(offered),
        dhcp_assignment(current, None) is None,
{
}

/// After one lease was taken, a later, different lease is taken as well.
pub proof fn lemma_dhcp_follows_a_changed_lease(
    current: Ipv4Cidr,
    first: Ipv4Cidr,
    second: Ipv4Cidr,
)
    requires
        dhcp_assignment(current, Some(first)) is Some,
        second.address@ != first.address@ || second.prefix_len != first.prefix_len,
        second.address@[0] != 0,
    ensures
        dhcp_assignment(first, Some(second)) == Some(second),
{
}

} // verus!
