//! Network addresses as radars send them, and the rules for listening to them.
use vstd::prelude::*;

use crate::text::{
    decimal, decimal_is_read_back, format_decimal, is_digit, joined, natural_text, split,
    splitting_undoes_joining,
};
use crate::wire::{be16, le16};

verus! {

/// Whether recorded data is being replayed.
#[derive(Clone, Copy, Debug, PartialEq, Eq, Structural)]
pub struct ReplayMode {
    pub on: bool,
}

/// Turns replay on or off.
pub fn set_replay(mode: &mut ReplayMode, replay: bool)
    ensures
        final(mode).on == replay,
{
    mode.on = replay;
}

/// An IPv4 address, the first octet in the highest byte.
pub open spec fn ipv4(a: int, b: int, c: int, d: int) -> int {
    a * 0x100_0000 + b * 0x1_0000 + c * 0x100 + d
}

/// The dotted form of an IPv4 address.
pub open spec fn ipv4_text(ip: int) -> Seq<char> {
    decimal((ip / 0x100_0000 % 0x100) as nat).push('.') + decimal(
        (ip / 0x1_0000 % 0x100) as nat,
    ).push('.') + decimal((ip / 0x100 % 0x100) as nat).push('.') + decimal((ip % 0x100) as nat)
}

/// An IPv4 address and a port.
#[derive(Clone, Copy, Debug, PartialEq, Eq, Structural)]
pub struct Endpoint {
    pub ip: u32,
    pub port: u16,
}

impl Endpoint {
    /// The usual form of the endpoint, as in `10.0.0.1:80`.
    pub open spec fn text(self) -> Seq<char> {
        ipv4_text(self.ip as int).push(':') + decimal(self.port as nat)
    }

    /// The endpoint at an address that is given by its octets.
    pub fn new(a: u8, b: u8, c: u8, d: u8, port: u16) -> (e: Endpoint)
        ensures
            e.ip == ipv4(a as int, b as int, c as int, d as int),
            e.port == port,
    {
        Endpoint { ip: make_ipv4(a, b, c, d), port }
    }

    /// The usual form of the endpoint, as in `10.0.0.1:80`.
    pub fn to_text(&self) -> (s: String)
        ensures
            s@ == self.text(),
    {
        let mut s = format_ipv4(self.ip);
        s.push(':');
        s.append(format_decimal(self.port as u64).as_str());
        s
    }

    /// Whether the address is a multicast address: its first octet is 224 to 239.
    pub fn is_multicast(&self) -> (r: bool)
        ensures
            r == (224 <= self.ip / 0x100_0000 <= 239),
    {
        let first: u32 = self.ip / 0x100_0000;
        224 <= first && first <= 239
    }
}

/// The address with the given octets.
pub fn make_ipv4(a: u8, b: u8, c: u8, d: u8) -> (ip: u32)
    ensures
        ip == ipv4(a as int, b as int, c as int, d as int),
{
    (a as u32) * 0x100_0000 + (b as u32) * 0x1_0000 + (c as u32) * 0x100 + d as u32
}

/// The dotted form of an IPv4 address.
pub fn format_ipv4(ip: u32) -> (s: String)
    ensures
        s@ == ipv4_text(ip as int),
{
    let mut s = format_decimal((ip / 0x100_0000) as u64);
    s.push('.');
    s.append(format_decimal((ip / 0x1_0000 % 0x100) as u64).as_str());
    s.push('.');
    s.append(format_decimal((ip / 0x100 % 0x100) as u64).as_str());
    s.push('.');
    s.append(format_decimal((ip % 0x100) as u64).as_str());
    proof {
        assert(ip / 0x100_0000 % 0x100 == ip / 0x100_0000);
        assert(s@ =~= ipv4_text(ip as int));
    }
    s
}

/// An endpoint in network byte order, as Navico radars send it.
#[derive(Clone, Copy, Debug)]
pub struct NetworkSocketAddrV4 {
    pub addr: [u8; 4],
    pub port: [u8; 2],
}

/// An endpoint with the lowest byte first, as Raymarine radars send it.
#[derive(Clone, Copy, Debug)]
pub struct LittleEndianSocketAddrV4 {
    pub addr: [u8; 4],
    pub port: [u8; 2],
}

/// The endpoint that six bytes in network byte order denote.
pub open spec fn network_endpoint(data: Seq<u8>, at: int) -> Endpoint {
    Endpoint {
        ip: ipv4(
            data[at] as int,
            data[at + 1] as int,
            data[at + 2] as int,
            data[at + 3] as int,
        ) as u32,
        port: be16(data, at + 4) as u16,
    }
}

/// The endpoint that six bytes with the lowest byte first denote.
pub open spec fn little_endian_endpoint(data: Seq<u8>, at: int) -> Endpoint {
    Endpoint {
        ip: ipv4(
            data[at + 3] as int,
            data[at + 2] as int,
            data[at + 1] as int,
            data[at] as int,
        ) as u32,
        port: le16(data, at + 4) as u16,
    }
}

impl NetworkSocketAddrV4 {
    /// Takes the six bytes at offset `at`.
    pub fn read(data: &[u8], at: usize) -> (r: NetworkSocketAddrV4)
        requires
            at + 6 <= data.len(),
        ensures
            r.addr@ == data@.subrange(at as int, at + 4),
            r.port@ == data@.subrange(at + 4, at + 6),
    {
        let r = NetworkSocketAddrV4 {
            addr: [data[at], data[at + 1], data[at + 2], data[at + 3]],
            port: [data[at + 4], data[at + 5]],
        };
        assert(r.addr@ =~= data@.subrange(at as int, at + 4));
        assert(r.port@ =~= data@.subrange(at + 4, at + 6));
        r
    }

    /// The endpoint that the bytes denote.
    pub fn to_endpoint(&self) -> (e: Endpoint)
        ensures
            e == network_endpoint(self.addr@ + self.port@, 0),
    {
        let ip: u32 = make_ipv4(self.addr[0], self.addr[1], self.addr[2], self.addr[3]);
        let port: u16 = 0x100 * (self.port[0] as u16) + self.port[1] as u16;
        Endpoint { ip, port }
    }
}

impl LittleEndianSocketAddrV4 {
    /// Takes the six bytes at offset `at`.
    pub fn read(data: &[u8], at: usize) -> (r: LittleEndianSocketAddrV4)
        requires
            at + 6 <= data.len(),
        ensures
            r.addr@ == data@.subrange(at as int, at + 4),
            r.port@ == data@.subrange(at + 4, at + 6),
    {
        let r = LittleEndianSocketAddrV4 {
            addr: [data[at], data[at + 1], data[at + 2], data[at + 3]],
            port: [data[at + 4], data[at + 5]],
        };
        assert(r.addr@ =~= data@.subrange(at as int, at + 4));
        assert(r.port@ =~= data@.subrange(at + 4, at + 6));
        r
    }

    /// The endpoint that the bytes denote.
    pub fn to_endpoint(&self) -> (e: Endpoint)
        ensures
            e == little_endian_endpoint(self.addr@ + self.port@, 0),
    {
        let ip: u32 = make_ipv4(self.addr[3], self.addr[2], self.addr[1], self.addr[0]);
        let port: u16 = self.port[0] as u16 + 0x100 * (self.port[1] as u16);
        Endpoint { ip, port }
    }
}

/// Reads an endpoint in network byte order.
pub fn read_network_endpoint(data: &[u8], at: usize) -> (e: Endpoint)
    requires
        at + 6 <= data.len(),
    ensures
        e == network_endpoint(data@, at as int),
{
    NetworkSocketAddrV4::read(data, at).to_endpoint()
}

/// Reads an endpoint with the lowest byte first.
pub fn read_little_endian_endpoint(data: &[u8], at: usize) -> (e: Endpoint)
    requires
        at + 6 <= data.len(),
    ensures
        e == little_endian_endpoint(data@, at as int),
{
    LittleEndianSocketAddrV4::read(data, at).to_endpoint()
}

/// Whether an interface address and a broadcast address lie in the same network.
pub fn match_ipv4(addr: u32, bcast: u32, netmask: u32) -> (r: bool)
    ensures
        r == ((addr & netmask) == (bcast & netmask)),
{
    (addr & netmask) == (bcast & netmask)
}

/// How a socket is bound to receive datagrams.
#[derive(Clone, Copy, Debug, PartialEq, Eq, Structural)]
pub enum Binding {
    /// To the multicast address, joining its group.
    Multicast,
    /// To the broadcast address.
    Broadcast,
    /// To the port alone.
    AnyAddress,
}

/// How a socket is bound to receive the datagrams sent to an address.
pub fn listen_binding(addr: &Endpoint, no_broadcast: bool) -> (b: Binding)
    ensures
        b == if 224 <= addr.ip / 0x100_0000 <= 239 {
            Binding::Multicast
        } else if !no_broadcast {
            Binding::Broadcast
        } else {
            Binding::AnyAddress
        },
{
    if addr.is_multicast() {
        Binding::Multicast
    } else if !no_broadcast {
        Binding::Broadcast
    } else {
        Binding::AnyAddress
    }
}

/// The name of a network interface.
#[derive(Debug)]
pub struct InterfaceId {
    pub name: String,
}

impl InterfaceId {
    /// The interface with a given name.
    pub fn new(name: &str) -> (id: InterfaceId)
        ensures
            id.name@ == name@,
    {
        InterfaceId { name: name.to_owned() }
    }
}

/// Two addresses match under a mask whatever the bits outside it.
pub proof fn match_depends_on_masked_bits(addr: u32, bcast: u32, netmask: u32)
    ensures
        ((addr & netmask) == (bcast & netmask)) <==> ((addr ^ bcast) & netmask) == 0,
{
    assert(((addr & netmask) == (bcast & netmask)) <==> ((addr ^ bcast) & netmask) == 0)
        by (bit_vector);
}

/// An endpoint lies in six bytes in network byte order: the octets of the address from the first to the
/// last, and the port, high byte first.
pub open spec fn lies_at(data: Seq<u8>, at: int, e: Endpoint) -> bool {
    &&& data[at] == e.ip / 0x100_0000
    &&& data[at + 1] == e.ip / 0x1_0000 % 0x100
    &&& data[at + 2] == e.ip / 0x100 % 0x100
    &&& data[at + 3] == e.ip % 0x100
    &&& data[at + 4] == e.port / 0x100
    &&& data[at + 5] == e.port % 0x100
}

/// An endpoint lies in six bytes from the last to the first: the octets of the address, and the port,
/// low byte first.
pub open spec fn lies_reversed_at(data: Seq<u8>, at: int, e: Endpoint) -> bool {
    &&& data[at + 3] == e.ip / 0x100_0000
    &&& data[at + 2] == e.ip / 0x1_0000 % 0x100
    &&& data[at + 1] == e.ip / 0x100 % 0x100
    &&& data[at] == e.ip % 0x100
    &&& data[at + 5] == e.port / 0x100
    &&& data[at + 4] == e.port % 0x100
}

/// The endpoint that lies in six bytes is the one that is read from them.
pub proof fn endpoints_are_read_back(data: Seq<u8>, at: int, e: Endpoint)
    ensures
        lies_at(data, at, e) ==> network_endpoint(data, at) == e,
        lies_reversed_at(data, at, e) ==> little_endian_endpoint(data, at) == e,
{
}

/// The dotted form of an address holds its four octets in order.
pub proof fn addresses_are_spelled_out(a: u8, b: u8, c: u8, d: u8)
    ensures
        ({
            let ip = ipv4(a as int, b as int, c as int, d as int);
            let octets = split(ipv4_text(ip), '.');
            &&& 0 <= ip <= u32::MAX
            &&& octets.len() == 4
            &&& natural_text(octets[0]) == Some(a as int)
            &&& natural_text(octets[1]) == Some(b as int)
            &&& natural_text(octets[2]) == Some(c as int)
            &&& natural_text(octets[3]) == Some(d as int)
        }),
{
    let ip = ipv4(a as int, b as int, c as int, d as int);
    let octets = seq![decimal(a as nat), decimal(b as nat), decimal(c as nat), decimal(d as nat)];
    octets_of(a, b, c, d);
    four_are_joined(decimal(a as nat), decimal(b as nat), decimal(c as nat), decimal(d as nat));
    octets_hold_no_dots(octets, a, b, c, d);
    splitting_undoes_joining(octets, '.');
}

proof fn octets_of(a: u8, b: u8, c: u8, d: u8)
    ensures
        ({
            let ip = ipv4(a as int, b as int, c as int, d as int);
            &&& 0 <= ip <= u32::MAX
            &&& ip / 0x100_0000 % 0x100 == a
            &&& ip / 0x1_0000 % 0x100 == b
            &&& ip / 0x100 % 0x100 == c
            &&& ip % 0x100 == d
        }),
{
}

proof fn four_are_joined(a: Seq<char>, b: Seq<char>, c: Seq<char>, d: Seq<char>)
    ensures
        joined(seq![a, b, c, d], '.') == a.push('.') + b.push('.') + c.push('.') + d,
{
    assert(seq![a, b, c, d].skip(1) =~= seq![b, c, d]);
    assert(seq![b, c, d].skip(1) =~= seq![c, d]);
    assert(seq![c, d].skip(1) =~= seq![d]);
    assert(joined(seq![d], '.') == d);
    assert(joined(seq![c, d], '.') == c + seq!['.'] + d);
    assert(joined(seq![b, c, d], '.') == b + seq!['.'] + joined(seq![c, d], '.'));
    assert(joined(seq![a, b, c, d], '.') == a + seq!['.'] + joined(seq![b, c, d], '.'));
    assert(a + seq!['.'] + (b + seq!['.'] + (c + seq!['.'] + d)) =~= a.push('.') + b.push('.') + c.push(
        '.',
    ) + d);
}

proof fn octets_hold_no_dots(octets: Seq<Seq<char>>, a: u8, b: u8, c: u8, d: u8)
    requires
        octets == seq![decimal(a as nat), decimal(b as nat), decimal(c as nat), decimal(d as nat)],
    ensures
        forall|i: int| 0 <= i < octets.len() ==> !(#[trigger] octets[i]).contains('.'),
        natural_text(octets[0]) == Some(a as int),
        natural_text(octets[1]) == Some(b as int),
        natural_text(octets[2]) == Some(c as int),
        natural_text(octets[3]) == Some(d as int),
{
    decimal_is_read_back(a as nat);
    decimal_is_read_back(b as nat);
    decimal_is_read_back(c as nat);
    decimal_is_read_back(d as nat);
    assert forall|i: int| 0 <= i < octets.len() implies !(#[trigger] octets[i]).contains('.') by {
        assert forall|j: int| 0 <= j < octets[i].len() implies octets[i][j] != '.' by {
            assert(is_digit(octets[i][j]));
        }
    }
}

/// Behind the address of an endpoint and a colon comes its port.
pub proof fn ports_are_spelled_out(e: Endpoint)
    ensures
        split(e.text(), ':').len() == 2,
        split(e.text(), ':')[0] == ipv4_text(e.ip as int),
        natural_text(split(e.text(), ':')[1]) == Some(e.port as int),
{
    let text = ipv4_text(e.ip as int);
    let port = decimal(e.port as nat);
    let parts = seq![text, port];
    decimal_is_read_back(e.port as nat);
    assert(parts.skip(1) =~= seq![port]);
    assert(joined(seq![port], ':') == port);
    assert(joined(parts, ':') =~= e.text());
    assert(!text.contains(':')) by {
        assert forall|j: int| 0 <= j < text.len() implies text[j] != ':' by {
            dotted_holds_digits_and_dots(e.ip as int, j);
        }
    }
    assert(!port.contains(':')) by {
        assert forall|j: int| 0 <= j < port.len() implies port[j] != ':' by {
            assert(is_digit(port[j]));
        }
    }
    splitting_undoes_joining(parts, ':');
}

proof fn dotted_holds_digits_and_dots(ip: int, j: int)
    requires
        0 <= j < ipv4_text(ip).len(),
    ensures
        ipv4_text(ip)[j] == '.' || is_digit(ipv4_text(ip)[j]),
{
    let a = decimal((ip / 0x100_0000 % 0x100) as nat);
    let b = decimal((ip / 0x1_0000 % 0x100) as nat);
    let c = decimal((ip / 0x100 % 0x100) as nat);
    let d = decimal((ip % 0x100) as nat);
    decimal_is_read_back((ip / 0x100_0000 % 0x100) as nat);
    decimal_is_read_back((ip / 0x1_0000 % 0x100) as nat);
    decimal_is_read_back((ip / 0x100 % 0x100) as nat);
    decimal_is_read_back((ip % 0x100) as nat);
    let n1 = a.len() + 1;
    let n2 = n1 + b.len() + 1;
    let n3 = n2 + c.len() + 1;
    if j < n1 {
        if j < a.len() {
            assert(is_digit(a[j]));
        }
    } else if j < n2 {
        if j - n1 < b.len() {
            assert(is_digit(b[j - n1]));
        }
    } else if j < n3 {
        if j - n2 < c.len() {
            assert(is_digit(c[j - n2]));
        }
    } else {
        assert(is_digit(d[j - n3]));
    }
}

} // verus!
