//! The interface listing: one line per bound address of each interface,
//! tagged with its address family; an empty interface list yields no
//! output at all.

use vstd::prelude::*;
use crate::render::{spec_decimal, decimal_string};

verus! {

/// An address bound to an interface, as the platform reports it: the
/// family tag, the address already rendered as text, and the prefix
/// length of the network it belongs to.
pub struct BoundAddress {
    pub ipv4: bool,
    pub address: String,
    pub prefix: u8,
}

/// A network interface: its numeric index, its name, and its bound
/// addresses.
pub struct Interface {
    pub index: u32,
    pub name: String,
    pub addresses: Vec<BoundAddress>,
}

/// The family tag printed for a bound address.
pub open spec fn spec_family_tag(ipv4: bool) -> Seq<char> {
    if ipv4 {
        "ipv4"@
    } else {
        "ipv6"@
    }
}

/// The line for one bound address of one interface: index, name, family
/// tag, and address with prefix, tab-separated.
pub open spec fn spec_address_line(index: u32, name: Seq<char>, addr: BoundAddress) -> Seq<char> {
    spec_decimal(index as nat) + "\t"@ + name + "\t"@ + spec_family_tag(addr.ipv4) + "\t\t"@
        + addr.address@ + " / "@ + spec_decimal(addr.prefix as nat)
}

/// Every address line carries the family tag of its own address as a
/// field of its own: right after the index and the name, each closed by
/// one tab, stand the four characters `ipv4` or `ipv6`.
pub proof fn lemma_address_line_tag(index: u32, name: Seq<char>, addr: BoundAddress)
    ensures
        ({
            let line = spec_address_line(index, name, addr);
            let pos = spec_decimal(index as nat).len() + 1 + name.len() + 1;
            &&& pos + 4 <= line.len()
            &&& line.subrange(pos as int, pos as int + 4) == spec_family_tag(addr.ipv4)
        }),
{
    reveal_strlit("\t");
    reveal_strlit("\t\t");
    reveal_strlit("ipv4");
    reveal_strlit("ipv6");
    reveal_strlit(" / ");
    let line = spec_address_line(index, name, addr);
    let pos = spec_decimal(index as nat).len() + 1 + name.len() + 1;
    assert(line.subrange(pos as int, pos as int + 4) =~= spec_family_tag(addr.ipv4));
}

/// The lines for one interface: one per bound address, in their order.
pub open spec fn spec_interface_lines(iface: Interface) -> Seq<Seq<char>> {
    iface.addresses@.map_values(
        |addr: BoundAddress| spec_address_line(iface.index, iface.name@, addr),
    )
}

/// The body of the whole listing: each interface's lines, in their order.
pub open spec fn spec_listing_body(ifaces: Seq<Interface>) -> Seq<Seq<char>>
    decreases ifaces.len(),
{
    if ifaces.len() == 0 {
        Seq::<Seq<char>>::empty()
    } else {
        spec_listing_body(ifaces.drop_last()) + spec_interface_lines(ifaces.last())
    }
}

fn family_tag(ipv4: bool) -> (r: &'static str)
    ensures
        r@ == spec_family_tag(ipv4),
{
    if ipv4 {
        "ipv4"
    } else {
        "ipv6"
    }
}

/// Renders the line for one bound address of one interface.
pub fn address_line(index: u32, name: &String, addr: &BoundAddress) -> (r: String)
    ensures
        r@ == spec_address_line(index, name@, *addr),
{
    let mut s = decimal_string(index as u64);
    s.append("\t");
    s.append(name.as_str());
    s.append("\t");
    s.append(family_tag(addr.ipv4));
    s.append("\t\t");
    s.append(addr.address.as_str());
    s.append(" / ");
    let prefix = decimal_string(addr.prefix as u64);
    s.append(prefix.as_str());
    proof {
        assert(s@ =~= spec_address_line(index, name@, *addr));
    }
    s
}

/// Renders the lines for one interface: exactly one line per bound
/// address, in their order, each tagged with its own family; an interface
/// with no bound addresses yields no line at all.
pub fn interface_lines(iface: &Interface) -> (lines: Vec<String>)
    ensures
        lines@.map_values(|s: String| s@) == spec_interface_lines(*iface),
        lines@.len() == iface.addresses@.len(),
        iface.addresses@.len() == 0 ==> lines@.len() == 0,
        forall|i: int|
            0 <= i < lines@.len() ==> lines@[i]@ == spec_address_line(
                iface.index,
                iface.name@,
                iface.addresses@[i],
            ),
{
    let mut lines: Vec<String> = Vec::new();
    let n = iface.addresses.len();
    for k in 0..n
        invariant
            n == iface.addresses@.len(),
            lines@.len() == k,
            forall|i: int|
                0 <= i < k ==> lines@[i]@ == spec_address_line(
                    iface.index,
                    iface.name@,
                    iface.addresses@[i],
                ),
    {
        let line = address_line(iface.index, &iface.name, &iface.addresses[k]);
        lines.push(line);
    }
    proof {
        assert(lines@.map_values(|s: String| s@) =~= spec_interface_lines(*iface));
    }
    lines
}

/// Renders the whole listing: each interface's lines in their order, and
/// nothing else. An empty interface list produces no output at all.
pub fn listing_lines(ifaces: &Vec<Interface>) -> (lines: Vec<String>)
    ensures
        lines@.map_values(|s: String| s@) == spec_listing_body(ifaces@),
        ifaces@.len() == 0 ==> lines@.len() == 0,
{
    let mut lines: Vec<String> = Vec::new();
    proof {
        assert(lines@.map_values(|s: String| s@) =~= spec_listing_body(ifaces@.take(0)));
    }
    let n = ifaces.len();
    for k in 0..n
        invariant
            n == ifaces@.len(),
            lines@.map_values(|s: String| s@) == spec_listing_body(ifaces@.take(k as int)),
    {
        let mut one = interface_lines(&ifaces[k]);
        let ghost before = lines@;
        lines.append(&mut one);
        proof {
            assert(ifaces@.take(k + 1).drop_last() =~= ifaces@.take(k as int));
            assert(ifaces@.take(k + 1).last() == ifaces@[k as int]);
            assert(lines@.map_values(|s: String| s@) =~= before.map_values(|s: String| s@)
                + spec_interface_lines(ifaces@[k as int]));
        }
    }
    proof {
        assert(ifaces@.take(n as int) =~= ifaces@);
    }
    lines
}

} // verus!
