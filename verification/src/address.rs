//! Addresses given as a socket endpoint, and what every kind of address has
//! in common: a connect target.

use vstd::prelude::*;
use vstd::string::StringExecFns;
use crate::domain::Domain;
use crate::text::{decimal, push_decimal};

verus! {

/// The character that stands for a hexadecimal digit.
pub open spec fn hex_digit(d: nat) -> char
    recommends
        d < 16,
{
    seq!['0', '1', '2', '3', '4', '5', '6', '7', '8', '9', 'a', 'b', 'c', 'd', 'e', 'f'][d as int]
}

/// A number written in hexadecimal, in lower case and with no leading zero.
pub open spec fn hexadecimal(n: nat) -> Seq<char>
    decreases n,
{
    if n < 16 {
        seq![hex_digit(n)]
    } else {
        hexadecimal(n / 16).push(hex_digit(n % 16))
    }
}

fn hex_digit_text(d: u16) -> (s: &'static str)
    requires
        d < 16,
    ensures
        s@ == seq![hex_digit(d as nat)],
{
    proof {
        reveal_strlit("0");
        reveal_strlit("1");
        reveal_strlit("2");
        reveal_strlit("3");
        reveal_strlit("4");
        reveal_strlit("5");
        reveal_strlit("6");
        reveal_strlit("7");
        reveal_strlit("8");
        reveal_strlit("9");
        reveal_strlit("a");
        reveal_strlit("b");
        reveal_strlit("c");
        reveal_strlit("d");
        reveal_strlit("e");
        reveal_strlit("f");
    }
    let s = match d {
        0 => "0",
        1 => "1",
        2 => "2",
        3 => "3",
        4 => "4",
        5 => "5",
        6 => "6",
        7 => "7",
        8 => "8",
        9 => "9",
        10 => "a",
        11 => "b",
        12 => "c",
        13 => "d",
        14 => "e",
        _ => "f",
    };
    assert(s@ =~= seq![hex_digit(d as nat)]);
    s
}

/// Appends `n` in hexadecimal to `out`.
pub fn push_hexadecimal(out: &mut String, n: u16)
    ensures
        final(out)@ == old(out)@ + hexadecimal(n as nat),
    decreases n,
{
    if n >= 16 {
        push_hexadecimal(out, n / 16);
    }
    out.append(hex_digit_text(n % 16));
    proof {
        if n >= 16 {
            assert(old(out)@ + hexadecimal((n / 16) as nat) + seq![hex_digit((n % 16) as nat)]
                =~= old(out)@ + hexadecimal(n as nat));
        } else {
            assert(old(out)@ + seq![hex_digit(n as nat)] =~= old(out)@ + hexadecimal(n as nat));
        }
    }
}

/// The texts of `parts`, each but the first with `separator` before it.
pub open spec fn joined(parts: Seq<Seq<char>>, separator: Seq<char>) -> Seq<char>
    decreases parts.len(),
{
    if parts.len() == 0 {
        Seq::<char>::empty()
    } else if parts.len() == 1 {
        parts[0]
    } else {
        joined(parts.drop_last(), separator) + separator + parts.last()
    }
}

/// An IP address.
#[derive(Clone, Copy, Debug, PartialEq, Eq)]
pub enum IpAddress {
    /// The four bytes of an IPv4 address.
    V4([u8; 4]),
    /// The eight groups of an IPv6 address.
    V6([u16; 8]),
}

impl IpAddress {
    /// The address as it is written: four decimal numbers with dots between
    /// them, or eight hexadecimal numbers with colons between them.
    pub open spec fn text(self) -> Seq<char> {
        match self {
            IpAddress::V4(bytes) => joined(bytes@.map_values(|b: u8| decimal(b as nat)), "."@),
            IpAddress::V6(groups) => joined(
                groups@.map_values(|g: u16| hexadecimal(g as nat)),
                ":"@,
            ),
        }
    }
}

/// An address given as a socket endpoint.
#[derive(Clone, Copy, Debug, PartialEq, Eq)]
pub struct TcpAddress {
    pub ip: IpAddress,
    pub port: u16,
}

impl TcpAddress {
    /// Where a connection to this address goes: the IP address, in brackets
    /// where it is an IPv6 address, then a colon and the port.
    pub open spec fn connect_target(self) -> Seq<char> {
        match self.ip {
            IpAddress::V4(_) => self.ip.text() + ":"@ + decimal(self.port as nat),
            IpAddress::V6(_) => "["@ + self.ip.text() + "]:"@ + decimal(self.port as nat),
        }
    }

    /// The endpoint at `ip` and `port`.
    pub fn new(ip: IpAddress, port: u16) -> (address: Self)
        ensures
            address.ip == ip,
            address.port == port,
    {
        TcpAddress { ip, port }
    }

    /// The endpoint as it is written: its connect target.
    pub fn to_string(&self) -> (text: String)
        ensures
            text@ == self.connect_target(),
    {
        self.resolve()
    }

    /// The connect target.
    pub fn resolve(&self) -> (target: String)
        ensures
            target@ == self.connect_target(),
    {
        let mut target = String::new();
        match self.ip {
            IpAddress::V4(bytes) => {
                let ghost parts = bytes@.map_values(|b: u8| decimal(b as nat));
                let mut i: usize = 0;
                while i < 4
                    invariant
                        i <= 4,
                        parts == bytes@.map_values(|b: u8| decimal(b as nat)),
                        target@ == joined(parts.take(i as int), "."@),
                    decreases 4 - i,
                {
                    if i > 0 {
                        target.append(".");
                    }
                    push_decimal(&mut target, bytes[i] as u64);
                    proof {
                        let now = parts.take(i + 1);
                        assert(now.drop_last() =~= parts.take(i as int));
                        assert(now.last() == decimal(bytes@[i as int] as nat));
                        if i == 0 {
                            assert(joined(parts.take(0), "."@) =~= Seq::<char>::empty());
                            assert(target@ =~= now[0]);
                        }
                    }
                    i += 1;
                }
                assert(parts.take(4) =~= parts);
                target.append(":");
            },
            IpAddress::V6(groups) => {
                target.append("[");
                let ghost parts = groups@.map_values(|g: u16| hexadecimal(g as nat));
                let mut i: usize = 0;
                assert("["@ + joined(parts.take(0), ":"@) =~= "["@);
                while i < 8
                    invariant
                        i <= 8,
                        parts == groups@.map_values(|g: u16| hexadecimal(g as nat)),
                        target@ == "["@ + joined(parts.take(i as int), ":"@),
                    decreases 8 - i,
                {
                    if i > 0 {
                        target.append(":");
                    }
                    push_hexadecimal(&mut target, groups[i]);
                    proof {
                        let now = parts.take(i + 1);
                        assert(now.drop_last() =~= parts.take(i as int));
                        assert(now.last() == hexadecimal(groups@[i as int] as nat));
                        if i == 0 {
                            assert(joined(parts.take(0), ":"@) =~= Seq::<char>::empty());
                            assert(target@ =~= "["@ + now[0]);
                        } else {
                            assert(target@ =~= "["@ + (joined(parts.take(i as int), ":"@) + ":"@
                                + now.last()));
                        }
                    }
                    i += 1;
                }
                assert(parts.take(8) =~= parts);
                target.append("]:");
            },
        }
        push_decimal(&mut target, self.port as u64);
        target
    }
}

/// An address that names a connect target.
pub trait Resolvable {
    /// Where a connection to this address goes.
    spec fn target(&self) -> Seq<char>;

    /// The connect target.
    fn resolve(&self) -> (target: String)
        ensures
            target@ == self.target(),
    ;
}

impl Resolvable for TcpAddress {
    open spec fn target(&self) -> Seq<char> {
        self.connect_target()
    }

    fn resolve(&self) -> (target: String) {
        TcpAddress::resolve(self)
    }
}

impl Resolvable for Domain {
    open spec fn target(&self) -> Seq<char> {
        self@.connect_target()
    }

    fn resolve(&self) -> (target: String) {
        Domain::resolve(self)
    }
}

} // verus!
