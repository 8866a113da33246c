//! Where the server listens and who may reach it.

use vstd::prelude::*;

use crate::status::{TonicStatusError, grpc_permission_denied};

verus! {

/// An address of a machine.
#[derive(Clone, Copy, Debug, PartialEq, Eq)]
pub enum IpAddress {
    /// The four bytes of an IPv4 address.
    V4([u8; 4]),
    /// The eight segments of an IPv6 address.
    V6([u16; 8]),
}

/// Whether the first seven segments are zero and the last is `last`.
pub open spec fn ends_in(segments: Seq<u16>, last: u16) -> bool {
    segments == seq![0u16, 0u16, 0u16, 0u16, 0u16, 0u16, 0u16, last]
}

fn segments_end_in(segments: &[u16; 8], last: u16) -> (b: bool)
    ensures
        b == ends_in(segments@, last),
{
    let b: bool = segments[0] == 0 && segments[1] == 0 && segments[2] == 0 && segments[3] == 0
        && segments[4] == 0 && segments[5] == 0 && segments[6] == 0 && segments[7] == last;
    assert(b ==> segments@ =~= seq![0u16, 0u16, 0u16, 0u16, 0u16, 0u16, 0u16, last]);
    b
}

impl IpAddress {
    /// An address of this machine, seen from this machine: 127.0.0.0/8, or `::1`.
    pub open spec fn loopback(self) -> bool {
        match self {
            IpAddress::V4(octets) => octets@[0] == 127,
            IpAddress::V6(segments) => ends_in(segments@, 1),
        }
    }

    /// The address that stands for all: 0.0.0.0, or `::`.
    pub open spec fn unspecified(self) -> bool {
        match self {
            IpAddress::V4(octets) => octets@ == seq![0u8, 0u8, 0u8, 0u8],
            IpAddress::V6(segments) => ends_in(segments@, 0),
        }
    }

    /// See [`IpAddress::loopback`].
    pub fn is_loopback(&self) -> (b: bool)
        ensures
            b == self.loopback(),
    {
        match self {
            IpAddress::V4(octets) => octets[0] == 127,
            IpAddress::V6(segments) => segments_end_in(segments, 1),
        }
    }

    /// See [`IpAddress::unspecified`].
    pub fn is_unspecified(&self) -> (b: bool)
        ensures
            b == self.unspecified(),
    {
        match self {
            IpAddress::V4(octets) => {
                let b: bool = octets[0] == 0 && octets[1] == 0 && octets[2] == 0 && octets[3] == 0;
                assert(b ==> octets@ =~= seq![0u8, 0u8, 0u8, 0u8]);
                b
            },
            IpAddress::V6(segments) => segments_end_in(segments, 0),
        }
    }
}

/// Refuses every request whose peer is not on this machine.
#[derive(Clone, Copy, Debug, Default)]
pub struct LoopbackOnly;

impl LoopbackOnly {
    /// Lets a request from the address `remote` pass, or says why it does not. A request whose
    /// origin is unknown does not.
    pub fn call(&self, remote: Option<IpAddress>) -> (result: Result<(), TonicStatusError>)
        ensures
            match result {
                Ok(()) => remote matches Some(ip) && ip.loopback(),
                Err(status) => {
                    &&& !(remote matches Some(ip) && ip.loopback())
                    &&& status.code == grpc_permission_denied()
                    &&& status.message@ == "Only connections from the local machine are allowed"@
                    &&& status.metadata is None
                },
            },
    {
        let local: bool = match remote {
            Some(ip) => ip.is_loopback(),
            None => false,
        };
        if local {
            Ok(())
        } else {
            Err(
                TonicStatusError::permission_denied(
                    "Only connections from the local machine are allowed",
                ),
            )
        }
    }
}

/// Whether the server has to listen on both kinds of addresses by itself. A Windows machine that is
/// asked to listen on all IPv6 addresses would otherwise leave the IPv4 ones out.
pub fn listens_on_both_stacks(is_windows: bool, ip: &IpAddress) -> (b: bool)
    ensures
        b == (is_windows && ip is V6 && ip.unspecified()),
{
    match ip {
        IpAddress::V6(_) => is_windows && ip.is_unspecified(),
        IpAddress::V4(_) => false,
    }
}

/// The decimal digits of `n`.
pub open spec fn decimal(n: nat) -> Seq<char>
    decreases n,
{
    if n < 10 {
        seq![digit(n)]
    } else {
        decimal(n / 10).push(digit(n % 10))
    }
}

/// The character of a digit.
pub open spec fn digit(d: nat) -> char {
    seq!['0', '1', '2', '3', '4', '5', '6', '7', '8', '9'][d as int]
}

fn digit_text(d: u16) -> (s: &'static str)
    requires
        d < 10,
    ensures
        s@ == seq![digit(d as nat)],
{
    proof {
        reveal_strlit("0");
        reveal_strlit("1");
        reveal_strlit("2");
        reveal_strlit("3");
        reveal_strlit("4");
        reveal_strlit("5");
        reveal_strlit("6");
        reveal_strlit("7");
        reveal_strlit("8");
        reveal_strlit("9");
    }
    let s: &'static str = if d == 0 {
        "0"
    } else if d == 1 {
        "1"
    } else if d == 2 {
        "2"
    } else if d == 3 {
        "3"
    } else if d == 4 {
        "4"
    } else if d == 5 {
        "5"
    } else if d == 6 {
        "6"
    } else if d == 7 {
        "7"
    } else if d == 8 {
        "8"
    } else {
        "9"
    };
    assert(s@ =~= seq![digit(d as nat)]);
    s
}

fn append_decimal(s: &mut String, n: u16)
    ensures
        final(s)@ == old(s)@ + decimal(n as nat),
    decreases n,
{
    if n >= 10 {
        append_decimal(s, n / 10);
        s.append(digit_text(n % 10));
        assert(s@ =~= old(s)@ + decimal(n as nat));
    } else {
        s.append(digit_text(n));
    }
}

/// What a viewer connects to, as text, for a server at `ip` and `port`, which together are written
/// `addr`. A server that listens on all addresses, or on both kinds of them, is best reached on
/// this machine.
pub open spec fn connect_text(
    both_stacks: bool,
    ip: IpAddress,
    port: u16,
    addr: Seq<char>,
) -> Seq<char> {
    if both_stacks || ip.loopback() || ip.unspecified() {
        "rerun+http://127.0.0.1:"@ + decimal(port as nat) + "/proxy"@
    } else {
        "rerun+http://"@ + addr + "/proxy"@
    }
}

/// See [`connect_text`].
pub fn connect_addr(both_stacks: bool, ip: &IpAddress, port: u16, addr: &str) -> (text: String)
    ensures
        text@ == connect_text(both_stacks, *ip, port, addr@),
{
    let mut text: String;
    if both_stacks || ip.is_loopback() || ip.is_unspecified() {
        text = "rerun+http://127.0.0.1:".to_owned();
        append_decimal(&mut text, port);
    } else {
        text = "rerun+http://".to_owned();
        text.append(addr);
    }
    text.append("/proxy");
    text
}

/// Addresses of this machine are those of 127.0.0.0/8 and `::1`, and no others.
pub proof fn loopback_is_this_machine_only(octets: [u8; 4], segments: [u16; 8])
    ensures
        IpAddress::V4(octets).loopback() <==> octets@[0] == 127,
        IpAddress::V6(segments).loopback() <==> segments@[7] == 1 && forall|i: int|
            0 <= i < 7 ==> #[trigger] segments@[i] == 0,
        IpAddress::V4(octets).unspecified() <==> forall|i: int|
            0 <= i < 4 ==> #[trigger] octets@[i] == 0,
        IpAddress::V6(segments).unspecified() <==> forall|i: int|
            0 <= i < 8 ==> #[trigger] segments@[i] == 0,
{
    let one = seq![0u16, 0u16, 0u16, 0u16, 0u16, 0u16, 0u16, 1u16];
    let zero = seq![0u16, 0u16, 0u16, 0u16, 0u16, 0u16, 0u16, 0u16];
    let none = seq![0u8, 0u8, 0u8, 0u8];
    if segments@[7] == 1 && forall|i: int| 0 <= i < 7 ==> #[trigger] segments@[i] == 0 {
        assert(segments@ =~= one);
    }
    if forall|i: int| 0 <= i < 8 ==> #[trigger] segments@[i] == 0 {
        assert(segments@ =~= zero);
    }
    if forall|i: int| 0 <= i < 4 ==> #[trigger] octets@[i] == 0 {
        assert(octets@ =~= none);
    }
}

/// The number that decimal digits stand for.
pub open spec fn number(digits: Seq<char>) -> int
    decreases digits.len(),
{
    if digits.len() == 0 {
        0
    } else {
        10 * number(digits.drop_last()) + (digits.last() as int - '0' as int)
    }
}

/// A number is written in digits that read as that number, without a zero in front of others.
pub proof fn decimal_reads_back(n: nat)
    ensures
        number(decimal(n)) == n,
        decimal(n).len() > 0,
        decimal(n)[0] == '0' ==> n == 0 && decimal(n).len() == 1,
        forall|i: int| 0 <= i < decimal(n).len() ==> '0' <= #[trigger] decimal(n)[i] <= '9',
    decreases n,
{
    if n >= 10 {
        decimal_reads_back(n / 10);
        assert(decimal(n).drop_last() =~= decimal(n / 10));
    } else {
        assert(decimal(n).drop_last() =~= Seq::empty());
        assert(number(Seq::<char>::empty()) == 0);
    }
}

/// A server that listens on all addresses, on both kinds of them, or only on this machine is connected to
/// on this machine, at its port. Any other is connected to at its own address.
pub proof fn servers_are_reached_where_they_listen(
    both_stacks: bool,
    ip: IpAddress,
    port: u16,
    addr: Seq<char>,
)
    ensures
        both_stacks || ip.loopback() || ip.unspecified() ==> connect_text(both_stacks, ip, port, addr)
            == "rerun+http://127.0.0.1:"@ + decimal(port as nat) + "/proxy"@,
        !both_stacks && !ip.loopback() && !ip.unspecified() ==> connect_text(
            both_stacks,
            ip,
            port,
            addr,
        ) == "rerun+http://"@ + addr + "/proxy"@,
{
}

} // verus!
