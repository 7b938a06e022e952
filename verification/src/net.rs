//! IP and socket addresses, and their text as the standard library's
//! `Display` writes it.

use vstd::prelude::*;

use crate::text::{
    dec_text, dec_value, digit_char, hex_text, hex_value, is_dec_digit, is_hex_digit, lemma_dec_text_digits,
    lemma_dec_text_injective, lemma_hex_text_digits, lemma_hex_text_injective, lemma_split_at_first,
    lemma_split_at_last, push_char, push_decimal, push_hex,
};

verus! {

broadcast use vstd::array::group_array_axioms;

/// An IPv4 address (four octets) or an IPv6 address (eight 16-bit segments).
#[derive(Clone, Copy, Debug, PartialEq, Eq)]
pub enum IpAddress {
    V4([u8; 4]),
    V6([u16; 8]),
}

/// A socket address: an IP address with a port. An IPv6 socket address also
/// carries its flow information and scope id.
#[derive(Clone, Copy, Debug, PartialEq, Eq)]
#[allow(inconsistent_fields)]
pub enum SocketAddress {
    V4 { ip: [u8; 4], port: u16 },
    V6 { ip: [u16; 8], port: u16, flowinfo: u32, scope_id: u32 },
}

/// Dotted-decimal text of four octets, such as `192.168.1.1`.
pub open spec fn ipv4_text(o: Seq<u8>) -> Seq<char> {
    dec_text(o[0] as nat) + seq!['.'] + dec_text(o[1] as nat) + seq!['.'] + dec_text(o[2] as nat)
        + seq!['.'] + dec_text(o[3] as nat)
}

/// Segments in lower-case hexadecimal, separated by `:`.
pub open spec fn join_hex(s: Seq<u16>) -> Seq<char>
    decreases s.len(),
{
    if s.len() == 0 {
        seq![]
    } else if s.len() == 1 {
        hex_text(s[0] as nat)
    } else {
        join_hex(s.drop_last()) + seq![':'] + hex_text(s.last() as nat)
    }
}

/// The number of consecutive zero segments that start at `i`.
pub open spec fn zero_run(s: Seq<u16>, i: nat) -> nat
    decreases s.len() - i,
{
    if i < s.len() && s[i as int] == 0 {
        1 + zero_run(s, i + 1)
    } else {
        0
    }
}

/// Among the runs of zero segments that start at `i` or later, the first of
/// the longest, as (start, length); length 0 where there is none.
pub open spec fn longest_zero_run(s: Seq<u16>, i: nat) -> (nat, nat)
    decreases s.len() - i,
{
    if i >= s.len() {
        (s.len(), 0)
    } else {
        let rest = longest_zero_run(s, i + 1);
        if zero_run(s, i) > 0 && zero_run(s, i) >= rest.1 {
            (i, zero_run(s, i))
        } else {
            rest
        }
    }
}

/// Whether eight segments are an IPv4-mapped address `::ffff:a.b.c.d`.
pub open spec fn is_ipv4_mapped(s: Seq<u16>) -> bool {
    &&& s[0] == 0 && s[1] == 0 && s[2] == 0 && s[3] == 0 && s[4] == 0
    &&& s[5] == 0xffff
}

/// The four octets carried in the last two segments.
pub open spec fn mapped_octets(s: Seq<u16>) -> Seq<u8> {
    seq![(s[6] / 256) as u8, (s[6] % 256) as u8, (s[7] / 256) as u8, (s[7] % 256) as u8]
}

/// RFC 5952 text of eight segments: an IPv4-mapped address in mixed
/// notation, else the first longest run of two or more zero segments
/// written as `::`.
pub open spec fn ipv6_text(s: Seq<u16>) -> Seq<char> {
    if is_ipv4_mapped(s) {
        seq![':', ':', 'f', 'f', 'f', 'f', ':'] + ipv4_text(mapped_octets(s))
    } else {
        let (start, len) = longest_zero_run(s, 0);
        if len > 1 {
            join_hex(s.subrange(0, start as int)) + seq![':', ':'] + join_hex(
                s.subrange((start + len) as int, s.len() as int),
            )
        } else {
            join_hex(s)
        }
    }
}

impl IpAddress {
    /// The text of the address.
    pub open spec fn text(self) -> Seq<char> {
        match self {
            IpAddress::V4(o) => ipv4_text(o@),
            IpAddress::V6(s) => ipv6_text(s@),
        }
    }
}

impl SocketAddress {
    /// The IP address of the socket address.
    pub open spec fn spec_ip(self) -> IpAddress {
        match self {
            SocketAddress::V4 { ip, .. } => IpAddress::V4(ip),
            SocketAddress::V6 { ip, .. } => IpAddress::V6(ip),
        }
    }

    /// The text of the socket address: `a.b.c.d:port`, `[v6]:port`, or
    /// `[v6%scope]:port` where the scope id is not zero.
    pub open spec fn text(self) -> Seq<char> {
        match self {
            SocketAddress::V4 { ip, port, .. } => ipv4_text(ip@) + seq![':'] + dec_text(
                port as nat,
            ),
            SocketAddress::V6 { ip, port, scope_id, .. } => seq!['['] + ipv6_text(ip@) + (if scope_id
                == 0 {
                seq![]
            } else {
                seq!['%'] + dec_text(scope_id as nat)
            }) + seq![']', ':'] + dec_text(port as nat),
        }
    }
}

fn push_ipv4(s: &mut String, o: &[u8; 4])
    ensures
        final(s)@ == old(s)@ + ipv4_text(o@),
{
    push_decimal(s, o[0] as u32);
    push_char(s, '.');
    push_decimal(s, o[1] as u32);
    push_char(s, '.');
    push_decimal(s, o[2] as u32);
    push_char(s, '.');
    push_decimal(s, o[3] as u32);
    assert(s@ =~= old(s)@ + ipv4_text(o@));
}

/// Appends `seg[lo..hi]` in hexadecimal, separated by `:`.
fn push_hex_groups(s: &mut String, seg: &[u16; 8], lo: usize, hi: usize)
    requires
        lo <= hi <= 8,
    ensures
        final(s)@ == old(s)@ + join_hex(seg@.subrange(lo as int, hi as int)),
{
    let mut j = lo;
    assert(seg@.subrange(lo as int, lo as int) =~= Seq::<u16>::empty());
    while j < hi
        invariant
            lo <= j <= hi <= 8,
            s@ == old(s)@ + join_hex(seg@.subrange(lo as int, j as int)),
        decreases hi - j,
    {
        let ghost sub = seg@.subrange(lo as int, j + 1);
        if j > lo {
            push_char(s, ':');
        }
        push_hex(s, seg[j] as u32);
        assert(sub.drop_last() =~= seg@.subrange(lo as int, j as int));
        if j == lo {
            assert(sub.len() == 1);
        }
        assert(s@ =~= old(s)@ + join_hex(sub));
        j = j + 1;
    }
}

proof fn lemma_zero_run_bound(s: Seq<u16>, i: nat)
    ensures
        zero_run(s, i) <= if i <= s.len() { s.len() - i } else { 0 },
        zero_run(s, i) > 0 ==> i < s.len() && s[i as int] == 0,
    decreases s.len() - i,
{
    if i < s.len() && s[i as int] == 0 {
        lemma_zero_run_bound(s, i + 1);
    }
}

proof fn lemma_longest_bound(s: Seq<u16>, i: nat)
    requires
        i <= s.len(),
    ensures
        longest_zero_run(s, i).0 + longest_zero_run(s, i).1 <= s.len(),
    decreases s.len() - i,
{
    if i < s.len() {
        lemma_longest_bound(s, i + 1);
        lemma_zero_run_bound(s, i);
    }
}

/// The first longest run of zero segments, as (start, length).
fn find_longest_zero_run(seg: &[u16; 8]) -> (r: (usize, usize))
    ensures
        r.0 == longest_zero_run(seg@, 0).0,
        r.1 == longest_zero_run(seg@, 0).1,
        r.0 + r.1 <= 8,
{
    let mut i: usize = 8;
    let mut run: usize = 0;
    let mut best_start: usize = 8;
    let mut best_len: usize = 0;
    while i > 0
        invariant
            i <= 8,
            seg@.len() == 8,
            run == zero_run(seg@, i as nat),
            best_start == longest_zero_run(seg@, i as nat).0,
            best_len == longest_zero_run(seg@, i as nat).1,
        decreases i,
    {
        i = i - 1;
        proof {
            lemma_zero_run_bound(seg@, (i + 1) as nat);
        }
        if seg[i] == 0 {
            run = run + 1;
        } else {
            run = 0;
        }
        if run > 0 && run >= best_len {
            best_start = i;
            best_len = run;
        }
    }
    proof {
        lemma_longest_bound(seg@, 0);
    }
    (best_start, best_len)
}

fn push_ipv6(s: &mut String, seg: &[u16; 8])
    ensures
        final(s)@ == old(s)@ + ipv6_text(seg@),
{
    if seg[0] == 0 && seg[1] == 0 && seg[2] == 0 && seg[3] == 0 && seg[4] == 0 && seg[5] == 0xffff {
        push_char(s, ':');
        push_char(s, ':');
        push_char(s, 'f');
        push_char(s, 'f');
        push_char(s, 'f');
        push_char(s, 'f');
        push_char(s, ':');
        let o: [u8; 4] = [
            (seg[6] / 256) as u8,
            (seg[6] % 256) as u8,
            (seg[7] / 256) as u8,
            (seg[7] % 256) as u8,
        ];
        push_ipv4(s, &o);
        assert(o@ =~= mapped_octets(seg@));
        assert(s@ =~= old(s)@ + ipv6_text(seg@));
    } else {
        let (start, len) = find_longest_zero_run(seg);
        if len > 1 {
            push_hex_groups(s, seg, 0, start);
            push_char(s, ':');
            push_char(s, ':');
            push_hex_groups(s, seg, start + len, 8);
            assert(s@ =~= old(s)@ + ipv6_text(seg@));
        } else {
            push_hex_groups(s, seg, 0, 8);
            assert(seg@.subrange(0, 8) =~= seg@);
        }
    }
}

impl IpAddress {
    /// The address as text, as the standard library's `Display` writes it.
    pub fn to_string(&self) -> (res: String)
        ensures
            res@ == self.text(),
    {
        let mut s = String::new();
        match self {
            IpAddress::V4(o) => push_ipv4(&mut s, o),
            IpAddress::V6(seg) => push_ipv6(&mut s, seg),
        }
        s
    }

    /// Whether two addresses are the same address.
    pub fn same_as(&self, other: &IpAddress) -> (res: bool)
        ensures
            res == (*self == *other),
    {
        match (self, other) {
            (IpAddress::V4(a), IpAddress::V4(b)) => {
                let r = a[0] == b[0] && a[1] == b[1] && a[2] == b[2] && a[3] == b[3];
                if r {
                    assert(*a =~= *b);
                }
                r
            },
            (IpAddress::V6(a), IpAddress::V6(b)) => {
                let r = a[0] == b[0] && a[1] == b[1] && a[2] == b[2] && a[3] == b[3] && a[4]
                    == b[4] && a[5] == b[5] && a[6] == b[6] && a[7] == b[7];
                if r {
                    assert(*a =~= *b);
                }
                r
            },
            _ => false,
        }
    }
}

impl SocketAddress {
    /// The IP address of the socket address.
    pub fn ip(&self) -> (res: IpAddress)
        ensures
            res == self.spec_ip(),
    {
        match self {
            SocketAddress::V4 { ip, .. } => IpAddress::V4(*ip),
            SocketAddress::V6 { ip, .. } => IpAddress::V6(*ip),
        }
    }

    /// The socket address as text, as the standard library's `Display`
    /// writes it.
    pub fn to_string(&self) -> (res: String)
        ensures
            res@ == self.text(),
    {
        let mut s = String::new();
        match self {
            SocketAddress::V4 { ip, port } => {
                push_ipv4(&mut s, ip);
                push_char(&mut s, ':');
                push_decimal(&mut s, *port as u32);
            },
            SocketAddress::V6 { ip, port, scope_id, .. } => {
                push_char(&mut s, '[');
                push_ipv6(&mut s, ip);
                if *scope_id != 0 {
                    push_char(&mut s, '%');
                    push_decimal(&mut s, *scope_id);
                }
                push_char(&mut s, ']');
                push_char(&mut s, ':');
                push_decimal(&mut s, *port as u32);
            },
        }
        assert(s@ =~= self.text());
        s
    }
}


proof fn lemma_dec_text_has_no(n: nat, c: char)
    requires
        !is_dec_digit(c),
    ensures
        !dec_text(n).contains(c),
{
    lemma_dec_text_digits(n);
    if dec_text(n).contains(c) {
        let i = choose|i: int| 0 <= i < dec_text(n).len() && dec_text(n)[i] == c;
        assert(is_dec_digit(dec_text(n)[i]));
    }
}

proof fn lemma_ipv4_text_has_no_colon(o: Seq<u8>)
    requires
        o.len() == 4,
    ensures
        !ipv4_text(o).contains(':'),
{
    let t = ipv4_text(o);
    lemma_dec_text_has_no(o[0] as nat, ':');
    lemma_dec_text_has_no(o[1] as nat, ':');
    lemma_dec_text_has_no(o[2] as nat, ':');
    lemma_dec_text_has_no(o[3] as nat, ':');
    if t.contains(':') {
        let i = choose|i: int| 0 <= i < t.len() && t[i] == ':';
        let l0 = dec_text(o[0] as nat).len() as int;
        let l1 = dec_text(o[1] as nat).len() as int;
        let l2 = dec_text(o[2] as nat).len() as int;
        if i < l0 {
            assert(dec_text(o[0] as nat)[i] == ':');
        } else if i == l0 {
        } else if i < l0 + 1 + l1 {
            assert(dec_text(o[1] as nat)[i - l0 - 1] == ':');
        } else if i == l0 + 1 + l1 {
        } else if i < l0 + l1 + 2 + l2 {
            assert(dec_text(o[2] as nat)[i - l0 - l1 - 2] == ':');
        } else if i == l0 + l1 + 2 + l2 {
        } else {
            assert(dec_text(o[3] as nat)[i - l0 - l1 - l2 - 3] == ':');
        }
    }
}

/// Two quadruples of octets with the same dotted-decimal text are equal.
#[verifier::spinoff_prover]
#[verifier::rlimit(50)]
proof fn lemma_ipv4_text_injective(a: Seq<u8>, b: Seq<u8>)
    requires
        a.len() == 4,
        b.len() == 4,
        ipv4_text(a) == ipv4_text(b),
    ensures
        a == b,
{
    let dot = '.';
    let da0 = dec_text(a[0] as nat);
    let da1 = dec_text(a[1] as nat);
    let da2 = dec_text(a[2] as nat);
    let da3 = dec_text(a[3] as nat);
    let db0 = dec_text(b[0] as nat);
    let db1 = dec_text(b[1] as nat);
    let db2 = dec_text(b[2] as nat);
    let db3 = dec_text(b[3] as nat);
    lemma_dec_text_has_no(a[0] as nat, dot);
    lemma_dec_text_has_no(a[1] as nat, dot);
    lemma_dec_text_has_no(a[2] as nat, dot);
    lemma_dec_text_has_no(b[0] as nat, dot);
    lemma_dec_text_has_no(b[1] as nat, dot);
    lemma_dec_text_has_no(b[2] as nat, dot);
    let ra2 = da2 + seq![dot] + da3;
    let rb2 = db2 + seq![dot] + db3;
    let ra1 = da1 + seq![dot] + ra2;
    let rb1 = db1 + seq![dot] + rb2;
    assert(ipv4_text(a) =~= da0 + seq![dot] + ra1);
    assert(ipv4_text(b) =~= db0 + seq![dot] + rb1);
    lemma_split_at_first(da0, ra1, db0, rb1, dot);
    lemma_split_at_first(da1, ra2, db1, rb2, dot);
    lemma_split_at_first(da2, da3, db2, db3, dot);
    lemma_dec_text_injective(a[0] as nat, b[0] as nat);
    lemma_dec_text_injective(a[1] as nat, b[1] as nat);
    lemma_dec_text_injective(a[2] as nat, b[2] as nat);
    lemma_dec_text_injective(a[3] as nat, b[3] as nat);
    assert(a =~= b);
}

proof fn lemma_join_hex_has_colon(s: Seq<u16>)
    requires
        s.len() >= 2,
    ensures
        join_hex(s).contains(':'),
{
    let p = join_hex(s.drop_last());
    assert(join_hex(s)[p.len() as int] == ':');
}

proof fn lemma_ipv6_text_has_colon(s: Seq<u16>)
    requires
        s.len() == 8,
    ensures
        ipv6_text(s).contains(':'),
{
    let t = ipv6_text(s);
    if is_ipv4_mapped(s) {
        assert(t[0] == ':');
    } else {
        let (start, len) = longest_zero_run(s, 0);
        if len > 1 {
            let p = join_hex(s.subrange(0, start as int));
            assert(t[p.len() as int] == ':');
        } else {
            lemma_join_hex_has_colon(s);
        }
    }
}

/// The text of an IPv4 address is the text of no other address, IPv4 or
/// IPv6.
pub proof fn lemma_ipv4_text_unique(a: IpAddress, b: IpAddress)
    requires
        a is V4,
        a.text() == b.text(),
    ensures
        a == b,
{
    match (a, b) {
        (IpAddress::V4(x), IpAddress::V4(y)) => {
            lemma_ipv4_text_injective(x@, y@);
            assert(x =~= y);
        },
        (IpAddress::V4(x), IpAddress::V6(y)) => {
            lemma_ipv4_text_has_no_colon(x@);
            lemma_ipv6_text_has_colon(y@);
        },
        _ => {},
    }
}


/// The shape of segments joined by `:`: hexadecimal digits and single
/// colons, never a colon at the end, and a colon only between two segments.
proof fn lemma_join_hex_shape(s: Seq<u16>)
    ensures
        forall|i: int|
            0 <= i < join_hex(s).len() ==> is_hex_digit(#[trigger] join_hex(s)[i]) || join_hex(
                s,
            )[i] == ':',
        forall|i: int|
            0 <= i < join_hex(s).len() - 1 && #[trigger] join_hex(s)[i] == ':' ==> join_hex(s)[i
                + 1] != ':',
        s.len() > 0 <==> join_hex(s).len() > 0,
        join_hex(s).len() > 0 ==> is_hex_digit(join_hex(s).last()),
        s.len() <= 1 ==> !join_hex(s).contains(':'),
    decreases s.len(),
{
    let t = join_hex(s);
    if s.len() == 1 {
        lemma_hex_text_digits(s[0] as nat);
        if t.contains(':') {
            let i = choose|i: int| 0 <= i < t.len() && t[i] == ':';
            assert(is_hex_digit(t[i]));
        }
    } else if s.len() >= 2 {
        let j = join_hex(s.drop_last());
        let h = hex_text(s.last() as nat);
        lemma_join_hex_shape(s.drop_last());
        lemma_hex_text_digits(s.last() as nat);
        assert(t == j + seq![':'] + h);
        assert forall|i: int|
            0 <= i < t.len() implies is_hex_digit(#[trigger] t[i]) || t[i] == ':' by {
            if i < j.len() {
                assert(t[i] == j[i]);
            } else if i > j.len() {
                assert(t[i] == h[i - j.len() - 1]);
            }
        }
        assert forall|i: int| 0 <= i < t.len() - 1 && #[trigger] t[i] == ':' implies t[i + 1] != ':' by {
            if i < j.len() - 1 {
                assert(t[i] == j[i]);
                assert(t[i + 1] == j[i + 1]);
            } else if i == j.len() - 1 {
                assert(t[i] == j.last());
            } else if i == j.len() {
                assert(t[i + 1] == h[0]);
            } else {
                assert(t[i] == h[i - j.len() - 1]);
            }
        }
        assert(t.last() == h.last());
    }
}

proof fn lemma_hex_text_has_no_colon(n: nat)
    ensures
        !hex_text(n).contains(':'),
{
    lemma_hex_text_digits(n);
    if hex_text(n).contains(':') {
        let i = choose|i: int| 0 <= i < hex_text(n).len() && hex_text(n)[i] == ':';
        assert(is_hex_digit(hex_text(n)[i]));
    }
}

/// Segments are told apart by their joined text.
proof fn lemma_join_hex_injective(a: Seq<u16>, b: Seq<u16>)
    requires
        join_hex(a) == join_hex(b),
    ensures
        a == b,
    decreases a.len(),
{
    lemma_join_hex_shape(a);
    lemma_join_hex_shape(b);
    if a.len() >= 2 {
        lemma_join_hex_has_colon(a);
    }
    if b.len() >= 2 {
        lemma_join_hex_has_colon(b);
    }
    if a.len() == 0 {
        assert(b.len() == 0);
        assert(a =~= b);
    } else if a.len() == 1 {
        assert(b.len() == 1);
        lemma_hex_text_injective(a[0] as nat, b[0] as nat);
        assert(a =~= b);
    } else {
        assert(b.len() >= 2);
        lemma_hex_text_has_no_colon(a.last() as nat);
        lemma_hex_text_has_no_colon(b.last() as nat);
        lemma_split_at_last(
            join_hex(a.drop_last()),
            hex_text(a.last() as nat),
            join_hex(b.drop_last()),
            hex_text(b.last() as nat),
            ':',
        );
        lemma_join_hex_injective(a.drop_last(), b.drop_last());
        lemma_hex_text_injective(a.last() as nat, b.last() as nat);
        assert(a =~= a.drop_last().push(a.last()));
        assert(b =~= b.drop_last().push(b.last()));
    }
}

proof fn lemma_zero_run_zeros(s: Seq<u16>, i: nat)
    ensures
        i + zero_run(s, i) <= s.len() || zero_run(s, i) == 0,
        forall|j: int| i <= j < i + zero_run(s, i) ==> s[j] == 0,
    decreases s.len() - i,
{
    if i < s.len() && s[i as int] == 0 {
        lemma_zero_run_zeros(s, i + 1);
    }
}

/// The run that `longest_zero_run` picks lies within the segments and is
/// made of zeros.
proof fn lemma_longest_zero_run_zeros(s: Seq<u16>, i: nat)
    requires
        i <= s.len(),
    ensures
        longest_zero_run(s, i).1 > 0 ==> longest_zero_run(s, i).0 + longest_zero_run(s, i).1
            <= s.len() && forall|j: int|
            longest_zero_run(s, i).0 <= j < longest_zero_run(s, i).0 + longest_zero_run(s, i).1
                ==> s[j] == 0,
    decreases s.len() - i,
{
    if i < s.len() {
        lemma_longest_zero_run_zeros(s, i + 1);
        lemma_zero_run_zeros(s, i);
    }
}

/// The text of a non-mapped address holds only hexadecimal digits and
/// colons; it holds two colons in a row exactly where a run was compressed.
proof fn lemma_plain_ipv6_text(s: Seq<u16>)
    requires
        s.len() == 8,
        !is_ipv4_mapped(s),
    ensures
        forall|i: int| 0 <= i < ipv6_text(s).len() ==> is_hex_digit(#[trigger] ipv6_text(s)[i]) || ipv6_text(s)[i] == ':',
        longest_zero_run(s, 0).1 <= 1 ==> forall|i: int|
            0 <= i < ipv6_text(s).len() - 1 && #[trigger] ipv6_text(s)[i] == ':' ==> ipv6_text(s)[i
                + 1] != ':',
{
    let t = ipv6_text(s);
    let (start, len) = longest_zero_run(s, 0);
    lemma_longest_bound(s, 0);
    if len > 1 {
        let p = join_hex(s.subrange(0, start as int));
        let q = join_hex(s.subrange((start + len) as int, 8));
        lemma_join_hex_shape(s.subrange(0, start as int));
        lemma_join_hex_shape(s.subrange((start + len) as int, 8));
        assert forall|i: int|
            0 <= i < t.len() implies is_hex_digit(#[trigger] t[i]) || t[i] == ':' by {
            if i < p.len() {
                assert(t[i] == p[i]);
            } else if i >= p.len() + 2 {
                assert(t[i] == q[i - p.len() - 2]);
            }
        }
    } else {
        lemma_join_hex_shape(s);
    }
}

/// Two groups of eight segments with the same RFC 5952 text are equal.
#[verifier::spinoff_prover]
#[verifier::rlimit(50)]
proof fn lemma_ipv6_text_injective(a: Seq<u16>, b: Seq<u16>)
    requires
        a.len() == 8,
        b.len() == 8,
        ipv6_text(a) == ipv6_text(b),
    ensures
        a == b,
{
    let t = ipv6_text(a);
    let prefix = seq![':', ':', 'f', 'f', 'f', 'f', ':'];
    if is_ipv4_mapped(a) && is_ipv4_mapped(b) {
        let va = ipv4_text(mapped_octets(a));
        let vb = ipv4_text(mapped_octets(b));
        assert(va =~= t.subrange(7, t.len() as int));
        assert(vb =~= t.subrange(7, t.len() as int));
        lemma_ipv4_text_injective(mapped_octets(a), mapped_octets(b));
        assert(mapped_octets(a)[0] == mapped_octets(b)[0]);
        assert(mapped_octets(a)[1] == mapped_octets(b)[1]);
        assert(mapped_octets(a)[2] == mapped_octets(b)[2]);
        assert(mapped_octets(a)[3] == mapped_octets(b)[3]);
        assert(a[6] == (a[6] / 256) * 256 + a[6] % 256);
        assert(b[6] == (b[6] / 256) * 256 + b[6] % 256);
        assert(a[7] == (a[7] / 256) * 256 + a[7] % 256);
        assert(b[7] == (b[7] / 256) * 256 + b[7] % 256);
        assert(a =~= b);
    } else if is_ipv4_mapped(a) || is_ipv4_mapped(b) {
        let (m, o) = if is_ipv4_mapped(a) {
            (a, b)
        } else {
            (b, a)
        };
        let d0 = dec_text(mapped_octets(m)[0] as nat);
        lemma_dec_text_digits(mapped_octets(m)[0] as nat);
        assert(ipv6_text(m)[7 + d0.len() as int] == '.');
        lemma_plain_ipv6_text(o);
        assert(is_hex_digit(ipv6_text(o)[7 + d0.len() as int]) || ipv6_text(o)[7 + d0.len() as int] == ':');
    } else {
        let (sa, la) = longest_zero_run(a, 0);
        let (sb, lb) = longest_zero_run(b, 0);
        lemma_longest_bound(a, 0);
        lemma_longest_bound(b, 0);
        lemma_plain_ipv6_text(a);
        lemma_plain_ipv6_text(b);
        if la > 1 && lb > 1 {
            let pa = join_hex(a.subrange(0, sa as int));
            let qa = join_hex(a.subrange((sa + la) as int, 8));
            let pb = join_hex(b.subrange(0, sb as int));
            let qb = join_hex(b.subrange((sb + lb) as int, 8));
            lemma_join_hex_shape(a.subrange(0, sa as int));
            lemma_join_hex_shape(b.subrange(0, sb as int));
            assert(t == pa + seq![':', ':'] + qa);
            assert(t == pb + seq![':', ':'] + qb);
            if pa.len() < pb.len() {
                assert(t[pa.len() as int] == ':');
                assert(pb[pa.len() as int] == ':');
                assert(t[pa.len() as int + 1] == ':');
                if pa.len() + 1 < pb.len() {
                    assert(pb[pa.len() as int + 1] == ':');
                } else {
                    assert(pb.last() == ':');
                }
            } else if pb.len() < pa.len() {
                assert(t[pb.len() as int] == ':');
                assert(pa[pb.len() as int] == ':');
                assert(t[pb.len() as int + 1] == ':');
                if pb.len() + 1 < pa.len() {
                    assert(pa[pb.len() as int + 1] == ':');
                } else {
                    assert(pa.last() == ':');
                }
            }
            assert(pa =~= t.subrange(0, pa.len() as int));
            assert(pb =~= t.subrange(0, pa.len() as int));
            assert(qa =~= t.subrange(pa.len() as int + 2, t.len() as int));
            assert(qb =~= t.subrange(pa.len() as int + 2, t.len() as int));
            lemma_join_hex_injective(a.subrange(0, sa as int), b.subrange(0, sb as int));
            lemma_join_hex_injective(a.subrange((sa + la) as int, 8), b.subrange((sb + lb) as int, 8));
            assert(sa == sb);
            assert(la == lb);
            lemma_longest_zero_run_zeros(a, 0);
            lemma_longest_zero_run_zeros(b, 0);
            assert forall|j: int| 0 <= j < 8 implies a[j] == b[j] by {
                if j < sa {
                    assert(a[j] == a.subrange(0, sa as int)[j]);
                    assert(b[j] == b.subrange(0, sb as int)[j]);
                } else if j >= sa + la {
                    assert(a[j] == a.subrange((sa + la) as int, 8)[j - sa - la]);
                    assert(b[j] == b.subrange((sb + lb) as int, 8)[j - sb - lb]);
                }
            }
            assert(a =~= b);
        } else if la > 1 || lb > 1 {
            let (c, u) = if la > 1 {
                (a, b)
            } else {
                (b, a)
            };
            let (sc, lc) = longest_zero_run(c, 0);
            let pc = join_hex(c.subrange(0, sc as int));
            assert(ipv6_text(c)[pc.len() as int] == ':');
            assert(ipv6_text(c)[pc.len() as int + 1] == ':');
            assert(ipv6_text(u)[pc.len() as int] == ':');
        } else {
            lemma_join_hex_injective(a, b);
        }
    }
}

/// The text of an address is the text of no other address.
pub proof fn lemma_ip_text_injective(a: IpAddress, b: IpAddress)
    requires
        a.text() == b.text(),
    ensures
        a == b,
{
    match (a, b) {
        (IpAddress::V6(x), IpAddress::V6(y)) => {
            lemma_ipv6_text_injective(x@, y@);
            assert(x =~= y);
        },
        (IpAddress::V6(x), IpAddress::V4(y)) => {
            lemma_ipv4_text_unique(b, a);
        },
        _ => {
            lemma_ipv4_text_unique(a, b);
        },
    }
}


proof fn lemma_longest_zero_run_from(s: Seq<u16>, i: nat)
    ensures
        forall|j: nat| i <= j ==> #[trigger] zero_run(s, j) <= longest_zero_run(s, i).1,
        longest_zero_run(s, i).1 > 0 ==> i <= longest_zero_run(s, i).0 && zero_run(
            s,
            longest_zero_run(s, i).0,
        ) == longest_zero_run(s, i).1,
        forall|j: nat|
            i <= j < longest_zero_run(s, i).0 && longest_zero_run(s, i).1 > 0 ==> #[trigger] zero_run(s, j) < longest_zero_run(
                s,
                i,
            ).1,
    decreases s.len() - i,
{
    if i >= s.len() {
        assert forall|j: nat| i <= j implies #[trigger] zero_run(s, j) <= longest_zero_run(s, i).1 by {
        }
    } else {
        lemma_longest_zero_run_from(s, i + 1);
        assert forall|j: nat| i <= j implies #[trigger] zero_run(s, j) <= longest_zero_run(s, i).1 by {
            if j > i {
                assert(zero_run(s, j) <= longest_zero_run(s, i + 1).1);
            }
        }
        assert forall|j: nat|
            i <= j < longest_zero_run(s, i).0 && longest_zero_run(s, i).1 > 0 implies #[trigger] zero_run(s, j) < longest_zero_run(
                s,
                i,
            ).1 by {
            if j > i {
                assert(zero_run(s, j) < longest_zero_run(s, i + 1).1);
            }
        }
    }
}

/// The run of zero segments that the text compresses is a longest one, and
/// the first of the longest: no run anywhere is longer, every run that
/// starts before it is shorter, and where its length is not zero it is
/// exactly the run of zeros that starts at its start.
pub proof fn lemma_compressed_run_is_first_longest(s: Seq<u16>)
    ensures
        forall|j: nat| #[trigger] zero_run(s, j) <= longest_zero_run(s, 0).1,
        longest_zero_run(s, 0).1 > 0 ==> forall|j: nat| j < longest_zero_run(s, 0).0 ==> #[trigger] zero_run(s, j) < longest_zero_run(s, 0).1,
        longest_zero_run(s, 0).1 == 0 ==> forall|j: int| 0 <= j < s.len() ==> s[j] != 0,
        longest_zero_run(s, 0).1 > 0 ==> zero_run(s, longest_zero_run(s, 0).0) == longest_zero_run(s, 0).1,
        longest_zero_run(s, 0).1 > 0 ==> longest_zero_run(s, 0).0 + longest_zero_run(s, 0).1 <= s.len(),
        longest_zero_run(s, 0).1 > 0 ==> forall|j: int|
            longest_zero_run(s, 0).0 <= j < longest_zero_run(s, 0).0 + longest_zero_run(s, 0).1 ==> s[j] == 0,
{
    lemma_longest_zero_run_from(s, 0);
    lemma_longest_zero_run_zeros(s, 0);
    if longest_zero_run(s, 0).1 == 0 {
        assert forall|j: int| 0 <= j < s.len() implies s[j] != 0 by {
            assert(zero_run(s, j as nat) <= 0);
        }
    }
}


/// `d` is the decimal numeral of `n`: decimal digits only, no leading zero
/// (but for `0` itself), spelling `n`.
pub open spec fn decimal_numeral(d: Seq<char>, n: int) -> bool {
    &&& d.len() > 0
    &&& forall|i: int| 0 <= i < d.len() ==> is_dec_digit(#[trigger] d[i])
    &&& (d.len() > 1 ==> d[0] != '0')
    &&& dec_value(d) == n
}

proof fn lemma_dec_text_numeral(n: nat)
    ensures
        decimal_numeral(dec_text(n), n as int),
    decreases n,
{
    lemma_dec_text_digits(n);
    if n >= 10 {
        lemma_dec_text_numeral(n / 10);
        let t = dec_text(n);
        assert(t[0] == dec_text(n / 10)[0]);
        if n / 10 < 10 {
            assert(dec_text(n / 10)[0] == digit_char(n / 10));
            assert(digit_char(n / 10) as int == n / 10 + 48);
            assert(('0' as int) == 48);
            assert(dec_text(n / 10)[0] != '0');
        } else {
            lemma_dec_text_digits(n / 100);
            assert(dec_text(n / 10).len() > 1);
        }
        assert(t.len() > 1);
        assert(t[0] != '0');
    }
}

/// The dotted text of four octets is four decimal numerals, one per octet
/// in order, separated by dots.
pub proof fn lemma_ipv4_text_spells_octets(o: Seq<u8>)
    requires
        o.len() == 4,
    ensures
        exists|d0: Seq<char>, d1: Seq<char>, d2: Seq<char>, d3: Seq<char>|
            #![trigger decimal_numeral(d0, o[0] as int), decimal_numeral(d1, o[1] as int), decimal_numeral(d2, o[2] as int), decimal_numeral(d3, o[3] as int)]
            ipv4_text(o) == d0 + seq!['.'] + d1 + seq!['.'] + d2 + seq!['.'] + d3 && decimal_numeral(
                d0,
                o[0] as int,
            ) && decimal_numeral(d1, o[1] as int) && decimal_numeral(d2, o[2] as int)
                && decimal_numeral(d3, o[3] as int),
{
    lemma_dec_text_numeral(o[0] as nat);
    lemma_dec_text_numeral(o[1] as nat);
    lemma_dec_text_numeral(o[2] as nat);
    lemma_dec_text_numeral(o[3] as nat);
}

/// The text of a socket address spells its fields: the address's text, then
/// (for a scoped IPv6 address) `%` and the scope id as a decimal numeral,
/// then `:` and the port as a decimal numeral; an IPv6 address stands in
/// brackets.
pub proof fn lemma_socket_text_spells_fields(a: SocketAddress)
    ensures
        match a {
            SocketAddress::V4 { ip, port } => exists|p: Seq<char>|
                #![trigger decimal_numeral(p, port as int)]
                a.text() == ipv4_text(ip@) + seq![':'] + p && decimal_numeral(p, port as int),
            SocketAddress::V6 { ip, port, scope_id, .. } => if scope_id == 0 {
                exists|p: Seq<char>|
                    #![trigger decimal_numeral(p, port as int)]
                    a.text() == seq!['['] + ipv6_text(ip@) + seq![']', ':'] + p && decimal_numeral(
                        p,
                        port as int,
                    )
            } else {
                exists|d: Seq<char>, p: Seq<char>|
                    #![trigger decimal_numeral(d, scope_id as int), decimal_numeral(p, port as int)]
                    a.text() == seq!['['] + ipv6_text(ip@) + seq!['%'] + d + seq![']', ':'] + p
                        && decimal_numeral(d, scope_id as int) && decimal_numeral(p, port as int)
            },
        },
{
    match a {
        SocketAddress::V4 { ip, port } => {
            lemma_dec_text_numeral(port as nat);
        },
        SocketAddress::V6 { ip, port, scope_id, .. } => {
            lemma_dec_text_numeral(port as nat);
            lemma_dec_text_numeral(scope_id as nat);
            if scope_id == 0 {
                assert(a.text() =~= seq!['['] + ipv6_text(ip@) + seq![']', ':'] + dec_text(port as nat));
            } else {
                assert(a.text() =~= seq!['['] + ipv6_text(ip@) + seq!['%'] + dec_text(scope_id as nat)
                    + seq![']', ':'] + dec_text(port as nat));
            }
        },
    }
}


/// An IPv6 address is written with a dot (in mixed notation) exactly when
/// it is IPv4-mapped: five zero segments, then `ffff`.
pub proof fn lemma_ipv6_text_dotted_iff_mapped(s: Seq<u16>)
    requires
        s.len() == 8,
    ensures
        ipv6_text(s).contains('.') <==> (s[0] == 0 && s[1] == 0 && s[2] == 0 && s[3] == 0 && s[4]
            == 0 && s[5] == 0xffff),
{
    let t = ipv6_text(s);
    if is_ipv4_mapped(s) {
        let d0 = dec_text(mapped_octets(s)[0] as nat);
        lemma_dec_text_digits(mapped_octets(s)[0] as nat);
        assert(t[7 + d0.len() as int] == '.');
    } else {
        lemma_plain_ipv6_text(s);
        if t.contains('.') {
            let i = choose|i: int| 0 <= i < t.len() && t[i] == '.';
            assert(is_hex_digit(t[i]) || t[i] == ':');
        }
    }
}

/// A non-mapped IPv6 address is written with two colons in a row exactly
/// when it has a run of two or more zero segments.
pub proof fn lemma_ipv6_text_compressed_iff_zero_run(s: Seq<u16>)
    requires
        s.len() == 8,
        !(s[0] == 0 && s[1] == 0 && s[2] == 0 && s[3] == 0 && s[4] == 0 && s[5] == 0xffff),
    ensures
        (exists|i: int| 0 <= i < ipv6_text(s).len() - 1 && #[trigger] ipv6_text(s)[i] == ':' && ipv6_text(s)[i + 1] == ':')
            <==> (exists|j: nat| #[trigger] zero_run(s, j) >= 2),
{
    let t = ipv6_text(s);
    lemma_plain_ipv6_text(s);
    lemma_compressed_run_is_first_longest(s);
    lemma_longest_bound(s, 0);
    let (start, len) = longest_zero_run(s, 0);
    if len > 1 {
        let p = join_hex(s.subrange(0, start as int));
        assert(t[p.len() as int] == ':');
        assert(t[p.len() as int + 1] == ':');
        assert(zero_run(s, start) >= 2);
    } else {
        if exists|j: nat| #[trigger] zero_run(s, j) >= 2 {
            let j = choose|j: nat| #[trigger] zero_run(s, j) >= 2;
            assert(zero_run(s, j) <= len);
        }
    }
}


/// `zero_run(s, j)` is the length of the whole run of zero segments that
/// starts at `j`: every segment in it is zero, and the segment just after
/// it (if any) is not.
pub proof fn lemma_zero_run_is_maximal(s: Seq<u16>, j: nat)
    ensures
        j + zero_run(s, j) <= s.len() || zero_run(s, j) == 0,
        forall|k: int| j <= k < j + zero_run(s, j) ==> s[k] == 0,
        j + zero_run(s, j) < s.len() ==> s[(j + zero_run(s, j)) as int] != 0,
    decreases s.len() - j,
{
    lemma_zero_run_zeros(s, j);
    if j < s.len() && s[j as int] == 0 {
        lemma_zero_run_is_maximal(s, j + 1);
    }
}


/// `d` is the lower-case hexadecimal numeral of `n`: hexadecimal digits
/// only, no leading zero (but for `0` itself), spelling `n`.
pub open spec fn hex_numeral(d: Seq<char>, n: int) -> bool {
    &&& d.len() > 0
    &&& forall|i: int| 0 <= i < d.len() ==> is_hex_digit(#[trigger] d[i])
    &&& (d.len() > 1 ==> d[0] != '0')
    &&& hex_value(d) == n
}

proof fn lemma_hex_text_numeral(n: nat)
    ensures
        hex_numeral(hex_text(n), n as int),
    decreases n,
{
    lemma_hex_text_digits(n);
    if n >= 16 {
        lemma_hex_text_numeral(n / 16);
        let t = hex_text(n);
        assert(t[0] == hex_text(n / 16)[0]);
        if n / 16 < 16 {
            assert(hex_text(n / 16)[0] == digit_char(n / 16));
            assert(('0' as int) == 48);
            if n / 16 < 10 {
                assert(digit_char(n / 16) as int == n / 16 + 48);
            } else {
                assert(digit_char(n / 16) as int == n / 16 + 87);
            }
            assert(hex_text(n / 16)[0] != '0');
        } else {
            lemma_hex_text_digits(n / 256);
            assert(hex_text(n / 16).len() > 1);
        }
        assert(t.len() > 1);
        assert(t[0] != '0');
    }
}

/// Segments joined by `:` spell each segment as a hexadecimal numeral: one
/// segment is its numeral alone, and a longer list is the text of all but
/// its last segment, a colon, and the last segment's numeral.
pub proof fn lemma_join_hex_spells_segments(s: Seq<u16>)
    requires
        s.len() >= 1,
    ensures
        s.len() == 1 ==> hex_numeral(join_hex(s), s[0] as int),
        s.len() >= 2 ==> exists|g: Seq<char>|
            #![trigger hex_numeral(g, s.last() as int)]
            join_hex(s) == join_hex(s.drop_last()) + seq![':'] + g && hex_numeral(g, s.last() as int),
{
    if s.len() == 1 {
        lemma_hex_text_numeral(s[0] as nat);
    } else {
        lemma_hex_text_numeral(s.last() as nat);
    }
}

} // verus!
