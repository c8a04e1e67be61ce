//! The three host representations and their one textual form.
use vstd::prelude::*;
use vstd::string::StringSliceAdditionalSpecFns;

verus! {

/// The host of a URL as the parser holds it: a domain name as text, an IPv4
/// address as its four octets, or an IPv6 address as its eight 16-bit pieces.
#[derive(Clone, Copy, Debug)]
pub enum violet_net_host_t<'a> {
    Domain(&'a str),
    Ipv4([u8; 4]),
    Ipv6([u16; 8]),
}

/// The mathematical value of a host.
pub enum HostModel {
    Domain(Seq<u8>),
    Ipv4(Seq<u8>),
    Ipv6(Seq<u16>),
}

impl<'a> View for violet_net_host_t<'a> {
    type V = HostModel;

    open spec fn view(&self) -> HostModel {
        match *self {
            violet_net_host_t::Domain(name) => HostModel::Domain(name.spec_bytes()),
            violet_net_host_t::Ipv4(octets) => HostModel::Ipv4(octets@),
            violet_net_host_t::Ipv6(pieces) => HostModel::Ipv6(pieces@),
        }
    }
}

/// The value of a host that may be absent.
pub open spec fn host_model(host: Option<violet_net_host_t<'_>>) -> Option<HostModel> {
    match host {
        Some(h) => Some(h@),
        None => None,
    }
}

/// The decimal digits of `n`, without leading zeros.
pub open spec fn decimal(n: nat) -> Seq<u8>
    decreases n,
{
    if n < 10 {
        seq![(0x30 + n) as u8]
    } else {
        decimal(n / 10).push((0x30 + n % 10) as u8)
    }
}

/// The lower-case hexadecimal digit of `d`.
pub open spec fn hex_digit(d: nat) -> u8 {
    if d < 10 {
        (0x30 + d) as u8
    } else {
        (0x61 + d - 10) as u8
    }
}

/// The lower-case hexadecimal digits of `n`, without leading zeros.
pub open spec fn hex(n: nat) -> Seq<u8>
    decreases n,
{
    if n < 16 {
        seq![hex_digit(n)]
    } else {
        hex(n / 16).push(hex_digit(n % 16))
    }
}

/// The four octets in decimal, separated by dots.
pub open spec fn dotted(octets: Seq<u8>) -> Seq<u8> {
    decimal(octets[0] as nat) + seq![0x2eu8] + decimal(octets[1] as nat) + seq![0x2eu8] + decimal(
        octets[2] as nat,
    ) + seq![0x2eu8] + decimal(octets[3] as nat)
}

/// The pieces in hexadecimal, separated by colons.
pub open spec fn colon_hex(pieces: Seq<u16>) -> Seq<u8>
    decreases pieces.len(),
{
    if pieces.len() == 0 {
        Seq::empty()
    } else if pieces.len() == 1 {
        hex(pieces[0] as nat)
    } else {
        colon_hex(pieces.drop_last()) + seq![0x3au8] + hex(pieces.last() as nat)
    }
}

/// The number of zero pieces in a row that start at `from`.
pub open spec fn zero_run(pieces: Seq<u16>, from: int) -> int
    decreases pieces.len() - from,
{
    if from < 0 || from >= pieces.len() || pieces[from] != 0 {
        0
    } else {
        1 + zero_run(pieces, from + 1)
    }
}

/// The length of the longest run of zero pieces that starts before `upto`.
pub open spec fn longest_zero_run(pieces: Seq<u16>, upto: int) -> int
    decreases upto,
{
    if upto <= 0 {
        0
    } else {
        let before = longest_zero_run(pieces, upto - 1);
        let here = zero_run(pieces, upto - 1);
        if here > before {
            here
        } else {
            before
        }
    }
}

/// The first position at or after `from` where at least `len` zero pieces
/// start, or the number of pieces where there is none.
pub open spec fn first_run_at_least(pieces: Seq<u16>, len: int, from: int) -> int
    decreases pieces.len() - from,
{
    if from < 0 || from >= pieces.len() || zero_run(pieces, from) >= len {
        from
    } else {
        first_run_at_least(pieces, len, from + 1)
    }
}

/// The eight pieces in hexadecimal, separated by colons, with the first of
/// the longest runs of two or more zero pieces replaced by `::`. Every piece
/// is written in hexadecimal, whatever the address: one that embeds an IPv4
/// address, such as `::ffff:c000:201`, gets no dotted tail. This is the form
/// in which a URL's serialization holds the address between its brackets.
pub open spec fn ipv6_text(pieces: Seq<u16>) -> Seq<u8> {
    let len = longest_zero_run(pieces, pieces.len() as int);
    if len < 2 {
        colon_hex(pieces)
    } else {
        let start = first_run_at_least(pieces, len, 0);
        colon_hex(pieces.take(start)) + seq![0x3au8, 0x3au8] + colon_hex(pieces.skip(start + len))
    }
}

/// The one textual form of a host: a domain name as it is, an IPv4 address
/// in dotted decimal, an IPv6 address in compressed, pure
/// colon-hexadecimal.
pub open spec fn host_text(host: HostModel) -> Seq<u8> {
    match host {
        HostModel::Domain(name) => name,
        HostModel::Ipv4(octets) => dotted(octets),
        HostModel::Ipv6(pieces) => ipv6_text(pieces),
    }
}

/// Appends the decimal digits of `n`.
fn push_decimal(out: &mut Vec<u8>, n: u8)
    ensures
        final(out)@ == old(out)@ + decimal(n as nat),
{
    let ghost start = out@;
    if n >= 100 {
        out.push(0x30 + n / 100);
    }
    if n >= 10 {
        out.push(0x30 + (n / 10) % 10);
    }
    out.push(0x30 + n % 10);
    proof {
        reveal_with_fuel(decimal, 3);
        assert(out@ =~= start + decimal(n as nat));
    }
}

/// Appends the hexadecimal digit of `d`.
fn push_hex_digit(out: &mut Vec<u8>, d: u16)
    requires
        d < 16,
    ensures
        final(out)@ == old(out)@.push(hex_digit(d as nat)),
{
    if d < 10 {
        out.push(0x30 + d as u8);
    } else {
        out.push(0x61 + (d - 10) as u8);
    }
}

/// Appends the hexadecimal digits of `n`.
fn push_hex(out: &mut Vec<u8>, n: u16)
    ensures
        final(out)@ == old(out)@ + hex(n as nat),
{
    let ghost start = out@;
    if n >= 0x1000 {
        push_hex_digit(out, n / 0x1000);
    }
    if n >= 0x100 {
        push_hex_digit(out, (n / 0x100) % 16);
    }
    if n >= 0x10 {
        push_hex_digit(out, (n / 0x10) % 16);
    }
    push_hex_digit(out, n % 16);
    proof {
        reveal_with_fuel(hex, 4);
        assert(out@ =~= start + hex(n as nat));
    }
}

/// Renders an IPv4 address in dotted decimal.
pub fn render_ipv4(octets: &[u8; 4]) -> (text: Vec<u8>)
    ensures
        text@ == dotted(octets@),
{
    let mut text: Vec<u8> = Vec::new();
    push_decimal(&mut text, octets[0]);
    text.push(0x2e);
    push_decimal(&mut text, octets[1]);
    text.push(0x2e);
    push_decimal(&mut text, octets[2]);
    text.push(0x2e);
    push_decimal(&mut text, octets[3]);
    assert(text@ =~= dotted(octets@));
    text
}

/// Zero pieces from `from` up to `to`, where the run stops, make a run of
/// `to - from`.
proof fn lemma_zero_run(pieces: Seq<u16>, from: int, to: int)
    requires
        0 <= from <= to <= pieces.len(),
        forall|k: int| from <= k < to ==> pieces[k] == 0,
        to < pieces.len() ==> pieces[to] != 0,
    ensures
        zero_run(pieces, from) == to - from,
    decreases to - from,
{
    if from < to {
        lemma_zero_run(pieces, from + 1, to);
    }
}

/// The first position from which a run of `len` or more starts is `target`
/// where no such run starts earlier.
proof fn lemma_first_run(pieces: Seq<u16>, len: int, from: int, target: int)
    requires
        0 <= from <= target < pieces.len(),
        forall|m: int| from <= m < target ==> zero_run(pieces, m) < len,
        zero_run(pieces, target) >= len,
    ensures
        first_run_at_least(pieces, len, from) == target,
    decreases target - from,
{
    if from < target {
        lemma_first_run(pieces, len, from + 1, target);
    }
}

/// No run that starts before `upto` is longer than the longest of them.
proof fn lemma_longest_bounds(pieces: Seq<u16>, upto: int)
    ensures
        forall|m: int| 0 <= m < upto ==> zero_run(pieces, m) <= longest_zero_run(pieces, upto),
    decreases upto,
{
    if upto > 0 {
        lemma_longest_bounds(pieces, upto - 1);
    }
}

/// The number of zero pieces in a row that start at `from`.
fn run_length(pieces: &[u16; 8], from: usize) -> (len: usize)
    requires
        from < 8,
    ensures
        len == zero_run(pieces@, from as int),
        from + len <= 8,
{
    let mut to: usize = from;
    while to < 8 && pieces[to] == 0
        invariant
            from <= to <= 8,
            forall|k: int| from <= k < to ==> pieces@[k] == 0,
        decreases 8 - to,
    {
        to += 1;
    }
    proof {
        lemma_zero_run(pieces@, from as int, to as int);
    }
    to - from
}

/// The first of the longest runs of zero pieces: where it starts and how
/// long it is. Without a zero piece the length is 0.
fn longest_run(pieces: &[u16; 8]) -> (run: (usize, usize))
    ensures
        run.1 == longest_zero_run(pieces@, 8),
        run.1 > 0 ==> run.0 == first_run_at_least(pieces@, run.1 as int, 0),
        run.0 + run.1 <= 8,
{
    let mut start: usize = 0;
    let mut len: usize = 0;
    let mut at: usize = 0;
    while at < 8
        invariant
            at <= 8,
            len == longest_zero_run(pieces@, at as int),
            start + len <= 8,
            len > 0 ==> start < at && zero_run(pieces@, start as int) == len,
            forall|m: int| 0 <= m < start ==> zero_run(pieces@, m) < len,
        decreases 8 - at,
    {
        let here = run_length(pieces, at);
        proof {
            lemma_longest_bounds(pieces@, at as int);
        }
        if here > len {
            start = at;
            len = here;
        }
        at += 1;
    }
    proof {
        if len > 0 {
            lemma_first_run(pieces@, len as int, 0, start as int);
        }
    }
    (start, len)
}

/// Appends the pieces from `from` up to `to` in hexadecimal, separated by
/// colons.
fn push_colon_hex(out: &mut Vec<u8>, pieces: &[u16; 8], from: usize, to: usize)
    requires
        from <= to <= 8,
    ensures
        final(out)@ == old(out)@ + colon_hex(pieces@.subrange(from as int, to as int)),
{
    let ghost start = out@;
    let mut at: usize = from;
    assert(pieces@.subrange(from as int, from as int) =~= Seq::empty());
    while at < to
        invariant
            from <= at <= to <= 8,
            out@ == start + colon_hex(pieces@.subrange(from as int, at as int)),
        decreases to - at,
    {
        let ghost before = pieces@.subrange(from as int, at as int);
        let ghost upto = pieces@.subrange(from as int, at + 1);
        let ghost so_far = out@;
        if at > from {
            out.push(0x3a);
        }
        push_hex(out, pieces[at]);
        proof {
            assert(upto.drop_last() =~= before);
            assert(upto.last() == pieces@[at as int]);
            if at > from {
                assert(out@ =~= so_far + seq![0x3au8] + hex(pieces@[at as int] as nat));
            } else {
                assert(upto.len() == 1);
                assert(before.len() == 0);
                assert(out@ =~= so_far + hex(pieces@[at as int] as nat));
            }
            assert(out@ =~= start + colon_hex(upto));
        }
        at += 1;
    }
}

/// Renders an IPv6 address in pure colon-hexadecimal, with the first of its
/// longest runs of two or more zero pieces compressed and no dotted tail
/// for an embedded IPv4 address.
pub fn render_ipv6(pieces: &[u16; 8]) -> (text: Vec<u8>)
    ensures
        text@ == ipv6_text(pieces@),
{
    let mut text: Vec<u8> = Vec::new();
    let (start, len) = longest_run(pieces);
    if len < 2 {
        push_colon_hex(&mut text, pieces, 0, 8);
        assert(pieces@.subrange(0, 8) =~= pieces@);
    } else {
        push_colon_hex(&mut text, pieces, 0, start);
        text.push(0x3a);
        text.push(0x3a);
        push_colon_hex(&mut text, pieces, start + len, 8);
        proof {
            assert(pieces@.subrange(0, start as int) =~= pieces@.take(start as int));
            assert(pieces@.subrange(start + len, 8) =~= pieces@.skip(start + len));
            assert(text@ =~= ipv6_text(pieces@));
        }
    }
    text
}

/// Renders a host as owned text, whatever its representation.
pub fn render_host(host: &violet_net_host_t<'_>) -> (text: Vec<u8>)
    ensures
        text@ == host_text(host@),
{
    match host {
        violet_net_host_t::Domain(name) => vstd::slice::slice_to_vec(name.as_bytes()),
        violet_net_host_t::Ipv4(octets) => render_ipv4(octets),
        violet_net_host_t::Ipv6(pieces) => render_ipv6(pieces),
    }
}

} // verus!
