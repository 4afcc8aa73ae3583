//! The identity of a client: the string under which its requests are counted
//! and its bans are kept.
//!
//! The peer address of a connection is the identity, unless the peer is the
//! trusted proxy, which hands the client's address on in a header. An IPv6
//! address is cut down to its first four segments, so that the addresses of
//! one allocation count as one client.

use vstd::prelude::*;
use vstd::string::{StrSliceExecFns, StringExecFns};
use crate::text::{
    chars_of, hex_digits, is_space, is_whitespace, lemma_trim_end, lemma_trim_start, push_hex,
    trimmed,
};

verus! {

/// Number of characters before the first comma of `text`; its length if it
/// has none.
pub open spec fn first_comma(text: Seq<char>) -> nat
    decreases text.len(),
{
    if text.len() == 0 || text[0] == ',' {
        0
    } else {
        1 + first_comma(text.drop_first())
    }
}

/// The peer is the trusted proxy: its address starts with `172.`.
pub open spec fn is_trusted_proxy(peer: Seq<char>) -> bool {
    peer.len() >= 4 && peer[0] == '1' && peer[1] == '7' && peer[2] == '2' && peer[3] == '.'
}

/// The first address of a forwarded-for list: what stands before its first
/// comma, without the white space around it.
pub open spec fn first_forwarded(list: Seq<char>) -> Seq<char> {
    trimmed(list.take(first_comma(list) as int))
}

/// The client's address. A peer that is not the trusted proxy is the client
/// itself. Behind the proxy, the first forwarded address counts, then the
/// real-IP header, then the peer.
pub open spec fn real_ip(
    peer: Seq<char>,
    forwarded_for: Option<Seq<char>>,
    real_ip_header: Option<Seq<char>>,
) -> Seq<char> {
    if !is_trusted_proxy(peer) {
        peer
    } else if let Some(list) = forwarded_for {
        first_forwarded(list)
    } else if let Some(address) = real_ip_header {
        address
    } else {
        peer
    }
}

/// The first four segments of an IPv6 address, each in hexadecimal, joined
/// by colons and closed by `::`.
pub open spec fn ipv6_prefix(segments: Seq<u16>) -> Seq<char> {
    hex_digits(segments[0] as nat) + seq![':'] + hex_digits(segments[1] as nat) + seq![':']
        + hex_digits(segments[2] as nat) + seq![':'] + hex_digits(segments[3] as nat) + seq![
        ':',
        ':',
    ]
}

/// What an address string is, once it has been parsed.
#[derive(Clone, Copy, Debug, PartialEq, Eq)]
pub enum IpForm {
    /// An IPv4 address.
    V4,
    /// An IPv6 address with these eight segments.
    V6([u16; 8]),
    /// No IP address.
    Unparsed,
}

/// The identity for the address `ip`, which parses as `form`.
pub open spec fn normalized(ip: Seq<char>, form: IpForm) -> Seq<char> {
    match form {
        IpForm::V6(segments) => ipv6_prefix(segments@),
        _ => ip,
    }
}

/// [`first_comma`] of a text is where its first comma stands.
pub proof fn lemma_first_comma(text: Seq<char>, at: int)
    requires
        0 <= at <= text.len(),
        forall|i: int| 0 <= i < at ==> text[i] != ',',
        at < text.len() ==> text[at] == ',',
    ensures
        first_comma(text) == at,
    decreases at,
{
    if at > 0 {
        lemma_first_comma(text.drop_first(), at - 1);
    }
}

/// The client's address for a request from `peer`, given the values of the
/// forwarded-for and real-IP headers where the request has them as text.
pub fn extract_real_ip(peer: &str, forwarded_for: Option<&str>, real_ip_header: Option<&str>) -> (ip:
    String)
    ensures
        ip@ == real_ip(
            peer@,
            match forwarded_for {
                Some(list) => Some(list@),
                None => None,
            },
            match real_ip_header {
                Some(address) => Some(address@),
                None => None,
            },
        ),
{
    let peer_chars = chars_of(peer);
    let trusted = peer_chars.len() >= 4 && peer_chars[0] == '1' && peer_chars[1] == '7'
        && peer_chars[2] == '2' && peer_chars[3] == '.';
    if trusted {
        if let Some(list) = forwarded_for {
            return first_of_list(list);
        }
        if let Some(address) = real_ip_header {
            return address.to_owned();
        }
    }
    peer.to_owned()
}

/// The first address of a forwarded-for list.
fn first_of_list(list: &str) -> (first: String)
    ensures
        first@ == first_forwarded(list@),
{
    let chars = chars_of(list);
    let mut comma: usize = 0;
    while comma < chars.len() && chars[comma] != ','
        invariant
            comma <= chars@.len(),
            forall|i: int| 0 <= i < comma ==> chars@[i] != ',',
        decreases chars@.len() - comma,
    {
        comma += 1;
    }
    let mut from: usize = 0;
    while from < comma && is_whitespace(chars[from])
        invariant
            from <= comma <= chars@.len(),
            forall|i: int| 0 <= i < from ==> is_space(chars@[i]),
        decreases comma - from,
    {
        from += 1;
    }
    let mut to: usize = comma;
    while to > from && is_whitespace(chars[to - 1])
        invariant
            from <= to <= comma <= chars@.len(),
            forall|i: int| to <= i < comma ==> is_space(chars@[i]),
        decreases to,
    {
        to -= 1;
    }
    proof {
        let head = list@.take(comma as int);
        lemma_first_comma(list@, comma as int);
        lemma_trim_start(head, from as int);
        let tail = head.skip(from as int);
        lemma_trim_end(tail, to - from);
        assert(tail.take(to - from) == list@.subrange(from as int, to as int));
    }
    list.substring_char(from, to).to_owned()
}

/// The identity for the address `ip`, which parses as `form`: an IPv6
/// address is cut down to its first four segments, anything else is taken
/// as it stands.
pub fn normalize_ip(ip: &str, form: &IpForm) -> (identity: String)
    ensures
        identity@ == normalized(ip@, *form),
{
    match form {
        IpForm::V6(segments) => {
            proof {
                reveal_strlit(":");
                reveal_strlit("::");
            }
            let mut identity = String::new();
            push_hex(&mut identity, segments[0]);
            identity.append(":");
            push_hex(&mut identity, segments[1]);
            identity.append(":");
            push_hex(&mut identity, segments[2]);
            identity.append(":");
            push_hex(&mut identity, segments[3]);
            identity.append("::");
            assert(identity@ =~= ipv6_prefix(segments@));
            identity
        },
        _ => ip.to_owned(),
    }
}

} // verus!
