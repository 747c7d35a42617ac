//! What the remote listener does with one datagram: read it as OSC, fall
//! back to a text command, and decide whether its sender becomes the
//! target of feedback messages.
use vstd::prelude::*;
use vstd::utf8::{decode_utf8, valid_utf8};

use crate::command::{command_opt_view, parse_text_command, text_command, CommandV, RemoteCommand};
use crate::osc::{is_osc_packet, osc_datagram_command, parse_osc_command, rosc_decode_udp};
use crate::text::{char_vec, string_from_range, tokens, trim, trim_bounds};

verus! {

/// Decodes UTF-8 with `std::str::from_utf8`.  As its documentation says,
/// the result is `Some` exactly for well-formed UTF-8, and then holds the
/// characters that the bytes encode.
#[verifier::external_body]
fn utf8_text(bytes: &[u8]) -> (r: Option<String>)
    ensures
        r is Some <==> valid_utf8(bytes@),
        r matches Some(s) ==> s@ == decode_utf8(bytes@),
{
    std::str::from_utf8(bytes).ok().map(|s| s.to_string())
}

/// The command of a datagram read as text: the trimmed UTF-8 text, parsed
/// as a text command.
pub open spec fn text_datagram_command(bytes: Seq<u8>) -> Option<CommandV> {
    if valid_utf8(bytes) {
        text_command(tokens(trim(decode_utf8(bytes))))
    } else {
        None
    }
}

/// The command of a datagram: its OSC command, else its text command.
pub open spec fn datagram_command(bytes: Seq<u8>) -> Option<CommandV> {
    match osc_datagram_command(bytes) {
        Some(c) => Some(c),
        None => text_datagram_command(bytes),
    }
}

/// Whether a datagram makes its sender the feedback target: it carries a
/// command, and that command is `discover` or `subscribe`, or the datagram
/// is an OSC packet.
pub open spec fn claims_feedback(bytes: Seq<u8>) -> bool {
    match datagram_command(bytes) {
        Some(c) => c is Discover || c is Subscribe || rosc_decode_udp(bytes) is Some,
        None => false,
    }
}

/// Reads the text command of a datagram.
pub fn parse_text_datagram(bytes: &[u8]) -> (r: Option<RemoteCommand>)
    ensures
        command_opt_view(r) == text_datagram_command(bytes@),
{
    match utf8_text(bytes) {
        Some(text) => {
            let cs = char_vec(text.as_str());
            let (lo, hi) = trim_bounds(cs.as_slice());
            let trimmed = string_from_range(cs.as_slice(), lo, hi);
            parse_text_command(trimmed.as_str())
        },
        None => None,
    }
}

/// What one datagram asks of the listener: the command to queue, and
/// whether the sender becomes the feedback target.  `None` when the
/// datagram carries no command.
pub fn read_datagram(bytes: &[u8]) -> (r: Option<(RemoteCommand, bool)>)
    ensures
        match r {
            Some((c, claims)) => datagram_command(bytes@) == Some(c@) && claims == claims_feedback(
                bytes@,
            ),
            None => datagram_command(bytes@) is None,
        },
{
    let command = match parse_osc_command(bytes) {
        Some(c) => Some(c),
        None => parse_text_datagram(bytes),
    };
    match command {
        Some(c) => {
            let named = match &c {
                RemoteCommand::Discover => true,
                RemoteCommand::Subscribe { .. } => true,
                _ => false,
            };
            let claims = named || is_osc_packet(bytes);
            Some((c, claims))
        },
        None => None,
    }
}

/// OSC comes first: a datagram whose OSC packet denotes a command carries
/// that command, and its sender becomes the feedback target.
pub proof fn lemma_osc_first(bytes: Seq<u8>)
    requires
        osc_datagram_command(bytes) is Some,
    ensures
        datagram_command(bytes) == osc_datagram_command(bytes),
        claims_feedback(bytes),
{
}

/// Only `discover` and `subscribe` make the sender of a text datagram the
/// feedback target.
pub proof fn lemma_text_claims(bytes: Seq<u8>)
    requires
        rosc_decode_udp(bytes) is None,
    ensures
        claims_feedback(bytes) <==> (text_datagram_command(bytes) matches Some(c) && (c is Discover
            || c is Subscribe)),
{
}

} // verus!
