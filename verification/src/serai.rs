//! Serai API: what is replied to a request, given what the runtime said.

use vstd::prelude::*;
use vstd::utf8::{decode_utf8, encode_utf8, encode_utf8_decode_utf8, valid_utf8};

verus! {

/// Why a request gets no answer.
#[derive(Clone, Copy, PartialEq, Eq, Structural, Debug)]
pub enum ReplyError {
    /// The runtime could not be asked.
    Client,
    /// The runtime knows no network of the name that was asked for.
    InvalidNetwork,
}

/// What is said of a request that gets no answer.
pub open spec fn reply_message(error: ReplyError) -> Seq<char> {
    match error {
        ReplyError::Client => "client error"@,
        ReplyError::InvalidNetwork => "invalid network"@,
    }
}

impl ReplyError {
    /// What is said of the request.
    pub fn message(&self) -> (text: &'static str)
        ensures
            text@ == reply_message(*self),
    {
        match self {
            ReplyError::Client => "client error",
            ReplyError::InvalidNetwork => "invalid network",
        }
    }
}

/// Hands the bytes to `String::from_utf8`, which makes a string of them
/// where they are UTF-8 and refuses them where they are not. The string is
/// made of the bytes as they are, so that the bytes are its encoding.
#[verifier::external_body]
fn string_of(bytes: Vec<u8>) -> (text: Option<String>)
    ensures
        text is Some <==> valid_utf8(bytes@),
        text matches Some(text) ==> encode_utf8(text@) == bytes@,
{
    match String::from_utf8(bytes) {
        Ok(text) => Some(text),
        Err(_) => None,
    }
}

/// What is replied to a request for the address of a network, given what
/// the runtime said.
pub open spec fn address_reply(lookup: Result<Option<Vec<u8>>, ()>) -> Result<
    Seq<char>,
    ReplyError,
> {
    match lookup {
        Ok(Some(address)) => Ok(decode_utf8(address@)),
        Ok(None) => Err(ReplyError::InvalidNetwork),
        Err(()) => Err(ReplyError::Client),
    }
}

/// The model of a reply.
pub open spec fn reply_view(reply: Result<String, ReplyError>) -> Result<Seq<char>, ReplyError> {
    match reply {
        Ok(text) => Ok(text@),
        Err(error) => Err(error),
    }
}

/// The reply to a request for the address of a network, given what the
/// runtime said: that it could not be asked, that it knows no such network,
/// or the bytes of the address, which are replied as the text that they
/// encode. An address must be UTF-8.
pub fn network_address(lookup: Result<Option<Vec<u8>>, ()>) -> (reply: Result<String, ReplyError>)
    requires
        lookup matches Ok(Some(address)) ==> valid_utf8(address@),
    ensures
        reply_view(reply) == address_reply(lookup),
{
    match lookup {
        Ok(Some(address)) => {
            let ghost bytes = address@;
            match string_of(address) {
                Some(text) => {
                    proof {
                        encode_utf8_decode_utf8(text@);
                    }
                    Ok(text)
                },
                None => {
                    // No address is refused: it is UTF-8.
                    assert(false);
                    Err(ReplyError::Client)
                },
            }
        },
        Ok(None) => Err(ReplyError::InvalidNetwork),
        Err(()) => Err(ReplyError::Client),
    }
}

} // verus!
