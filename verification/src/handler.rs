//! The handling of one connection: what was read from it, and what that
//! says.

use vstd::prelude::*;
use vstd::utf8::{decode_utf8, valid_utf8};
use crate::error::HandlerError;
use crate::text::string_from_utf8;

verus! {

/// The handler of one connection. It gathers the bytes read from the
/// connection, in the order in which they were read.
pub struct Handler {
    buffer: Vec<u8>,
}

impl View for Handler {
    type V = Seq<u8>;

    closed spec fn view(&self) -> Seq<u8> {
        self.buffer@
    }
}

impl Handler {
    /// A handler that has read nothing: its buffer is empty.
    pub fn new() -> (handler: Handler)
        ensures
            handler@ == Seq::<u8>::empty(),
    {
        Handler { buffer: Vec::new() }
    }

    /// The bytes gathered so far.
    pub fn buffer(&self) -> (bytes: &[u8])
        ensures
            bytes@ == self@,
    {
        self.buffer.as_slice()
    }

    /// Takes the bytes of one read, behind what was gathered before.
    pub fn received(&mut self, bytes: &[u8])
        ensures
            final(self)@ == old(self)@ + bytes@,
    {
        self.buffer.extend_from_slice(bytes);
    }

    /// Ends the exchange and gives the request as text. `read` says whether
    /// reading from the connection went well. A failed read gives its error;
    /// bytes that are no UTF-8 give `Protocol`; otherwise the request is the
    /// text that the gathered bytes encode.
    pub fn run(self, read: Result<(), HandlerError>) -> (request: Result<String, HandlerError>)
        ensures
            request is Ok <==> read is Ok && valid_utf8(self@),
            request matches Ok(text) ==> text@ == decode_utf8(self@),
            request matches Err(error) ==> error == (match read {
                Err(e) => e,
                Ok(_) => HandlerError::Protocol,
            }),
    {
        match read {
            Err(error) => Err(error),
            Ok(_) => match string_from_utf8(self.buffer) {
                Some(text) => Ok(text),
                None => Err(HandlerError::Protocol),
            },
        }
    }
}

} // verus!
