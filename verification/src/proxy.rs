//! The acceptor: tells the supervisor's connection from a bot's by the
//! headers of the opening handshake.

use vstd::prelude::*;
use crate::server::ClientType;
use crate::text::{chars_of, lower, same_text_ignore_case};

verus! {

/// Largest message that a connection accepts, in bytes: 128 MiB.
pub const MAX_MESSAGE_SIZE: usize = 134217728;

/// Largest frame that a connection accepts, in bytes: 32 MiB.
pub const MAX_FRAME_SIZE: usize = 33554432;

/// Whether frames that are not masked are accepted.
pub const ACCEPT_UNMASKED_FRAMES: bool = true;

/// Reads the headers of an opening handshake.
#[derive(Debug, Clone, Copy, PartialEq, Eq, Structural)]
pub struct HeaderHandler {
    /// Whether a header marks the connection as the supervisor's.
    pub is_supervisor: bool,
}

/// The name of the header that marks the supervisor's connection.
pub open spec fn supervisor_header() -> Seq<char> {
    "supervisor"@
}

/// Whether one of the header names is that of the supervisor header.
/// Header names count without regard to the case of their letters.
pub open spec fn names_supervisor(names: Seq<String>) -> bool {
    exists|i: int| 0 <= i < names.len() && lower(names[i]@) == lower(supervisor_header())
}

impl HeaderHandler {
    /// A handler that has seen no header.
    pub fn new() -> (handler: HeaderHandler)
        ensures
            !handler.is_supervisor,
    {
        HeaderHandler { is_supervisor: false }
    }

    /// Takes the names of the headers of a handshake request.
    pub fn on_request(&mut self, names: &Vec<String>)
        ensures
            final(self).is_supervisor == names_supervisor(names@),
    {
        let wanted = chars_of("supervisor");
        let mut i: usize = 0;
        while i < names.len()
            invariant
                i <= names.len(),
                wanted@ == supervisor_header(),
                forall|k: int| 0 <= k < i ==> lower(names@[k]@) != lower(supervisor_header()),
            decreases names.len() - i,
        {
            if same_text_ignore_case(&chars_of(names[i].as_str()), &wanted) {
                self.is_supervisor = true;
                return ;
            }
            i += 1;
        }
        self.is_supervisor = false;
    }

    /// What the connection is.
    pub fn client_type(&self) -> (kind: ClientType)
        ensures
            kind == (if self.is_supervisor {
                ClientType::Controller
            } else {
                ClientType::Bot
            }),
    {
        if self.is_supervisor {
            ClientType::Controller
        } else {
            ClientType::Bot
        }
    }
}

} // verus!
