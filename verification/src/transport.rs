//! The transport that messages leave through, and the record of what was
//! handed to it.

use vstd::prelude::*;
use vstd::slice::slice_to_vec;

verus! {

/// `failure::Error`, carried as it is: the error of a transport or of a
/// handler. Nothing is known of an error but which one it is.
#[verifier::external_type_specification]
#[verifier::external_body]
pub struct ExError(failure::Error);

/// One call of `send`: the bytes it was given, and the error it ended with,
/// if it failed.
pub struct Delivery {
    pub bytes: Seq<u8>,
    pub failure: Option<failure::Error>,
}

/// Something that takes a buffer of bytes for delivery.
///
/// A transport may keep an account of its calls, and say so in `log`. One
/// that does enters every call of `send` there as it was made. Nothing else
/// is asked of a transport: neither delivery nor success.
pub trait Transport {
    /// The calls of `send` so far, the oldest first, if the transport keeps
    /// account of them.
    open spec fn log(&self) -> Option<Seq<Delivery>> {
        None
    }

    /// Takes `msg` for delivery, or fails.
    fn send(&mut self, msg: &[u8]) -> (res: Result<(), failure::Error>)
        ensures
            logged(old(self).log(), final(self).log(), msg@, failure_of(res)),
    ;
}

/// The error that a result carries, if it is one. An operation that sends
/// once fails exactly where its `send` fails, and with the same error: the
/// two results carry the same error, or none.
pub open spec fn failure_of<R>(res: Result<R, failure::Error>) -> Option<failure::Error> {
    match res {
        Ok(_) => None,
        Err(error) => Some(error),
    }
}

/// Whether a transport that keeps a log has entered exactly one call between
/// `before` and `after`: one that was given `bytes` and failed with
/// `failure`, or did not fail.
pub open spec fn logged(
    before: Option<Seq<Delivery>>,
    after: Option<Seq<Delivery>>,
    bytes: Seq<u8>,
    failure: Option<failure::Error>,
) -> bool {
    before matches Some(log) ==> after == Some(log.push(Delivery { bytes, failure }))
}

/// A transport that delivers nothing itself: it keeps every message it is
/// given, in order, for its owner to take out and deliver. It never fails, and
/// its log is what it holds.
pub struct Outbox {
    pub messages: Vec<Vec<u8>>,
}

impl Outbox {
    /// An outbox that holds nothing.
    pub fn new() -> (outbox: Outbox)
        ensures
            outbox.messages@.len() == 0,
    {
        Outbox { messages: Vec::new() }
    }
}

impl Transport for Outbox {
    open spec fn log(&self) -> Option<Seq<Delivery>> {
        Some(
            self.messages@.map_values(
                |message: Vec<u8>| Delivery { bytes: message@, failure: None },
            ),
        )
    }

    fn send(&mut self, msg: &[u8]) -> (res: Result<(), failure::Error>)
        ensures
            res is Ok,
            final(self).messages@.len() == old(self).messages@.len() + 1,
            final(self).messages@.last()@ == msg@,
    {
        self.messages.push(slice_to_vec(msg));
        assert(self.log()->Some_0 =~= old(self).log()->Some_0.push(
            Delivery { bytes: msg@, failure: None },
        ));
        Ok(())
    }
}

} // verus!
