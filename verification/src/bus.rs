//! The transport that the driver talks through, and the record of what was
//! exchanged over it.
//!
//! The driver knows nothing of the bus but what it asked of it and what came
//! back, so the trait promises nothing. Each request and its reply make one
//! [`Exchange`], and the device handle keeps the history of them. An entry of
//! the history is [`genuine`]: its reply is an answer of the bus to its
//! request, which only a call of the bus can show. The contracts of the
//! handle say which exchanges an operation adds: what was sent, in which
//! order, and how the result follows from what came back.
use vstd::prelude::*;
use crate::frame::{block_fill_spec, block_header_spec, read_frame_spec, write_frame_spec};

verus! {

/// What the driver asked of the bus in one transaction.
pub enum Request {
    /// A full-duplex transfer of one frame.
    Transfer { frame: Seq<u8> },
    /// A write of one frame.
    Write { frame: Seq<u8> },
    /// A write of one frame, followed by a wait.
    WriteThenDelay { frame: Seq<u8>, nanos: u32 },
    /// Two full-duplex transfers in a row.
    TransferBlock { header: Seq<u8>, body: Seq<u8> },
}

/// One transaction: the request, and the bytes or the error that came back.
/// A write brings no bytes back.
pub struct Exchange<E> {
    /// What was asked of the bus.
    pub request: Request,
    /// The bytes that came back, or the error of the transport.
    pub reply: Result<Seq<u8>, E>,
}

impl<E> Exchange<E> {
    /// The transaction reads the register at `addr`.
    pub open spec fn is_read(self, addr: u8) -> bool {
        &&& self.request == Request::Transfer { frame: read_frame_spec(addr) }
        &&& self.reply matches Ok(bytes) ==> bytes.len() == 4
    }

    /// The transaction reads `n` registers from `addr` on.
    pub open spec fn is_block_read(self, addr: u8, n: nat) -> bool {
        &&& self.request == Request::TransferBlock {
            header: block_header_spec(addr),
            body: block_fill_spec(n),
        }
        &&& self.reply matches Ok(bytes) ==> bytes.len() == n
    }

    /// The transaction writes `value` to the register at `addr`.
    pub open spec fn is_write(self, addr: u8, value: u8) -> bool {
        &&& self.request == Request::Write { frame: write_frame_spec(addr, value) }
        &&& self.reply matches Ok(bytes) ==> bytes.len() == 0
    }

    /// The transaction writes `value` to the register at `addr` and then
    /// waits for `nanos` nanoseconds.
    pub open spec fn is_settled_write(self, addr: u8, value: u8, nanos: u32) -> bool {
        &&& self.request == Request::WriteThenDelay { frame: write_frame_spec(addr, value), nanos }
        &&& self.reply matches Ok(bytes) ==> bytes.len() == 0
    }

    /// The value that a successful single-register read brought back: the
    /// byte in the last position of the frame.
    pub open spec fn value(self) -> u8
        recommends
            self.reply is Ok,
    {
        self.reply->Ok_0[3]
    }

    /// The bytes that a successful exchange brought back.
    pub open spec fn bytes(self) -> Seq<u8>
        recommends
            self.reply is Ok,
    {
        self.reply->Ok_0
    }
}

/// The reply that a transfer leaves in the record: the bytes that came in, or
/// the error.
pub open spec fn received<E, const N: usize>(reply: Result<[u8; N], E>) -> Result<Seq<u8>, E> {
    match reply {
        Ok(bytes) => Ok(bytes@),
        Err(e) => Err(e),
    }
}

/// The reply that a write leaves in the record: no bytes, or the error.
pub open spec fn acknowledged<E>(reply: Result<(), E>) -> Result<Seq<u8>, E> {
    match reply {
        Ok(_) => Ok(Seq::empty()),
        Err(e) => Err(e),
    }
}

/// A synchronous, full-duplex serial bus with the sensor selected on it.
///
/// Every method is one transaction: the device is selected, the steps run in
/// order, and the device is released. Nothing is promised of what a bus
/// answers; a failure is reported as the error of the transport.
pub trait Bus {
    /// The error of the transport.
    type Error;

    /// Sends the four bytes of `frame` and returns the four bytes that came
    /// in while they went out.
    fn transfer(&mut self, frame: [u8; 4]) -> Result<[u8; 4], Self::Error>;

    /// Sends the two bytes of `frame`; what comes in is dropped.
    fn write(&mut self, frame: [u8; 2]) -> Result<(), Self::Error>;

    /// Sends the two bytes of `frame`, then waits for `nanos` nanoseconds
    /// before the transaction ends.
    fn write_then_delay(&mut self, frame: [u8; 2], nanos: u32) -> Result<(), Self::Error>;

    /// Sends `header` and then `body` as two transfers of one transaction,
    /// and returns the bytes that came in while `body` went out.
    fn transfer_block<const N: usize>(&mut self, header: [u8; 3], body: [u8; N]) -> Result<
        [u8; N],
        Self::Error,
    >;
}

/// `reply` is an answer of [`Bus::transfer`] of a bus of type `B` to `frame`.
pub open spec fn answers_transfer<B: Bus>(frame: Seq<u8>, reply: Result<Seq<u8>, B::Error>) -> bool {
    exists|bus: &mut B, given: [u8; 4], back: Result<[u8; 4], B::Error>|
        given@ == frame && received(back) == reply && #[trigger] call_ensures(
            B::transfer,
            (bus, given),
            back,
        )
}

/// `reply` is an answer of [`Bus::write`] of a bus of type `B` to `frame`.
pub open spec fn answers_write<B: Bus>(frame: Seq<u8>, reply: Result<Seq<u8>, B::Error>) -> bool {
    exists|bus: &mut B, given: [u8; 2], back: Result<(), B::Error>|
        given@ == frame && acknowledged(back) == reply && #[trigger] call_ensures(
            B::write,
            (bus, given),
            back,
        )
}

/// `reply` is an answer of [`Bus::write_then_delay`] of a bus of type `B` to
/// `frame` and `nanos`.
pub open spec fn answers_write_then_delay<B: Bus>(
    frame: Seq<u8>,
    nanos: u32,
    reply: Result<Seq<u8>, B::Error>,
) -> bool {
    exists|bus: &mut B, given: [u8; 2], back: Result<(), B::Error>|
        given@ == frame && acknowledged(back) == reply && #[trigger] call_ensures(
            B::write_then_delay,
            (bus, given, nanos),
            back,
        )
}

/// `reply` is an answer of [`Bus::transfer_block`] of a bus of type `B` to
/// `header` and a `body` of `N` bytes.
pub open spec fn answers_block<B: Bus, const N: usize>(
    header: Seq<u8>,
    body: Seq<u8>,
    reply: Result<Seq<u8>, B::Error>,
) -> bool {
    exists|bus: &mut B, first: [u8; 3], second: [u8; N], back: Result<[u8; N], B::Error>|
        first@ == header && second@ == body && received(back) == reply && #[trigger] call_ensures(
            B::transfer_block::<N>,
            (bus, first, second),
            back,
        )
}

/// The exchange is one that a bus of type `B` makes: its reply is an answer
/// of the method of the bus to its request. Of a bus nothing is known but
/// what a call of it returned, so only a call can show that an exchange is
/// genuine. A block is asked for in the two sizes of the sample packets,
/// four and six bytes.
pub open spec fn genuine<B: Bus>(exchange: Exchange<B::Error>) -> bool {
    match exchange.request {
        Request::Transfer { frame } => answers_transfer::<B>(frame, exchange.reply),
        Request::Write { frame } => answers_write::<B>(frame, exchange.reply),
        Request::WriteThenDelay { frame, nanos } => answers_write_then_delay::<B>(
            frame,
            nanos,
            exchange.reply,
        ),
        Request::TransferBlock { header, body } => answers_block::<B, 4>(
            header,
            body,
            exchange.reply,
        ) || answers_block::<B, 6>(header, body, exchange.reply),
    }
}

/// How an operation that needs `steps` transactions ran, given the
/// transactions `done` that it made and its `result`.
///
/// It made at least one and at most `steps`. Each but the last succeeded.
/// It returned `Ok` if and only if it made all of them and the last one
/// succeeded too. Otherwise the last one failed, nothing was sent after it,
/// and the operation returned the error of that transaction unchanged.
pub open spec fn ran_until_failure<T, E>(done: Seq<Exchange<E>>, steps: nat, result: Result<T, E>) -> bool {
    &&& 1 <= done.len() <= steps
    &&& forall|i: int| 0 <= i < done.len() - 1 ==> (#[trigger] done[i]).reply is Ok
    &&& result is Ok <==> done.len() == steps && done.last().reply is Ok
    &&& result matches Err(e) ==> done.last().reply == Err::<Seq<u8>, E>(e)
}

/// An operation that is one read of the register at `addr` ran, and
/// returned the value that came back.
pub open spec fn read_ran<E>(done: Seq<Exchange<E>>, addr: u8, result: Result<u8, E>) -> bool {
    &&& ran_until_failure(done, 1, result)
    &&& done[0].is_read(addr)
    &&& result matches Ok(value) ==> value == done[0].value()
}

/// An operation that is one write of `value` to the register at `addr` ran.
pub open spec fn write_ran<E>(done: Seq<Exchange<E>>, addr: u8, value: u8, result: Result<(), E>) -> bool {
    &&& ran_until_failure(done, 1, result)
    &&& done[0].is_write(addr, value)
}

/// A history that grows first from `a` to `b` and then from `b` to `c` has
/// grown from `a` to `c` by what it gained on the way.
pub proof fn lemma_history_grows<E>(a: Seq<Exchange<E>>, b: Seq<Exchange<E>>, c: Seq<Exchange<E>>)
    requires
        a.is_prefix_of(b),
        b.is_prefix_of(c),
    ensures
        a.is_prefix_of(c),
        c.skip(a.len() as int) == b.skip(a.len() as int) + c.skip(b.len() as int),
{
    assert(c.skip(a.len() as int) =~= b.skip(a.len() as int) + c.skip(b.len() as int));
}

} // verus!
