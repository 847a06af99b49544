//! The cross-core mailbox: a hardware-depth-bounded single-producer,
//! single-consumer byte FIFO from the worker core to the USB-servicing core,
//! and the framing its drained bytes get on the diagnostic serial endpoint.

use vstd::prelude::*;

verus! {

/// Number of entries the mailbox hardware can hold. A producer push beyond
/// this depth is dropped, never queued.
pub const MAILBOX_DEPTH: usize = 8;

/// The bytes of the literal tag `"Fifo: "` that opens one relayed batch.
pub open spec fn fifo_tag() -> Seq<u8> {
    seq![70u8, 105u8, 102u8, 111u8, 58u8, 32u8]
}

/// Carriage return and line feed, the suffix of one relayed batch.
pub open spec fn crlf() -> Seq<u8> {
    seq![13u8, 10u8]
}

/// What one pump cycle writes to the diagnostic serial endpoint for a batch
/// of drained mailbox bytes: nothing for an empty batch, otherwise the tag,
/// the bytes in push order, and the line ending.
pub open spec fn fifo_frame(batch: Seq<u8>) -> Seq<u8> {
    if batch.len() == 0 {
        Seq::empty()
    } else {
        fifo_tag() + batch + crlf()
    }
}

/// The mailbox between the two cores. The worker core pushes one byte per
/// loop turn when there is room; the USB core drains it on every interrupt.
pub struct Mailbox {
    cells: Vec<u8>,
}

impl View for Mailbox {
    type V = Seq<u8>;

    closed spec fn view(&self) -> Seq<u8> {
        self.cells@
    }
}

impl Mailbox {
    /// The depth bound the hardware imposes; every operation keeps it.
    pub open spec fn wf(&self) -> bool {
        self@.len() <= MAILBOX_DEPTH
    }

    /// An empty mailbox.
    pub fn new() -> (mailbox: Mailbox)
        ensures
            mailbox.wf(),
            mailbox@ =~= Seq::<u8>::empty(),
    {
        Mailbox { cells: Vec::new() }
    }

    /// How many bytes are pending.
    pub fn len(&self) -> (count: usize)
        ensures
            count == self@.len(),
    {
        self.cells.len()
    }

    /// Producer-side readiness: room for one more byte.
    pub fn is_write_ready(&self) -> (ready: bool)
        ensures
            ready == (self@.len() < MAILBOX_DEPTH),
    {
        self.cells.len() < MAILBOX_DEPTH
    }

    /// Consumer-side readiness: at least one byte pending.
    pub fn is_read_ready(&self) -> (ready: bool)
        ensures
            ready == (self@.len() > 0),
    {
        self.cells.len() > 0
    }

    /// One producer push: appends the byte when there is room and otherwise
    /// drops it without blocking, as the worker core's loop does.
    pub fn push(&mut self, byte: u8) -> (pushed: bool)
        requires
            old(self).wf(),
        ensures
            final(self).wf(),
            pushed == (old(self)@.len() < MAILBOX_DEPTH),
            pushed ==> final(self)@ =~= old(self)@.push(byte),
            !pushed ==> final(self)@ == old(self)@,
    {
        if self.cells.len() < MAILBOX_DEPTH {
            self.cells.push(byte);
            true
        } else {
            false
        }
    }

    /// One consumer pop: the oldest pending byte, if any.
    pub fn pop(&mut self) -> (front: Option<u8>)
        requires
            old(self).wf(),
        ensures
            final(self).wf(),
            old(self)@.len() == 0 ==> front is None && final(self)@ == old(self)@,
            old(self)@.len() > 0 ==> (front matches Some(byte)
                && byte == old(self)@[0] && final(self)@ =~= old(self)@.skip(1)),
    {
        if self.cells.len() > 0 {
            Some(self.cells.remove(0))
        } else {
            None
        }
    }

    /// Drains every pending byte, oldest first; the mailbox is empty
    /// afterwards. The pump relays the result onto the diagnostic serial.
    pub fn drain(&mut self) -> (batch: Vec<u8>)
        requires
            old(self).wf(),
        ensures
            final(self).wf(),
            final(self)@ =~= Seq::<u8>::empty(),
            batch@ =~= old(self)@,
    {
        let mut batch: Vec<u8> = Vec::new();
        while self.cells.len() > 0
            invariant
                self.wf(),
                batch@ + self@ =~= old(self)@,
            decreases self@.len(),
        {
            let byte = self.cells.remove(0);
            batch.push(byte);
        }
        proof {
            assert(batch@ =~= batch@ + self@);
        }
        batch
    }
}

/// Builds the serial frame for one drained batch: empty for an empty batch,
/// otherwise the `"Fifo: "` tag, the bytes in push order, and the line end.
pub fn frame_batch(batch: &Vec<u8>) -> (frame: Vec<u8>)
    ensures
        frame@ =~= fifo_frame(batch@),
{
    let mut frame: Vec<u8> = Vec::new();
    if batch.len() == 0 {
        return frame;
    }
    frame.push(70u8);
    frame.push(105u8);
    frame.push(102u8);
    frame.push(111u8);
    frame.push(58u8);
    frame.push(32u8);
    let mut i: usize = 0;
    while i < batch.len()
        invariant
            i <= batch@.len(),
            batch@.len() > 0,
            frame@ =~= fifo_tag() + batch@.subrange(0, i as int),
        decreases batch@.len() - i,
    {
        frame.push(batch[i]);
        i += 1;
    }
    frame.push(13u8);
    frame.push(10u8);
    proof {
        assert(frame@ =~= fifo_frame(batch@));
    }
    frame
}

} // verus!
