//! The command pump: the per-interrupt cycle that relays mailbox traffic,
//! honours the bootloader re-entry trigger, and pumps one CMSIS-DAP packet
//! through the debug-access executor — together with the one-time self-debug
//! wiring step that must precede every executed packet.

use vstd::prelude::*;

use crate::mailbox::Mailbox;
use crate::mailbox::fifo_frame;
use crate::mailbox::frame_batch;

verus! {

/// The byte that, anywhere among one cycle's inbound serial bytes, makes the
/// device reset into the mask-ROM USB bootloader.
pub const RESET_TRIGGER: u8 = 114;

/// GPIO mask handed to the ROM bootloader entry: the pin that signals
/// bootloader activity.
pub const BOOTLOADER_ACTIVITY_PIN_MASK: u32 = 1u32 << 25;

/// Disabled-interface mask handed to the ROM bootloader entry: none.
pub const BOOTLOADER_DISABLE_MASK: u32 = 0;

/// Whether a batch of inbound serial bytes holds the re-entry trigger.
pub open spec fn has_reset_trigger(bytes: Seq<u8>) -> bool {
    exists|i: int| 0 <= i < bytes.len() && bytes[i] == RESET_TRIGGER
}

/// Outcome of one non-blocking endpoint read, as the transport hands it to
/// the pump: not ready (an error this cycle ignores), or a buffer of which
/// the first `count` bytes are what arrived.
pub enum ReadOutcome {
    NotReady,
    Packet { buffer: Vec<u8>, count: usize },
}

impl ReadOutcome {
    /// A read never reports more bytes than the buffer it filled holds.
    pub open spec fn wf(&self) -> bool {
        self matches ReadOutcome::Packet { buffer, count } ==> count <= buffer@.len()
    }

    /// The bytes this outcome delivered: none unless the read succeeded
    /// with at least one byte.
    pub open spec fn payload(&self) -> Seq<u8> {
        match self {
            ReadOutcome::NotReady => Seq::empty(),
            ReadOutcome::Packet { buffer, count } => buffer@.subrange(0, *count as int),
        }
    }
}

/// What the first half of one cycle tells the caller to do, in this order:
/// write `serial_out` to the diagnostic serial endpoint, then reset into the
/// bootloader if the trigger arrived, else read the DAP OUT endpoint.
pub struct CycleActions {
    pub serial_out: Vec<u8>,
    pub reset_to_bootloader: bool,
    pub read_dap: bool,
}

/// Events in a probe's history: the one-time self-debug wiring, and each
/// command packet handed to the executor.
pub enum ProbeEvent {
    Wire,
    Execute,
}

/// Whether a history contains the wiring step.
pub open spec fn wired_in(trace: Seq<ProbeEvent>) -> bool {
    exists|j: int| 0 <= j < trace.len() && trace[j] is Wire
}

/// A valid history: every executed packet has the wiring step somewhere
/// earlier.
pub open spec fn trace_valid(trace: Seq<ProbeEvent>) -> bool
    decreases trace.len(),
{
    if trace.len() == 0 {
        true
    } else {
        trace_valid(trace.drop_last()) && (trace.last() is Execute ==> wired_in(
            trace.drop_last(),
        ))
    }
}

/// Law: in every valid history, the self-debug wiring stands strictly before
/// each executed packet.
pub proof fn lemma_wiring_precedes_execution(trace: Seq<ProbeEvent>, i: int)
    requires
        trace_valid(trace),
        0 <= i < trace.len(),
        trace[i] is Execute,
    ensures
        exists|j: int| 0 <= j < i && trace[j] is Wire,
    decreases trace.len(),
{
    if i == trace.len() - 1 {
        assert(wired_in(trace.drop_last()));
        let j = choose|j: int|
            0 <= j < trace.drop_last().len() && trace.drop_last()[j] is Wire;
        assert(trace[j] is Wire);
    } else {
        lemma_wiring_precedes_execution(trace.drop_last(), i);
        let j = choose|j: int| 0 <= j < i && trace.drop_last()[j] is Wire;
        assert(trace[j] is Wire);
    }
}

/// Where the pump stands inside one cycle: ready to start one, or waiting
/// for the outcome of the DAP endpoint read it asked for.
#[derive(Clone, Copy, Debug, PartialEq, Eq, Structural)]
pub enum PumpPhase {
    Ready,
    DapPending,
}

/// One more executed packet, with the count pinned at its ceiling rather
/// than wrapped.
pub open spec fn bump(count: u64) -> u64 {
    if count == u64::MAX {
        count
    } else {
        (count + 1) as u64
    }
}

/// The probe: the debug session's state and the command pump over it. One
/// value lives for the whole process; the USB interrupt is its only driver.
pub struct Probe {
    wired: bool,
    phase: PumpPhase,
    executed: u64,
    trace: Ghost<Seq<ProbeEvent>>,
}

impl Probe {
    /// The probe's history: what was wired and executed, in order.
    pub closed spec fn history(&self) -> Seq<ProbeEvent> {
        self.trace@
    }

    /// Whether the self-debug wiring step has run.
    pub closed spec fn wired(&self) -> bool {
        self.wired
    }

    /// Where the pump stands inside the current cycle.
    pub closed spec fn phase(&self) -> PumpPhase {
        self.phase
    }

    /// How many packets the executor has been handed, pinned at its ceiling.
    pub closed spec fn executed(&self) -> u64 {
        self.executed
    }

    /// Every probe this library hands out satisfies this: its history is
    /// valid, records the wiring step exactly when the wiring ran, and a
    /// pending DAP read exists only on a wired probe.
    pub open spec fn wf(&self) -> bool {
        &&& trace_valid(self.history())
        &&& self.wired() == wired_in(self.history())
        &&& (self.phase() is DapPending ==> self.wired())
    }

    /// A fresh probe: unwired, between cycles, nothing executed.
    pub fn new() -> (probe: Probe)
        ensures
            probe.wf(),
            !probe.wired(),
            probe.phase() is Ready,
            probe.executed() == 0,
            probe.history() =~= Seq::<ProbeEvent>::empty(),
    {
        Probe { wired: false, phase: PumpPhase::Ready, executed: 0, trace: Ghost(Seq::empty()) }
    }

    /// The self-debug wiring step: initializes the executor's state and
    /// routes the DAP port signals to the chip's own debug logic instead of
    /// external pins. Runs exactly once, before the pump is armed; the
    /// caller performs the register write and records it here.
    pub fn setup(&mut self)
        requires
            old(self).wf(),
            !old(self).wired(),
        ensures
            final(self).wf(),
            final(self).wired(),
            final(self).phase() == old(self).phase(),
            final(self).executed() == old(self).executed(),
            final(self).history() =~= old(self).history().push(ProbeEvent::Wire),
    {
        self.wired = true;
        proof {
            self.trace@ = self.trace@.push(ProbeEvent::Wire);
        }
        proof {
            let t0 = old(self).history();
            let t1 = self.history();
            assert(t1.drop_last() =~= t0);
            assert(t1[t0.len() as int] is Wire);
            assert(wired_in(t1));
            assert(trace_valid(t1));
        }
    }

    /// Whether the self-debug wiring has run.
    pub fn is_wired(&self) -> (wired: bool)
        ensures
            wired == self.wired(),
    {
        self.wired
    }

    /// Whether the pump owes a DAP endpoint read for the current cycle.
    pub fn awaiting_dap_read(&self) -> (pending: bool)
        ensures
            pending == (self.phase() is DapPending),
    {
        self.phase == PumpPhase::DapPending
    }

    /// How many command packets the executor has been handed.
    pub fn packets_executed(&self) -> (count: u64)
        ensures
            count == self.executed(),
    {
        self.executed
    }

    /// First half of one pump cycle, run on every USB interrupt. `event`
    /// says whether the device poll reported activity; `serial_in` is the
    /// outcome of the diagnostic serial read. An idle poll does nothing at
    /// all; otherwise the mailbox is drained into one serial frame, the
    /// serial bytes decide on bootloader re-entry, and — only when no reset
    /// is due — the caller is asked for the DAP endpoint read that
    /// `on_dap_read` answers.
    pub fn cycle_start(&mut self, event: bool, mailbox: &mut Mailbox, serial_in: ReadOutcome) -> (actions:
        CycleActions)
        requires
            old(self).wf(),
            old(self).wired(),
            old(self).phase() is Ready,
            old(mailbox).wf(),
            serial_in.wf(),
        ensures
            final(self).wf(),
            final(mailbox).wf(),
            final(self).wired(),
            final(self).executed() == old(self).executed(),
            final(self).history() == old(self).history(),
            !event ==> *final(self) == *old(self),
            !event ==> final(mailbox)@ == old(mailbox)@,
            !event ==> actions.serial_out@ == Seq::<u8>::empty(),
            !event ==> !actions.reset_to_bootloader,
            event ==> actions.serial_out@ =~= fifo_frame(old(mailbox)@),
            event ==> final(mailbox)@ =~= Seq::<u8>::empty(),
            event ==> actions.reset_to_bootloader == has_reset_trigger(serial_in.payload()),
            actions.read_dap == (event && !actions.reset_to_bootloader),
            final(self).phase() == (if actions.read_dap {
                PumpPhase::DapPending
            } else {
                PumpPhase::Ready
            }),
    {
        if !event {
            return CycleActions {
                serial_out: Vec::new(),
                reset_to_bootloader: false,
                read_dap: false,
            };
        }
        let batch = mailbox.drain();
        let serial_out = frame_batch(&batch);
        let reset_to_bootloader = match &serial_in {
            ReadOutcome::NotReady => false,
            ReadOutcome::Packet { buffer, count } => scan_reset_trigger(buffer, *count),
        };
        if !reset_to_bootloader {
            self.phase = PumpPhase::DapPending;
        }
        CycleActions { serial_out, reset_to_bootloader, read_dap: !reset_to_bootloader }
    }

    /// Second half of the cycle: the outcome of the DAP OUT endpoint read
    /// that `cycle_start` asked for. An error or an empty read ends the
    /// cycle with no executor call and no IN write; a packet yields exactly
    /// its first `count` bytes — no stale buffer bytes beyond them — as the
    /// request for the executor, and counts as one executed packet.
    pub fn on_dap_read(&mut self, outcome: ReadOutcome) -> (request: Option<Vec<u8>>)
        requires
            old(self).wf(),
            old(self).phase() is DapPending,
            outcome.wf(),
        ensures
            final(self).wf(),
            final(self).wired(),
            final(self).phase() is Ready,
            outcome.payload().len() == 0 ==> request is None,
            outcome.payload().len() == 0 ==> final(self).executed() == old(self).executed(),
            outcome.payload().len() == 0 ==> final(self).history() == old(self).history(),
            outcome.payload().len() > 0 ==> (request matches Some(bytes) && bytes@ =~= outcome.payload()),
            outcome.payload().len() > 0 ==> final(self).executed() == bump(old(self).executed()),
            outcome.payload().len() > 0 ==> final(self).history() =~= old(self).history().push(
                ProbeEvent::Execute,
            ),
    {
        self.phase = PumpPhase::Ready;
        match outcome {
            ReadOutcome::NotReady => None,
            ReadOutcome::Packet { buffer, count } => {
                if count == 0 {
                    None
                } else {
                    let mut request: Vec<u8> = Vec::new();
                    let mut i: usize = 0;
                    while i < count
                        invariant
                            i <= count <= buffer@.len(),
                            request@ =~= buffer@.subrange(0, i as int),
                        decreases count - i,
                    {
                        request.push(buffer[i]);
                        i += 1;
                    }
                    self.executed = if self.executed == u64::MAX {
                        self.executed
                    } else {
                        self.executed + 1
                    };
                    proof {
                        self.trace@ = self.trace@.push(ProbeEvent::Execute);
                    }
                    proof {
                        let t0 = old(self).history();
                        let t1 = self.history();
                        assert(t1.drop_last() =~= t0);
                        assert(wired_in(t0));
                        let j = choose|j: int| 0 <= j < t0.len() && t0[j] is Wire;
                        assert(t1[j] is Wire);
                        assert(wired_in(t1));
                        assert(trace_valid(t1));
                    }
                    Some(request)
                }
            },
        }
    }
}

/// Law at the probe: the wiring step stands strictly before every executed
/// packet in the history of any probe this library can produce.
pub proof fn lemma_probe_wiring_precedes_execution(probe: &Probe, i: int)
    requires
        probe.wf(),
        0 <= i < probe.history().len(),
        probe.history()[i] is Execute,
    ensures
        exists|j: int| 0 <= j < i && probe.history()[j] is Wire,
{
    lemma_wiring_precedes_execution(probe.history(), i);
}

/// Scans the first `count` inbound serial bytes for the re-entry trigger,
/// stopping at the first match, as the cycle does before any DAP work.
pub fn scan_reset_trigger(buffer: &Vec<u8>, count: usize) -> (found: bool)
    requires
        count <= buffer.len(),
    ensures
        found == has_reset_trigger(buffer@.subrange(0, count as int)),
{
    let mut i: usize = 0;
    while i < count
        invariant
            i <= count <= buffer@.len(),
            forall|k: int| 0 <= k < i ==> buffer@[k] != RESET_TRIGGER,
        decreases count - i,
    {
        if buffer[i] == RESET_TRIGGER {
            proof {
                assert(buffer@.subrange(0, count as int)[i as int] == RESET_TRIGGER);
            }
            return true;
        }
        i += 1;
    }
    false
}

/// The bytes the pump writes back on the IN endpoint: exactly the first
/// `produced` bytes of the executor's response buffer, no more, no fewer.
pub fn response_bytes(response: &Vec<u8>, produced: u16) -> (out: Vec<u8>)
    requires
        produced as int <= response@.len(),
    ensures
        out@ =~= response@.subrange(0, produced as int),
{
    let mut out: Vec<u8> = Vec::new();
    let mut i: usize = 0;
    let limit = produced as usize;
    while i < limit
        invariant
            i <= limit <= response@.len(),
            out@ =~= response@.subrange(0, i as int),
        decreases limit - i,
    {
        out.push(response[i]);
        i += 1;
    }
    out
}

} // verus!
