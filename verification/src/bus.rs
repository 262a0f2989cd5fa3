use vstd::prelude::*;
use crate::parser::{PACKET_SIZE, PacketParsed, RawPacket, parse_rx, rx_model};

verus! {

/// Interrupt flag the CPU forces to start the transmit state machine.
pub const TX_START_IRQ: u8 = 0x01;

/// Interrupt flag the collision state machine raises when the line is disturbed while sending.
pub const COLLISION_IRQ: u8 = 0x04;

/// Value a transfer returns in `Ok` when the frame went out and a frame came back.
pub const TRANSFER_DONE: i8 = 0;

/// Value a transfer returns in `Err` when a collision aborted it.
pub const TRANSFER_COLLISION: i8 = -1;

/// What a write-and-read transfer does after one look at the hardware.
#[derive(Clone, Copy, Debug, PartialEq, Eq, Structural)]
pub enum TransferStep {
    /// The receive FIFO is not full yet and no collision is flagged: look again.
    Waiting,
    /// A collision is flagged: restart the transmit and collision state machines,
    /// clear their FIFOs and the flag, and report the collision.
    Collision,
    /// The receive FIFO is full: restart the receive state machine and report success.
    Received,
}

/// Whether the raw interrupt flags show a collision.
pub open spec fn collision_flagged(irq_raw: u8) -> bool {
    irq_raw & COLLISION_IRQ == COLLISION_IRQ
}

/// The step a transfer takes: a full receive FIFO ends it; otherwise a collision flag aborts it.
pub open spec fn spec_transfer_step(rx_full: bool, irq_raw: u8) -> TransferStep {
    if rx_full {
        TransferStep::Received
    } else if collision_flagged(irq_raw) {
        TransferStep::Collision
    } else {
        TransferStep::Waiting
    }
}

/// Decides the next step of a transfer from the receive FIFO state and the raw interrupt flags
/// (`irq_raw` is looked at only while the FIFO is not full).
pub fn transfer_step(rx_full: bool, irq_raw: u8) -> (step: TransferStep)
    ensures
        step == spec_transfer_step(rx_full, irq_raw),
        rx_full ==> step == TransferStep::Received,
        !rx_full && irq_raw & 0x04 == 0x04 ==> step == TransferStep::Collision,
        !rx_full && irq_raw & 0x04 == 0 ==> step == TransferStep::Waiting,
{
    proof {
        crate::laws::lemma_transfer_step_decides(rx_full, irq_raw);
    }
    if rx_full {
        TransferStep::Received
    } else if irq_raw & COLLISION_IRQ == COLLISION_IRQ {
        TransferStep::Collision
    } else {
        TransferStep::Waiting
    }
}

/// The result a transfer returns once it stops: `None` while it goes on.
pub fn transfer_result(step: TransferStep) -> (r: Option<Result<i8, i8>>)
    ensures
        step == TransferStep::Waiting ==> r is None,
        step == TransferStep::Collision ==> r == Some(Err::<i8, i8>(TRANSFER_COLLISION)),
        step == TransferStep::Received ==> r == Some(Ok::<i8, i8>(TRANSFER_DONE)),
{
    match step {
        TransferStep::Waiting => None,
        TransferStep::Collision => Some(Err(TRANSFER_COLLISION)),
        TransferStep::Received => Some(Ok(TRANSFER_DONE)),
    }
}

/// What reading a frame out of the receive FIFO does after one word was asked for.
#[derive(Clone, Copy, Debug, PartialEq, Eq, Structural)]
pub enum ReadStep {
    /// The word was stored and more are needed.
    Continue,
    /// The FIFO ran dry before the frame was complete: nothing is returned.
    Abort,
    /// All eight words are in.
    Complete,
}

/// Collects the eight words of a received frame, one FIFO read at a time.
pub struct FrameReader {
    words: [u32; PACKET_SIZE],
    count: usize,
}

impl FrameReader {
    /// The words received so far, in order.
    pub closed spec fn received(&self) -> Seq<u32> {
        self.words@.take(self.count as int)
    }

    /// The reader holds at most one frame.
    pub closed spec fn wf(&self) -> bool {
        self.count <= PACKET_SIZE
    }

    /// A reader that has received nothing.
    pub fn new() -> (r: FrameReader)
        ensures
            r.wf(),
            r.received() == Seq::<u32>::empty(),
    {
        FrameReader { words: [0u32; PACKET_SIZE], count: 0 }
    }

    /// Number of words received so far.
    pub fn len(&self) -> (n: usize)
        requires
            self.wf(),
        ensures
            n == self.received().len(),
    {
        self.count
    }

    /// Takes the result of one FIFO read: a word is appended, an empty read aborts the frame.
    pub fn accept(&mut self, word: Option<u32>) -> (step: ReadStep)
        requires
            old(self).wf(),
            old(self).received().len() < PACKET_SIZE,
        ensures
            final(self).wf(),
            word is None ==> step == ReadStep::Abort && final(self).received() == old(
                self,
            ).received(),
            word matches Some(w) ==> final(self).received() == old(self).received().push(w),
            word is Some ==> (step == ReadStep::Complete <==> final(self).received().len()
                == PACKET_SIZE),
            word is Some ==> (step == ReadStep::Continue <==> final(self).received().len()
                < PACKET_SIZE),
    {
        match word {
            None => ReadStep::Abort,
            Some(w) => {
                let ghost before = self.received();
                self.words[self.count] = w;
                self.count = self.count + 1;
                assert(self.received() =~= before.push(w));
                if self.count == PACKET_SIZE {
                    ReadStep::Complete
                } else {
                    ReadStep::Continue
                }
            },
        }
    }

    /// The complete frame, once all eight words are in.
    pub fn frame(&self) -> (f: Option<[u32; PACKET_SIZE]>)
        requires
            self.wf(),
        ensures
            f is Some <==> self.received().len() == PACKET_SIZE,
            f matches Some(d) ==> d@ == self.received(),
    {
        if self.count == PACKET_SIZE {
            assert(self.words@.take(PACKET_SIZE as int) =~= self.words@);
            Some(self.words)
        } else {
            None
        }
    }
}

/// What a read returns for a frame taken from the FIFO (`None` when there was none or it broke
/// off): the frame itself, and its decoding when `parse` asks for it.
pub fn read_result(frame: Option<[u32; PACKET_SIZE]>, parse: bool) -> (r: (
    Option<[u32; PACKET_SIZE]>,
    Option<PacketParsed>,
))
    ensures
        r.0 == frame,
        frame is None || !parse ==> r.1 is None,
        frame matches Some(d) ==> (parse ==> (r.1 is Some <==> rx_model(d@) is Some)),
        frame matches Some(d) ==> (parse ==> (r.1 matches Some(p) ==> p@ == rx_model(
            d@,
        ).unwrap())),
{
    match frame {
        None => (None, None),
        Some(d) => {
            if parse {
                (Some(d), parse_rx(RawPacket { data: d }))
            } else {
                (Some(d), None)
            }
        },
    }
}

} // verus!
