//! An asynchronous DMA transfer engine for a microcontroller: per-channel
//! transfer control over the controller's registers, an interrupt bridge
//! that turns hardware completion signals into task wakes, poll-based
//! completion, and a cancellation guard that stops the channel on every
//! exit path before the backing buffer returns to its caller.
//!
//! The engine is written once and parameterized by the hardware family's
//! request routing; the register-access layer is the narrow per-channel
//! register model in [`regs`], which on a host doubles as the recording
//! mock that tests and simulations drive. The unverified rim around the
//! engine supplies what a deployment needs besides the logic: interrupt
//! installation, clock enablement, the executor, and the mapping between
//! task tokens and real wakers.

use vstd::prelude::*;

pub mod handle;
pub mod irq;
pub mod laws;
pub mod regs;
pub mod state;
pub mod transfer;

verus! {

use crate::handle::ChannelHandle;
use crate::regs::{ChannelRegs, Dma, Routing};
use crate::state::WakerTable;

/// Identifier of the peripheral request line that triggers a channel's
/// transfer steps.
pub type Request = u8;

/// Largest element count one transfer can carry: the hardware count
/// register is sixteen bits wide.
pub const MAX_TRANSFER_COUNT: usize = 0xFFFF;

/// Placeholder for peripheral drivers instantiated without a DMA channel.
pub struct NoDma;

/// Boot-phase initialization, done once, before interrupts are enabled:
/// builds the controller model with every channel at its power-on value,
/// the process-wide channel state table with every slot empty, and the
/// per-channel handles — exactly one handle per physical channel, so
/// that each channel has a single owner. A deployment follows this with
/// its one-time collaborator calls: enabling the peripheral clock and
/// installing the interrupt bridge on each controller's interrupt line.
pub fn init(routing: Routing, ch_count: usize) -> (r: (Dma, WakerTable, Vec<ChannelHandle>))
    ensures
        r.0.wf(),
        r.0.routing == routing,
        r.0.ch_count() == ch_count,
        forall|i: int| 0 <= i < ch_count ==> r.0.channels@[i] == ChannelRegs::reset_spec(),
        r.1@.len() == ch_count,
        forall|i: int| 0 <= i < ch_count ==> r.1@[i] is None,
        r.2@.len() == ch_count,
        forall|i: int|
            0 <= i < ch_count ==> (#[trigger] r.2@[i]).channel() == i && !r.2@[i].in_flight(),
{
    let dma = Dma::new(routing, ch_count);
    let table = WakerTable::new(ch_count);
    let mut handles: Vec<ChannelHandle> = Vec::new();
    let mut i: usize = 0;
    while i < ch_count
        invariant
            i <= ch_count,
            handles@.len() == i,
            forall|j: int|
                0 <= j < i ==> (#[trigger] handles@[j]).channel() == j && !handles@[j].in_flight(),
        decreases ch_count - i,
    {
        handles.push(ChannelHandle::new(i));
        i = i + 1;
    }
    (dma, table, handles)
}

} // verus!
