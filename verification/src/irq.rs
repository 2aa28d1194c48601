use vstd::prelude::*;

verus! {

use crate::regs::{ChannelRegs, Dma};
use crate::state::{TaskId, WakerTable};

/// Whether a channel's completion will fire on the interrupt line: its
/// sticky complete flag is set and its completion interrupt is enabled.
pub open spec fn fires(c: ChannelRegs) -> bool {
    c.tcif && c.tcie
}

/// The tokens the bridge delivers when it runs over the first `n`
/// channels: for every channel whose completion fires and whose slot is
/// occupied, the registered token, in channel order.
pub open spec fn woken_spec(
    cs: Seq<ChannelRegs>,
    slots: Seq<Option<TaskId>>,
    n: int,
) -> Seq<TaskId>
    decreases n,
{
    if n <= 0 {
        Seq::empty()
    } else {
        woken_spec(cs, slots, n - 1) + if fires(cs[n - 1]) && slots[n - 1] is Some {
            seq![slots[n - 1].unwrap()]
        } else {
            Seq::empty()
        }
    }
}

/// The hardware interrupt handler: runs whenever the controller's
/// interrupt line fires, in interrupt context, so it never blocks, never
/// allocates a slot, and iterates exactly once over the fixed channel
/// count.
///
/// For every channel whose complete flag is set with its completion
/// interrupt enabled, the control register is written back to its reset
/// value — disabling the channel's interrupts so that the still-set flag
/// cannot storm the line — and the token in the channel's slot is taken.
/// The returned tokens, in channel order, name the tasks the caller must
/// resume.
pub fn on_irq(dma: &mut Dma, table: &mut WakerTable) -> (woken: Vec<TaskId>)
    requires
        old(dma).wf(),
        old(table)@.len() == old(dma).ch_count(),
    ensures
        final(dma).wf(),
        final(dma).ch_count() == old(dma).ch_count(),
        final(table)@.len() == old(table)@.len(),
        forall|i: int|
            0 <= i < old(dma).ch_count() ==> #[trigger] final(dma).channels@[i] == (
            if fires(old(dma).channels@[i]) {
                old(dma).channels@[i].cr_cleared()
            } else {
                old(dma).channels@[i]
            }),
        forall|i: int|
            0 <= i < old(dma).ch_count() ==> #[trigger] final(table)@[i] == (
            if fires(old(dma).channels@[i]) {
                None::<TaskId>
            } else {
                old(table)@[i]
            }),
        woken@ == woken_spec(old(dma).channels@, old(table)@, old(dma).ch_count() as int),
        final(dma).routing == old(dma).routing,
        final(dma).routes == old(dma).routes,
        final(dma).stop_events == old(dma).stop_events,
{
    let mut woken: Vec<TaskId> = Vec::new();
    let n: usize = dma.channels.len();
    let mut chn: usize = 0;
    while chn < n
        invariant
            n == old(dma).ch_count(),
            chn <= n,
            dma.wf(),
            dma.ch_count() == n,
            table@.len() == n,
            dma.routing == old(dma).routing,
            dma.routes == old(dma).routes,
            dma.stop_events == old(dma).stop_events,
            forall|i: int|
                0 <= i < chn ==> #[trigger] dma.channels@[i] == (
                if fires(old(dma).channels@[i]) {
                    old(dma).channels@[i].cr_cleared()
                } else {
                    old(dma).channels@[i]
                }),
            forall|i: int| chn <= i < n ==> #[trigger] dma.channels@[i] == old(dma).channels@[i],
            forall|i: int|
                0 <= i < chn ==> #[trigger] table@[i] == (
                if fires(old(dma).channels@[i]) {
                    None::<TaskId>
                } else {
                    old(table)@[i]
                }),
            forall|i: int| chn <= i < n ==> #[trigger] table@[i] == old(table)@[i],
            woken@ == woken_spec(old(dma).channels@, old(table)@, chn as int),
        decreases n - chn,
    {
        let c = dma.channels[chn];
        if c.tcif && c.tcie {
            dma.clear_cr(chn);
            match table.wake(chn) {
                Some(t) => {
                    woken.push(t);
                },
                None => {},
            }
        }
        chn = chn + 1;
        proof {
            assert(woken@ =~= woken_spec(old(dma).channels@, old(table)@, chn as int));
        }
    }
    woken
}

} // verus!
