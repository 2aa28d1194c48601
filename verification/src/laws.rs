use vstd::prelude::*;

verus! {

use crate::handle::TransferDescriptor;
use crate::irq::{fires, woken_spec};
use crate::regs::ChannelRegs;
use crate::state::TaskId;
use crate::transfer::started_regs;
use crate::MAX_TRANSFER_COUNT;

/// For every valid element count, a configured-and-started channel is
/// enabled with the full count in its counter, and once the hardware runs
/// the transfer to its end the sticky complete flag — the condition on
/// which a poll resolves ready — is up and the remaining counter reads
/// zero.
pub proof fn lemma_valid_start_then_completion_resolves(c: ChannelRegs, d: TransferDescriptor)
    requires
        0 < d.count <= MAX_TRANSFER_COUNT,
    ensures
        ({
            let started = started_regs(
                c.status_cleared(),
                d.dir,
                d.peri_addr,
                d.mem_addr,
                d.count as u16,
                d.incr_mem,
                d.size,
            );
            &&& started.en
            &&& started.tcie
            &&& !started.tcif
            &&& started.ndtr == d.count
            &&& started.completed().tcif
            &&& started.completed().ndtr == 0
        }),
{
}

/// Re-registering the same waiting task is idempotent: a second pending
/// poll leaves the channel state table exactly as the first did. Since a
/// pending poll changes nothing else — `wait_for_completion` leaves the
/// controller untouched when the complete flag is down — polling a
/// not-yet-complete transfer any number of times equals polling it once.
pub proof fn lemma_repolling_is_idempotent(slots: Seq<Option<TaskId>>, ch: int, t: TaskId)
    requires
        0 <= ch < slots.len(),
    ensures
        slots.update(ch, Some(t)).update(ch, Some(t)) == slots.update(ch, Some(t)),
{
    assert(slots.update(ch, Some(t)).update(ch, Some(t)) =~= slots.update(ch, Some(t)));
}

/// Writing the control register back to its reset value — what the stop
/// routine and the interrupt bridge both do — disables the channel and
/// both of its interrupt signals in one write, and touches neither the
/// address registers, nor the remaining counter, nor the sticky status
/// flags.
pub proof fn lemma_cr_reset_disables(c: ChannelRegs)
    ensures
        !c.cr_cleared().en,
        !c.cr_cleared().tcie,
        !c.cr_cleared().teie,
        c.cr_cleared().par == c.par,
        c.cr_cleared().mar == c.mar,
        c.cr_cleared().ndtr == c.ndtr,
        c.cr_cleared().tcif == c.tcif,
        c.cr_cleared().teif == c.teif,
{
}

/// Helper for the wake-correctness law: over a stretch of channels none
/// of which fires with an occupied slot, the bridge delivers nothing.
proof fn lemma_woken_spec_empty(cs: Seq<ChannelRegs>, slots: Seq<Option<TaskId>>, n: int)
    requires
        forall|i: int| 0 <= i < n ==> !(fires(#[trigger] cs[i]) && slots[i] is Some),
    ensures
        woken_spec(cs, slots, n) == Seq::<TaskId>::empty(),
    decreases n,
{
    if n > 0 {
        lemma_woken_spec_empty(cs, slots, n - 1);
        assert(woken_spec(cs, slots, n) =~= Seq::<TaskId>::empty());
    }
}

/// Wake correctness: when exactly one of the first `n` channels fires
/// with an occupied slot, the interrupt bridge resumes exactly the task
/// registered in that channel's slot — no other, and no task twice. That
/// the bridge also clears the firing channel's interrupt enables is part
/// of `on_irq`'s own contract, through the control-register reset of
/// `lemma_cr_reset_disables`.
pub proof fn lemma_wake_exactly_registered(
    cs: Seq<ChannelRegs>,
    slots: Seq<Option<TaskId>>,
    n: int,
    k: int,
    t: TaskId,
)
    requires
        0 <= k < n,
        fires(cs[k]),
        slots[k] == Some(t),
        forall|i: int| 0 <= i < n && i != k ==> !(fires(#[trigger] cs[i]) && slots[i] is Some),
    ensures
        woken_spec(cs, slots, n) == seq![t],
    decreases n,
{
    if k == n - 1 {
        lemma_woken_spec_empty(cs, slots, n - 1);
        assert(woken_spec(cs, slots, n) =~= seq![t]);
    } else {
        lemma_wake_exactly_registered(cs, slots, n - 1, k, t);
        assert(woken_spec(cs, slots, n) =~= seq![t]);
    }
}

} // verus!
