use vstd::prelude::*;

verus! {

use crate::regs::{ChannelRegs, Dir, Dma, Routing, Size};
use crate::{Request, MAX_TRANSFER_COUNT};

/// A channel's registers right after a transfer was programmed and
/// enabled: addresses, count, direction, widths and increment mode written,
/// both interrupt signals armed, the channel enabled, the sticky status
/// flags untouched.
pub open spec fn started_regs(
    c: ChannelRegs,
    dir: Dir,
    peri_addr: u32,
    mem_addr: u32,
    count: u16,
    incr_mem: bool,
    size: Size,
) -> ChannelRegs {
    ChannelRegs {
        en: true,
        tcie: true,
        teie: true,
        dir: dir,
        size: size,
        minc: incr_mem,
        par: peri_addr,
        mar: mem_addr,
        ndtr: count,
        tcif: c.tcif,
        teif: c.teif,
    }
}

/// Relies on core::sync::atomic::fence with release ordering: preceding
/// reads and writes may not be reordered past it, so buffer contents are
/// visible to the hardware before the channel can be enabled.
#[verifier::external_body]
fn fence_release() {
    core::sync::atomic::fence(core::sync::atomic::Ordering::Release);
}

/// Relies on core::sync::atomic::fence with acquire ordering: subsequent
/// reads and writes may not be reordered before it, so memory the
/// hardware wrote is visible once the disable is confirmed.
#[verifier::external_body]
fn fence_acquire() {
    core::sync::atomic::fence(core::sync::atomic::Ordering::Acquire);
}

impl Dma {
    /// Programs a channel and enables it.
    ///
    /// On a multiplexed family the request line is first routed to the
    /// channel; a family with fixed one-to-one wiring skips that step. A
    /// release barrier is issued before the enable write so that the
    /// buffer the CPU prepared is visible to the hardware. The sticky
    /// status flags are left alone: clearing them is `reset_status`'s job.
    pub fn start_transfer(
        &mut self,
        ch: usize,
        request: Request,
        dir: Dir,
        peri_addr: u32,
        mem_addr: u32,
        mem_len: usize,
        incr_mem: bool,
        data_size: Size,
    )
        requires
            old(self).wf(),
            ch < old(self).ch_count(),
            mem_len <= MAX_TRANSFER_COUNT,
        ensures
            final(self).wf(),
            final(self).channels@ == old(self).channels@.update(
                ch as int,
                started_regs(
                    old(self).channels@[ch as int],
                    dir,
                    peri_addr,
                    mem_addr,
                    mem_len as u16,
                    incr_mem,
                    data_size,
                ),
            ),
            final(self).routes@ == if old(self).routing is Multiplexed {
                old(self).routes@.update(ch as int, request)
            } else {
                old(self).routes@
            },
            final(self).routing == old(self).routing,
            final(self).stop_events == old(self).stop_events,
    {
        if matches!(self.routing, Routing::Multiplexed) {
            self.routes[ch] = request;
        }

        fence_release();

        let mut c = self.channels[ch];
        c.par = peri_addr;
        c.mar = mem_addr;
        c.ndtr = mem_len as u16;
        c.dir = dir;
        c.size = data_size;
        c.minc = incr_mem;
        c.teie = true;
        c.tcie = true;
        c.en = true;
        self.channels[ch] = c;
    }

    /// Writes a channel's control register back to its power-on-reset
    /// value: the cheapest correct way to clear the enable bit and both
    /// interrupt enables in one atomic write.
    pub(crate) fn clear_cr(&mut self, ch: usize)
        requires
            old(self).wf(),
            ch < old(self).ch_count(),
        ensures
            final(self).wf(),
            final(self).channels@ == old(self).channels@.update(
                ch as int,
                old(self).channels@[ch as int].cr_cleared(),
            ),
            final(self).routing == old(self).routing,
            final(self).routes == old(self).routes,
            final(self).stop_events == old(self).stop_events,
    {
        let mut c = self.channels[ch];
        c.en = false;
        c.tcie = false;
        c.teie = false;
        c.dir = Dir::PeripheralToMemory;
        c.size = Size::Bits8;
        c.minc = false;
        self.channels[ch] = c;
    }

    /// Disables a channel and its interrupts by writing the control
    /// register's power-on-reset value, busy-waits on the enable-bit
    /// readback until the hardware confirms the disable (bounded by
    /// hardware to about one peripheral bus cycle; this model acknowledges
    /// at once), then issues an acquire barrier. Records the invocation in
    /// the per-channel stop ledger.
    pub fn stop(&mut self, ch: usize)
        requires
            old(self).wf(),
            ch < old(self).ch_count(),
            old(self).stop_events@[ch as int] < u64::MAX,
        ensures
            final(self).wf(),
            final(self).channels@ == old(self).channels@.update(
                ch as int,
                old(self).channels@[ch as int].cr_cleared(),
            ),
            final(self).stop_events@ == old(self).stop_events@.update(
                ch as int,
                (old(self).stop_events@[ch as int] + 1) as u64,
            ),
            final(self).routing == old(self).routing,
            final(self).routes == old(self).routes,
    {
        self.clear_cr(ch);

        while self.is_active(ch)
            invariant
                self.wf(),
                ch < self.ch_count(),
                !self.channels@[ch as int].en,
            decreases 0int,
        {
        }

        fence_acquire();

        let n: u64 = self.stop_events[ch];
        self.stop_events[ch] = n + 1;
    }

    /// Reads the enable bit; no side effects.
    pub fn is_active(&self, ch: usize) -> (r: bool)
        requires
            ch < self.ch_count(),
        ensures
            r == self.channels@[ch as int].en,
    {
        self.channels[ch].en
    }

    /// Whether the channel is stopped: the complement of the enable bit.
    pub fn is_stopped(&self, ch: usize) -> (r: bool)
        requires
            ch < self.ch_count(),
        ensures
            r == !self.channels@[ch as int].en,
    {
        !self.channels[ch].en
    }

    /// Reads the live remaining-element counter. Zero means the transfer
    /// ran to completion — not that it was ever started, so this alone
    /// does not establish success.
    pub fn get_remaining_transfers(&self, ch: usize) -> (r: u16)
        requires
            ch < self.ch_count(),
        ensures
            r == self.channels@[ch as int].ndtr,
    {
        self.channels[ch].ndtr
    }

    /// Clears the sticky transfer-complete and transfer-error flags, which
    /// persist across transfers until explicitly cleared.
    pub fn reset_status(&mut self, ch: usize)
        requires
            old(self).wf(),
            ch < old(self).ch_count(),
        ensures
            final(self).wf(),
            final(self).channels@ == old(self).channels@.update(
                ch as int,
                old(self).channels@[ch as int].status_cleared(),
            ),
            final(self).routing == old(self).routing,
            final(self).routes == old(self).routes,
            final(self).stop_events == old(self).stop_events,
    {
        let mut c = self.channels[ch];
        c.tcif = false;
        c.teif = false;
        self.channels[ch] = c;
    }

    /// The number of times the stop routine ran on this channel.
    pub fn stop_count(&self, ch: usize) -> (r: u64)
        requires
            self.wf(),
            ch < self.ch_count(),
        ensures
            r == self.stop_events@[ch as int],
    {
        self.stop_events[ch]
    }

    /// The request line last routed to this channel.
    pub fn routed_request(&self, ch: usize) -> (r: Request)
        requires
            self.wf(),
            ch < self.ch_count(),
        ensures
            r == self.routes@[ch as int],
    {
        self.routes[ch]
    }
}

} // verus!
