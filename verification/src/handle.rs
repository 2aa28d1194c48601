use vstd::prelude::*;

verus! {

use crate::regs::{Dir, Dma, Size};
use crate::state::{TaskId, WakerTable};
use crate::transfer::started_regs;
use crate::{Request, MAX_TRANSFER_COUNT};

/// A caller-contract violation, detected at the handle boundary before
/// any register is touched.
#[derive(Clone, Copy, Debug, PartialEq, Eq, Structural)]
pub enum Error {
    /// The element count exceeds the sixteen-bit hardware counter.
    CountTooLarge,
    /// The channel's previous transfer has not been released yet: a
    /// channel is a single-owner resource.
    ChannelBusy,
}

/// Outcome of polling a started transfer.
#[derive(Clone, Copy, Debug, PartialEq, Eq, Structural)]
pub enum Poll {
    /// The hardware signalled completion; the channel was stopped and
    /// the buffer is the caller's again.
    Ready,
    /// Not complete yet; the interrupt bridge will wake the registered
    /// task.
    Pending,
}

/// Everything one transfer needs: constructed at transfer start, consumed
/// immediately by transfer control, not retained.
#[derive(Clone, Copy, Debug, PartialEq, Eq, Structural)]
pub struct TransferDescriptor {
    /// Peripheral request line to route to the channel (ignored by
    /// families with fixed wiring).
    pub request: Request,
    /// Direction of the transfer.
    pub dir: Dir,
    /// Element width.
    pub size: Size,
    /// Peripheral register address.
    pub peri_addr: u32,
    /// Start address of the memory buffer.
    pub mem_addr: u32,
    /// Number of elements to move.
    pub count: usize,
    /// Whether the memory address auto-increments after each element.
    pub incr_mem: bool,
}

/// The verdict the handle reaches before touching any register: a busy
/// channel is rejected first, then an oversized element count.
pub open spec fn start_verdict(busy: bool, count: usize) -> Result<(), Error> {
    if busy {
        Err(Error::ChannelBusy)
    } else if count > MAX_TRANSFER_COUNT {
        Err(Error::CountTooLarge)
    } else {
        Ok(())
    }
}

/// What higher-level peripheral drivers consume: the queries and the
/// waker registration of one DMA channel, stated over the channel's
/// stable index.
pub trait Channel {
    /// The stable global index of the physical channel this capability
    /// owns.
    spec fn channel_id(&self) -> int;

    /// Whether the channel is stopped: the complement of the hardware
    /// enable bit; no side effects.
    fn is_stopped(&self, dma: &Dma) -> (r: bool)
        requires
            0 <= self.channel_id() < dma.ch_count(),
        ensures
            r == !dma.channels@[self.channel_id()].en,
    ;

    /// The live remaining-element counter; zero once a transfer ran to
    /// completion.
    fn remaining_transfers(&self, dma: &Dma) -> (r: u16)
        requires
            0 <= self.channel_id() < dma.ch_count(),
        ensures
            r == dma.channels@[self.channel_id()].ndtr,
    ;

    /// Registers the task to resume when this channel completes,
    /// overwriting any prior registrant.
    fn set_waker(&self, table: &mut WakerTable, task: TaskId)
        requires
            0 <= self.channel_id() < old(table)@.len(),
        ensures
            final(table)@ == old(table)@.update(self.channel_id(), Some(task)),
    ;
}

/// The capability through which callers use one physical channel. The
/// handle exclusively owns its channel: create exactly one handle per
/// channel, at boot.
///
/// `in_flight` is the cancellation guard: it is raised when a one-shot
/// transfer starts and lowered only by the stop routine — on normal
/// completion inside `wait_for_completion`, or on every other exit path
/// through `abandon` or `stop`. While it is raised the buffer belongs to
/// the hardware and a second transfer is rejected.
pub struct ChannelHandle {
    ch: usize,
    in_flight: bool,
}

impl ChannelHandle {
    /// The stable global index of the channel this handle owns.
    pub closed spec fn channel(&self) -> int {
        self.ch as int
    }

    /// Whether a guarded transfer is outstanding on this channel.
    pub closed spec fn in_flight(&self) -> bool {
        self.in_flight
    }

    /// A handle for the channel with the given global index, with no
    /// transfer outstanding. Call once per channel, at boot.
    pub fn new(ch: usize) -> (r: ChannelHandle)
        ensures
            r.channel() == ch,
            !r.in_flight(),
    {
        ChannelHandle { ch, in_flight: false }
    }

    /// The channel index this handle owns.
    pub fn index(&self) -> (r: usize)
        ensures
            r == self.channel(),
    {
        self.ch
    }

    /// Whether the channel is free for a new transfer: no guarded
    /// transfer outstanding, so the buffer of the last one is the
    /// caller's again.
    pub fn is_idle(&self) -> (r: bool)
        ensures
            r == !self.in_flight(),
    {
        !self.in_flight
    }

    /// Checks the caller's contract, clears the sticky status flags of
    /// the previous transfer, programs and enables the channel, and
    /// raises the cancellation guard.
    ///
    /// A busy channel and an oversized element count are rejected before
    /// any register write, leaving controller and handle exactly as they
    /// were.
    pub fn configure_and_start(&mut self, dma: &mut Dma, d: TransferDescriptor) -> (r: Result<
        (),
        Error,
    >)
        requires
            old(dma).wf(),
            old(self).channel() < old(dma).ch_count(),
        ensures
            final(self).channel() == old(self).channel(),
            final(dma).wf(),
            r == start_verdict(old(self).in_flight(), d.count),
            r is Err ==> *final(dma) == *old(dma) && *final(self) == *old(self),
            r is Ok ==> {
                &&& final(self).in_flight()
                &&& final(dma).channels@ == old(dma).channels@.update(
                    old(self).channel(),
                    started_regs(
                        old(dma).channels@[old(self).channel()].status_cleared(),
                        d.dir,
                        d.peri_addr,
                        d.mem_addr,
                        d.count as u16,
                        d.incr_mem,
                        d.size,
                    ),
                )
                &&& final(dma).routes@ == if old(dma).routing is Multiplexed {
                    old(dma).routes@.update(old(self).channel(), d.request)
                } else {
                    old(dma).routes@
                }
                &&& final(dma).routing == old(dma).routing
                &&& final(dma).stop_events == old(dma).stop_events
            },
    {
        if self.in_flight {
            return Err(Error::ChannelBusy);
        }
        if d.count > MAX_TRANSFER_COUNT {
            return Err(Error::CountTooLarge);
        }
        dma.reset_status(self.ch);
        dma.start_transfer(
            self.ch,
            d.request,
            d.dir,
            d.peri_addr,
            d.mem_addr,
            d.count,
            d.incr_mem,
            d.size,
        );
        self.in_flight = true;
        proof {
            assert(dma.channels@ =~= old(dma).channels@.update(
                old(self).channel(),
                started_regs(
                    old(dma).channels@[old(self).channel()].status_cleared(),
                    d.dir,
                    d.peri_addr,
                    d.mem_addr,
                    d.count as u16,
                    d.incr_mem,
                    d.size,
                ),
            ));
        }
        Ok(())
    }

    /// One-shot peripheral-to-memory transfer: configure, start, raise
    /// the guard. Await it through `wait_for_completion`.
    pub fn read(
        &mut self,
        dma: &mut Dma,
        request: Request,
        peri_addr: u32,
        mem_addr: u32,
        count: usize,
        size: Size,
    ) -> (r: Result<(), Error>)
        requires
            old(dma).wf(),
            old(self).channel() < old(dma).ch_count(),
        ensures
            final(self).channel() == old(self).channel(),
            final(dma).wf(),
            r == start_verdict(old(self).in_flight(), count),
            r is Err ==> *final(dma) == *old(dma) && *final(self) == *old(self),
            r is Ok ==> {
                &&& final(self).in_flight()
                &&& final(dma).channels@ == old(dma).channels@.update(
                    old(self).channel(),
                    started_regs(
                        old(dma).channels@[old(self).channel()].status_cleared(),
                        Dir::PeripheralToMemory,
                        peri_addr,
                        mem_addr,
                        count as u16,
                        true,
                        size,
                    ),
                )
                &&& final(dma).routes@ == if old(dma).routing is Multiplexed {
                    old(dma).routes@.update(old(self).channel(), request)
                } else {
                    old(dma).routes@
                }
                &&& final(dma).routing == old(dma).routing
                &&& final(dma).stop_events == old(dma).stop_events
            },
    {
        self.configure_and_start(
            dma,
            TransferDescriptor {
                request,
                dir: Dir::PeripheralToMemory,
                size,
                peri_addr,
                mem_addr,
                count,
                incr_mem: true,
            },
        )
    }

    /// One-shot memory-to-peripheral transfer: configure, start, raise
    /// the guard. Await it through `wait_for_completion`.
    pub fn write(
        &mut self,
        dma: &mut Dma,
        request: Request,
        mem_addr: u32,
        count: usize,
        peri_addr: u32,
        size: Size,
    ) -> (r: Result<(), Error>)
        requires
            old(dma).wf(),
            old(self).channel() < old(dma).ch_count(),
        ensures
            final(self).channel() == old(self).channel(),
            final(dma).wf(),
            r == start_verdict(old(self).in_flight(), count),
            r is Err ==> *final(dma) == *old(dma) && *final(self) == *old(self),
            r is Ok ==> {
                &&& final(self).in_flight()
                &&& final(dma).channels@ == old(dma).channels@.update(
                    old(self).channel(),
                    started_regs(
                        old(dma).channels@[old(self).channel()].status_cleared(),
                        Dir::MemoryToPeripheral,
                        peri_addr,
                        mem_addr,
                        count as u16,
                        true,
                        size,
                    ),
                )
                &&& final(dma).routes@ == if old(dma).routing is Multiplexed {
                    old(dma).routes@.update(old(self).channel(), request)
                } else {
                    old(dma).routes@
                }
                &&& final(dma).routing == old(dma).routing
                &&& final(dma).stop_events == old(dma).stop_events
            },
    {
        self.configure_and_start(
            dma,
            TransferDescriptor {
                request,
                dir: Dir::MemoryToPeripheral,
                size,
                peri_addr,
                mem_addr,
                count,
                incr_mem: true,
            },
        )
    }

    /// Polls the started transfer once on behalf of task `task`.
    ///
    /// The task is registered in the channel's slot first, then the
    /// status register is read: if the complete flag is set the channel
    /// is stopped — the guard's one stop for this transfer — and the
    /// transfer resolves `Ready`; otherwise nothing else changes and the
    /// interrupt bridge will wake the registered task. Polling again
    /// while pending is idempotent: no register side effect beyond the
    /// waiter re-registration.
    ///
    /// A set transfer-error flag is a fatal hardware condition, excluded
    /// here; the unverified rim must halt on it as the hardware's own
    /// policy demands.
    pub fn wait_for_completion(
        &mut self,
        dma: &mut Dma,
        table: &mut WakerTable,
        task: TaskId,
    ) -> (r: Poll)
        requires
            old(dma).wf(),
            old(self).channel() < old(dma).ch_count(),
            old(table)@.len() == old(dma).ch_count(),
            old(self).in_flight(),
            !old(dma).channels@[old(self).channel()].teif,
            old(dma).stop_events@[old(self).channel()] < u64::MAX,
        ensures
            final(self).channel() == old(self).channel(),
            final(dma).wf(),
            final(table)@ == old(table)@.update(old(self).channel(), Some(task)),
            old(dma).channels@[old(self).channel()].tcif ==> {
                &&& r == Poll::Ready
                &&& !final(self).in_flight()
                &&& final(dma).channels@ == old(dma).channels@.update(
                    old(self).channel(),
                    old(dma).channels@[old(self).channel()].cr_cleared(),
                )
                &&& final(dma).stop_events@ == old(dma).stop_events@.update(
                    old(self).channel(),
                    (old(dma).stop_events@[old(self).channel()] + 1) as u64,
                )
                &&& final(dma).routing == old(dma).routing
                &&& final(dma).routes == old(dma).routes
            },
            !old(dma).channels@[old(self).channel()].tcif ==> {
                &&& r == Poll::Pending
                &&& *final(self) == *old(self)
                &&& *final(dma) == *old(dma)
            },
    {
        table.register(self.ch, task);
        let c = dma.channels[self.ch];
        if c.tcif {
            dma.stop(self.ch);
            self.in_flight = false;
            Poll::Ready
        } else {
            Poll::Pending
        }
    }

    /// Releases an abandoned transfer: the cancellation path. The channel
    /// is stopped — hardware disabled and quiesced — before the guard is
    /// lowered, so the buffer can only return to the caller once the
    /// hardware can no longer touch it. Runs the stop routine exactly
    /// once for the started transfer: the guard is lowered here and a
    /// lowered guard cannot be released again.
    pub fn abandon(&mut self, dma: &mut Dma)
        requires
            old(dma).wf(),
            old(self).channel() < old(dma).ch_count(),
            old(self).in_flight(),
            old(dma).stop_events@[old(self).channel()] < u64::MAX,
        ensures
            final(self).channel() == old(self).channel(),
            !final(self).in_flight(),
            final(dma).wf(),
            final(dma).channels@ == old(dma).channels@.update(
                old(self).channel(),
                old(dma).channels@[old(self).channel()].cr_cleared(),
            ),
            final(dma).stop_events@ == old(dma).stop_events@.update(
                old(self).channel(),
                (old(dma).stop_events@[old(self).channel()] + 1) as u64,
            ),
            final(dma).routing == old(dma).routing,
            final(dma).routes == old(dma).routes,
    {
        dma.stop(self.ch);
        self.in_flight = false;
    }

    /// Starts a peripheral-to-memory transfer without the cancellation
    /// guard: the caller manages completion and must call `stop` before
    /// reusing the buffer. A channel with a guarded transfer outstanding
    /// is still rejected.
    pub fn start_read(
        &mut self,
        dma: &mut Dma,
        request: Request,
        peri_addr: u32,
        mem_addr: u32,
        count: usize,
        size: Size,
    ) -> (r: Result<(), Error>)
        requires
            old(dma).wf(),
            old(self).channel() < old(dma).ch_count(),
        ensures
            *final(self) == *old(self),
            final(dma).wf(),
            r == start_verdict(old(self).in_flight(), count),
            r is Err ==> *final(dma) == *old(dma),
            r is Ok ==> {
                &&& final(dma).channels@ == old(dma).channels@.update(
                    old(self).channel(),
                    started_regs(
                        old(dma).channels@[old(self).channel()].status_cleared(),
                        Dir::PeripheralToMemory,
                        peri_addr,
                        mem_addr,
                        count as u16,
                        true,
                        size,
                    ),
                )
                &&& final(dma).routes@ == if old(dma).routing is Multiplexed {
                    old(dma).routes@.update(old(self).channel(), request)
                } else {
                    old(dma).routes@
                }
                &&& final(dma).routing == old(dma).routing
                &&& final(dma).stop_events == old(dma).stop_events
            },
    {
        self.start_unguarded(dma, request, Dir::PeripheralToMemory, peri_addr, mem_addr, count, size)
    }

    /// Starts a memory-to-peripheral transfer without the cancellation
    /// guard: the caller manages completion and must call `stop` before
    /// reusing the buffer. A channel with a guarded transfer outstanding
    /// is still rejected.
    pub fn start_write(
        &mut self,
        dma: &mut Dma,
        request: Request,
        mem_addr: u32,
        count: usize,
        peri_addr: u32,
        size: Size,
    ) -> (r: Result<(), Error>)
        requires
            old(dma).wf(),
            old(self).channel() < old(dma).ch_count(),
        ensures
            *final(self) == *old(self),
            final(dma).wf(),
            r == start_verdict(old(self).in_flight(), count),
            r is Err ==> *final(dma) == *old(dma),
            r is Ok ==> {
                &&& final(dma).channels@ == old(dma).channels@.update(
                    old(self).channel(),
                    started_regs(
                        old(dma).channels@[old(self).channel()].status_cleared(),
                        Dir::MemoryToPeripheral,
                        peri_addr,
                        mem_addr,
                        count as u16,
                        true,
                        size,
                    ),
                )
                &&& final(dma).routes@ == if old(dma).routing is Multiplexed {
                    old(dma).routes@.update(old(self).channel(), request)
                } else {
                    old(dma).routes@
                }
                &&& final(dma).routing == old(dma).routing
                &&& final(dma).stop_events == old(dma).stop_events
            },
    {
        self.start_unguarded(dma, request, Dir::MemoryToPeripheral, peri_addr, mem_addr, count, size)
    }

    /// The shared unguarded start path: validate, clear status, program
    /// and enable; the guard stays down.
    fn start_unguarded(
        &mut self,
        dma: &mut Dma,
        request: Request,
        dir: Dir,
        peri_addr: u32,
        mem_addr: u32,
        count: usize,
        size: Size,
    ) -> (r: Result<(), Error>)
        requires
            old(dma).wf(),
            old(self).channel() < old(dma).ch_count(),
        ensures
            *final(self) == *old(self),
            final(dma).wf(),
            r == start_verdict(old(self).in_flight(), count),
            r is Err ==> *final(dma) == *old(dma),
            r is Ok ==> {
                &&& final(dma).channels@ == old(dma).channels@.update(
                    old(self).channel(),
                    started_regs(
                        old(dma).channels@[old(self).channel()].status_cleared(),
                        dir,
                        peri_addr,
                        mem_addr,
                        count as u16,
                        true,
                        size,
                    ),
                )
                &&& final(dma).routes@ == if old(dma).routing is Multiplexed {
                    old(dma).routes@.update(old(self).channel(), request)
                } else {
                    old(dma).routes@
                }
                &&& final(dma).routing == old(dma).routing
                &&& final(dma).stop_events == old(dma).stop_events
            },
    {
        if self.in_flight {
            return Err(Error::ChannelBusy);
        }
        if count > MAX_TRANSFER_COUNT {
            return Err(Error::CountTooLarge);
        }
        dma.reset_status(self.ch);
        dma.start_transfer(self.ch, request, dir, peri_addr, mem_addr, count, true, size);
        proof {
            assert(dma.channels@ =~= old(dma).channels@.update(
                old(self).channel(),
                started_regs(
                    old(dma).channels@[old(self).channel()].status_cleared(),
                    dir,
                    peri_addr,
                    mem_addr,
                    count as u16,
                    true,
                    size,
                ),
            ));
        }
        Ok(())
    }

    /// Deterministic teardown for caller-managed transfers: stops the
    /// channel and lowers the guard if one was up.
    pub fn stop(&mut self, dma: &mut Dma)
        requires
            old(dma).wf(),
            old(self).channel() < old(dma).ch_count(),
            old(dma).stop_events@[old(self).channel()] < u64::MAX,
        ensures
            final(self).channel() == old(self).channel(),
            !final(self).in_flight(),
            final(dma).wf(),
            final(dma).channels@ == old(dma).channels@.update(
                old(self).channel(),
                old(dma).channels@[old(self).channel()].cr_cleared(),
            ),
            final(dma).stop_events@ == old(dma).stop_events@.update(
                old(self).channel(),
                (old(dma).stop_events@[old(self).channel()] + 1) as u64,
            ),
            final(dma).routing == old(dma).routing,
            final(dma).routes == old(dma).routes,
    {
        dma.stop(self.ch);
        self.in_flight = false;
    }
}

impl Channel for ChannelHandle {
    open spec fn channel_id(&self) -> int {
        self.channel()
    }

    fn is_stopped(&self, dma: &Dma) -> (r: bool) {
        dma.is_stopped(self.ch)
    }

    fn remaining_transfers(&self, dma: &Dma) -> (r: u16) {
        dma.get_remaining_transfers(self.ch)
    }

    fn set_waker(&self, table: &mut WakerTable, task: TaskId) {
        table.register(self.ch, task);
    }
}

} // verus!
