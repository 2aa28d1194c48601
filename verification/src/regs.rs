use vstd::prelude::*;

verus! {

use crate::Request;

/// Direction of a transfer: whether data flows from a peripheral register
/// into memory or from memory into a peripheral register.
#[derive(Clone, Copy, Debug, PartialEq, Eq, Structural)]
pub enum Dir {
    PeripheralToMemory,
    MemoryToPeripheral,
}

/// Element width of a transfer, in bytes: one, two or four.
#[derive(Clone, Copy, Debug, PartialEq, Eq, Structural)]
pub enum Size {
    Bits8,
    Bits16,
    Bits32,
}

/// The per-channel registers of the DMA controller, as the narrow
/// register-access contract exposes them: the control bits, the two address
/// registers, the live element counter, and the two sticky status flags.
///
/// The hardware owns these values; the engine observes them and never keeps
/// a shadow copy. On a host this struct doubles as the recording mock that
/// the tests program and inspect.
#[derive(Clone, Copy, Debug, PartialEq, Eq, Structural)]
pub struct ChannelRegs {
    /// Channel enable bit.
    pub en: bool,
    /// Transfer-complete interrupt enable.
    pub tcie: bool,
    /// Transfer-error interrupt enable.
    pub teie: bool,
    /// Transfer direction.
    pub dir: Dir,
    /// Element width on both the memory and the peripheral side.
    pub size: Size,
    /// Memory-address auto-increment.
    pub minc: bool,
    /// Peripheral address register.
    pub par: u32,
    /// Memory address register.
    pub mar: u32,
    /// Remaining element counter; zero once a transfer ran to completion.
    pub ndtr: u16,
    /// Sticky transfer-complete flag.
    pub tcif: bool,
    /// Sticky transfer-error flag.
    pub teif: bool,
}

impl ChannelRegs {
    /// The power-on-reset value of a channel's registers.
    pub open spec fn reset_spec() -> ChannelRegs {
        ChannelRegs {
            en: false,
            tcie: false,
            teie: false,
            dir: Dir::PeripheralToMemory,
            size: Size::Bits8,
            minc: false,
            par: 0,
            mar: 0,
            ndtr: 0,
            tcif: false,
            teif: false,
        }
    }

    /// A channel after its control register was written back to the
    /// power-on-reset value: the channel and both interrupt signals are
    /// disabled in one atomic write. Addresses, the remaining counter and
    /// the sticky status flags live in other registers and keep their
    /// values.
    pub open spec fn cr_cleared(self) -> ChannelRegs {
        ChannelRegs {
            en: false,
            tcie: false,
            teie: false,
            dir: Dir::PeripheralToMemory,
            size: Size::Bits8,
            minc: false,
            ..self
        }
    }

    /// A channel after its sticky status flags were cleared.
    pub open spec fn status_cleared(self) -> ChannelRegs {
        ChannelRegs { tcif: false, teif: false, ..self }
    }

    /// A channel whose transfer the hardware ran to its end: the counter
    /// reached zero and the sticky complete flag went up.
    pub open spec fn completed(self) -> ChannelRegs {
        ChannelRegs { ndtr: 0, tcif: true, ..self }
    }
}

/// Which request-routing scheme a hardware family uses: a fixed one-to-one
/// wiring from request lines to channels, or a configurable request
/// multiplexer that must be programmed once per transfer start.
#[derive(Clone, Copy, Debug, PartialEq, Eq, Structural)]
pub enum Routing {
    Fixed,
    Multiplexed,
}

/// The DMA controller complex: the channels of every controller instance
/// in one flat table indexed by the stable global channel identity, under
/// one family-dependent request-routing scheme. Which controller a
/// channel belongs to only matters for register addressing, which the
/// narrow register-access contract hides; everything above it works on
/// the flat table.
///
/// `routes` records, per channel, the request line last routed to it; on a
/// `Fixed` family it never changes. `stop_events` counts, per channel, how
/// many times the stop routine ran; real hardware keeps no such ledger, but
/// the recording lets a caller hold the engine to its stop-exactly-once
/// obligation.
#[derive(Clone, Debug, PartialEq, Eq)]
pub struct Dma {
    pub routing: Routing,
    pub channels: Vec<ChannelRegs>,
    pub routes: Vec<Request>,
    pub stop_events: Vec<u64>,
}

impl Dma {
    /// The channel tables all have one entry per physical channel.
    pub open spec fn wf(self) -> bool {
        &&& self.routes@.len() == self.channels@.len()
        &&& self.stop_events@.len() == self.channels@.len()
    }

    /// Number of channels of this controller.
    pub open spec fn ch_count(self) -> nat {
        self.channels@.len()
    }

    /// A controller fresh out of reset: every channel register at its
    /// power-on value, no routes programmed, no stop recorded.
    pub fn new(routing: Routing, ch_count: usize) -> (r: Dma)
        ensures
            r.wf(),
            r.routing == routing,
            r.ch_count() == ch_count,
            forall|i: int| 0 <= i < ch_count ==> r.channels@[i] == ChannelRegs::reset_spec(),
            forall|i: int| 0 <= i < ch_count ==> r.routes@[i] == 0u8,
            forall|i: int| 0 <= i < ch_count ==> r.stop_events@[i] == 0u64,
    {
        let mut channels: Vec<ChannelRegs> = Vec::new();
        let mut routes: Vec<Request> = Vec::new();
        let mut stop_events: Vec<u64> = Vec::new();
        let mut i: usize = 0;
        while i < ch_count
            invariant
                i <= ch_count,
                channels@.len() == i,
                routes@.len() == i,
                stop_events@.len() == i,
                forall|j: int| 0 <= j < i ==> channels@[j] == ChannelRegs::reset_spec(),
                forall|j: int| 0 <= j < i ==> routes@[j] == 0u8,
                forall|j: int| 0 <= j < i ==> stop_events@[j] == 0u64,
            decreases ch_count - i,
        {
            channels.push(ChannelRegs {
                en: false,
                tcie: false,
                teie: false,
                dir: Dir::PeripheralToMemory,
                size: Size::Bits8,
                minc: false,
                par: 0,
                mar: 0,
                ndtr: 0,
                tcif: false,
                teif: false,
            });
            routes.push(0);
            stop_events.push(0);
            i = i + 1;
        }
        Dma { routing, channels, routes, stop_events }
    }

    /// One transfer step performed by the hardware itself: one element
    /// moved, the counter decremented, and the complete flag raised when
    /// the counter reaches zero. Only a simulation calls this; on real
    /// hardware the controller steps on its own.
    pub fn hw_step(&mut self, ch: usize)
        requires
            ch < old(self).ch_count(),
            old(self).channels@[ch as int].en,
            old(self).channels@[ch as int].ndtr > 0,
        ensures
            final(self).channels@ == old(self).channels@.update(
                ch as int,
                ChannelRegs {
                    ndtr: (old(self).channels@[ch as int].ndtr - 1) as u16,
                    tcif: old(self).channels@[ch as int].tcif
                        || old(self).channels@[ch as int].ndtr == 1,
                    ..old(self).channels@[ch as int]
                },
            ),
            final(self).routing == old(self).routing,
            final(self).routes == old(self).routes,
            final(self).stop_events == old(self).stop_events,
    {
        let mut c = self.channels[ch];
        c.ndtr = c.ndtr - 1;
        if c.ndtr == 0 {
            c.tcif = true;
        }
        self.channels[ch] = c;
    }

    /// The hardware running an enabled transfer to its end: the counter
    /// reaches zero and the sticky complete flag is raised. Only a
    /// simulation calls this.
    pub fn hw_complete(&mut self, ch: usize)
        requires
            ch < old(self).ch_count(),
            old(self).channels@[ch as int].en,
        ensures
            final(self).channels@ == old(self).channels@.update(
                ch as int,
                old(self).channels@[ch as int].completed(),
            ),
            final(self).routing == old(self).routing,
            final(self).routes == old(self).routes,
            final(self).stop_events == old(self).stop_events,
    {
        let mut c = self.channels[ch];
        c.ndtr = 0;
        c.tcif = true;
        self.channels[ch] = c;
    }

    /// The hardware reporting a bus fault on an enabled transfer: the
    /// sticky error flag is raised. Only a simulation calls this.
    pub fn hw_error(&mut self, ch: usize)
        requires
            ch < old(self).ch_count(),
            old(self).channels@[ch as int].en,
        ensures
            final(self).channels@ == old(self).channels@.update(
                ch as int,
                ChannelRegs { teif: true, ..old(self).channels@[ch as int] },
            ),
            final(self).routing == old(self).routing,
            final(self).routes == old(self).routes,
            final(self).stop_events == old(self).stop_events,
    {
        let mut c = self.channels[ch];
        c.teif = true;
        self.channels[ch] = c;
    }
}

} // verus!
