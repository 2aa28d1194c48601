use vstd::prelude::*;

verus! {

/// Token standing for one suspended task: the notification slots store
/// tokens, and whoever drives the engine maps each token back to the
/// task it names when a wake is delivered.
pub type TaskId = u64;

/// The stable identity of one physical channel across all controller
/// instances: controllers are numbered, each contributes the same number
/// of channels, and the flat channel tables are indexed by this value.
/// Fixed at boot, never reallocated.
pub fn global_channel_index(
    controller_ordinal: usize,
    channels_per_controller: usize,
    channel_ordinal: usize,
) -> (r: usize)
    requires
        channel_ordinal < channels_per_controller,
        controller_ordinal * channels_per_controller + channel_ordinal <= usize::MAX,
    ensures
        r == controller_ordinal * channels_per_controller + channel_ordinal,
{
    proof {
        assert(controller_ordinal * channels_per_controller
            <= controller_ordinal * channels_per_controller + channel_ordinal);
    }
    controller_ordinal * channels_per_controller + channel_ordinal
}

/// The process-wide channel state table: one notification slot per
/// physical channel, holding at most one pending waiting-task token.
///
/// A channel is a single-owner resource, so each slot is overwritten, not
/// queued, on registration: the latest registrant wins. It is built once
/// at boot, before interrupts are enabled, and lives for the process.
pub struct WakerTable {
    slots: Vec<Option<TaskId>>,
}

impl View for WakerTable {
    type V = Seq<Option<TaskId>>;

    closed spec fn view(&self) -> Seq<Option<TaskId>> {
        self.slots@
    }
}

impl WakerTable {
    /// A table with one empty slot per channel.
    pub fn new(ch_count: usize) -> (r: WakerTable)
        ensures
            r@.len() == ch_count,
            forall|i: int| 0 <= i < ch_count ==> r@[i] is None,
    {
        let mut slots: Vec<Option<TaskId>> = Vec::new();
        let mut i: usize = 0;
        while i < ch_count
            invariant
                i <= ch_count,
                slots@.len() == i,
                forall|j: int| 0 <= j < i ==> slots@[j] is None,
            decreases ch_count - i,
        {
            slots.push(None);
            i = i + 1;
        }
        WakerTable { slots }
    }

    /// Stores `task` in the channel's slot, overwriting any prior
    /// registrant.
    pub fn register(&mut self, ch: usize, task: TaskId)
        requires
            ch < old(self)@.len(),
        ensures
            final(self)@ == old(self)@.update(ch as int, Some(task)),
    {
        self.slots[ch] = Some(task);
    }

    /// Takes whatever token currently occupies the channel's slot; the
    /// caller resumes the task it names. Returns `None` when nobody is
    /// registered, which legitimately happens if a channel fired for a
    /// completion nobody is awaiting.
    pub fn wake(&mut self, ch: usize) -> (r: Option<TaskId>)
        requires
            ch < old(self)@.len(),
        ensures
            r == old(self)@[ch as int],
            final(self)@ == old(self)@.update(ch as int, None::<TaskId>),
    {
        let r = self.slots[ch];
        self.slots[ch] = None;
        r
    }

    /// The token currently registered for the channel, if any.
    pub fn registered(&self, ch: usize) -> (r: Option<TaskId>)
        requires
            ch < self@.len(),
        ensures
            r == self@[ch as int],
    {
        self.slots[ch]
    }
}

} // verus!
