//! The command buffers a command pool has allocated.
use vstd::prelude::*;
use crate::vulkan::command_buffer::{CommandBuffer, CommandBufferState};

verus! {

/// The handles of a list of command buffers.
pub open spec fn buffer_handles(buffers: Seq<CommandBuffer>) -> Seq<u64> {
    buffers.map_values(|b: CommandBuffer| b.handle)
}

/// The command buffers allocated from a command pool, in allocation order.
pub struct CommandPool {
    pub buffers: Vec<CommandBuffer>,
}

impl CommandPool {
    /// A pool with no command buffers.
    pub fn new() -> (p: CommandPool)
        ensures
            p.buffers@ == Seq::<CommandBuffer>::empty(),
    {
        CommandPool { buffers: Vec::new() }
    }

    /// Returns the command buffers allocated from this pool
    pub fn buffers(&self) -> (r: &[CommandBuffer])
        ensures
            r@ == self.buffers@,
    {
        self.buffers.as_slice()
    }

    /// Returns the command buffers allocated from this pool, for changing
    pub fn buffers_mut(&mut self) -> (r: &mut Vec<CommandBuffer>)
        ensures
            *r == old(self).buffers,
            final(self).buffers == *final(r),
    {
        &mut self.buffers
    }

    /// Records newly allocated command buffers, each in the initial state,
    /// after those allocated before.
    pub fn add_allocated(&mut self, handles: &Vec<u64>)
        ensures
            final(self).buffers.len() == old(self).buffers.len() + handles.len(),
            final(self).buffers@.take(old(self).buffers.len() as int) == old(self).buffers@,
            forall|i: int| 0 <= i < handles.len() ==> #[trigger] final(self).buffers@[old(self).buffers.len() + i]
                == CommandBuffer::new_spec(handles@[i]),
    {
        let ghost before = self.buffers@;
        let mut i: usize = 0;
        while i < handles.len()
            invariant
                i <= handles.len(),
                self.buffers.len() == before.len() + i,
                self.buffers@.take(before.len() as int) == before,
                forall|k: int| 0 <= k < i ==> #[trigger] self.buffers@[before.len() + k] == CommandBuffer::new_spec(handles@[k]),
            decreases handles.len() - i,
        {
            let b = CommandBuffer::new(handles[i]);
            self.buffers.push(b);
            assert(self.buffers@.take(before.len() as int) =~= before);
            i = i + 1;
        }
    }

    /// Frees every command buffer of the pool: returns their handles, in
    /// allocation order, for the Vulkan call, and leaves the pool empty.
    pub fn free_buffers(&mut self) -> (handles: Vec<u64>)
        ensures
            handles@ == buffer_handles(old(self).buffers@),
            final(self).buffers@ == Seq::<CommandBuffer>::empty(),
    {
        let mut handles: Vec<u64> = Vec::new();
        let mut i: usize = 0;
        while i < self.buffers.len()
            invariant
                i <= self.buffers.len(),
                self.buffers@ == old(self).buffers@,
                handles@ == buffer_handles(self.buffers@).take(i as int),
            decreases self.buffers.len() - i,
        {
            handles.push(self.buffers[i].handle);
            assert(buffer_handles(self.buffers@).take(i + 1) == buffer_handles(self.buffers@).take(i as int).push(
                self.buffers@[i as int].handle,
            ));
            i = i + 1;
        }
        assert(buffer_handles(self.buffers@).take(i as int) == buffer_handles(self.buffers@));
        self.buffers.clear();
        handles
    }
}

impl CommandBuffer {
    /// A new command buffer in the initial state, as [CommandBuffer::new] makes it.
    pub open spec fn new_spec(handle: u64) -> CommandBuffer {
        CommandBuffer { state: CommandBufferState::Initial, started_render_pass: false, current_pipeline: None, handle }
    }
}

} // verus!
