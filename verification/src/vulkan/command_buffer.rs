//! The lifecycle of a command buffer.
//!
//! A command buffer is recorded between `begin` and `end`, may hold at most
//! one render pass at a time, and cannot end while a render pass is open.
//! Each step is checked here; the Vulkan call between the check and the
//! state change is made by the caller, which hands its outcome back.
use vstd::prelude::*;
use crate::vulkan::error::VulkanError;
use crate::vulkan::flags::{bits_contain, BufferUsageFlags};

verus! {

/// The lifecycle stage a command buffer is in
#[derive(Clone, Copy, Debug, PartialEq, Eq, Structural)]
pub enum CommandBufferState {
    /// Just allocated, or reset
    Initial,
    /// `begin()` was called on the command buffer
    Recording,
    /// Recorded, and can be submitted
    Executable,
    /// Submitted to a queue and awaiting execution
    Pending,
    /// A command set the command buffer to invalid
    Invalid,
}

impl CommandBufferState {
    /// The name of the state.
    pub fn name(&self) -> (s: &'static str)
        ensures
            s@ == state_name(*self),
    {
        match self {
            CommandBufferState::Initial => "Initial",
            CommandBufferState::Recording => "Recording",
            CommandBufferState::Executable => "Executable",
            CommandBufferState::Pending => "Pending",
            CommandBufferState::Invalid => "Invalid",
        }
    }
}

/// The name of a state.
pub open spec fn state_name(s: CommandBufferState) -> Seq<char> {
    match s {
        CommandBufferState::Initial => "Initial"@,
        CommandBufferState::Recording => "Recording"@,
        CommandBufferState::Executable => "Executable"@,
        CommandBufferState::Pending => "Pending"@,
        CommandBufferState::Invalid => "Invalid"@,
    }
}

/// The level of a command buffer
#[derive(Clone, Copy, Debug, PartialEq, Eq, Structural)]
pub enum CommandBufferLevel {
    /// Can execute secondary command buffers and be submitted to a queue
    Primary,
    /// Can be executed by primary command buffers only
    Secondary,
}

impl CommandBufferLevel {
    /// The raw `VkCommandBufferLevel`.
    pub fn to_raw(self) -> (r: i32)
        ensures
            r == (match self {
                CommandBufferLevel::Primary => 0i32,
                CommandBufferLevel::Secondary => 1i32,
            }),
    {
        match self {
            CommandBufferLevel::Primary => 0,
            CommandBufferLevel::Secondary => 1,
        }
    }
}

/// A command whose start and end are tracked
#[derive(Clone, Copy, Debug, PartialEq, Eq, Structural)]
pub enum TrackedCommand {
    RenderPass,
}

/// Errors of command buffer use
#[derive(Clone, Copy, Debug, PartialEq, Eq, Structural)]
pub enum CommandBufferError {
    /// The command buffer is in an incorrect state, it should be in this one
    IncorrectState(CommandBufferState),
    /// A command that was started was never ended before recording finished
    UnfinishedCommand(TrackedCommand),
    /// A command of this kind is already started
    CommandAlreadyStarted(TrackedCommand),
    /// The Vulkan call failed
    DeviceError(VulkanError),
}

/// Whether recording may begin from a state.
pub open spec fn can_begin(s: CommandBufferState) -> bool {
    s == CommandBufferState::Initial || s == CommandBufferState::Invalid || s == CommandBufferState::Executable
}

/// The tracked state of a command buffer.
#[derive(Clone, Copy, Debug, PartialEq, Eq, Structural)]
pub struct CommandBuffer {
    /// Which lifecycle stage the command buffer is in
    pub state: CommandBufferState,
    /// Whether a render pass was started and not ended
    pub started_render_pass: bool,
    /// Raw handle of the graphics pipeline most recently bound
    pub current_pipeline: Option<u64>,
    /// Raw handle of the Vulkan command buffer
    pub handle: u64,
}

impl CommandBuffer {
    /// A new command buffer, in the initial state.
    pub fn new(handle: u64) -> (c: CommandBuffer)
        ensures
            c == (CommandBuffer { state: CommandBufferState::Initial, started_render_pass: false, current_pipeline: None, handle }),
    {
        CommandBuffer { state: CommandBufferState::Initial, started_render_pass: false, current_pipeline: None, handle }
    }

    /// Whether two command buffers are the same Vulkan command buffer.
    pub fn same_buffer(&self, other: &CommandBuffer) -> (r: bool)
        ensures
            r == (self.handle == other.handle),
    {
        self.handle == other.handle
    }

    /// The raw handle of the pipeline most recently bound.
    pub fn currently_bound_pipeline(&self) -> (r: Option<u64>)
        ensures
            r == self.current_pipeline,
    {
        self.current_pipeline
    }

    /// Checks that recording may begin: the command buffer must be initial,
    /// invalid or executable.
    pub fn begin_check(&self) -> (r: Result<(), CommandBufferError>)
        ensures
            can_begin(self.state) ==> r is Ok,
            !can_begin(self.state) ==> r == Err::<(), CommandBufferError>(
                CommandBufferError::IncorrectState(CommandBufferState::Initial),
            ),
    {
        if !(self.state == CommandBufferState::Initial || self.state == CommandBufferState::Invalid
            || self.state == CommandBufferState::Executable) {
            return Err(CommandBufferError::IncorrectState(CommandBufferState::Initial));
        }
        Ok(())
    }

    /// Begins recording, given the outcome of the Vulkan call to begin it
    /// (made only where the state allows): a command buffer that is not
    /// initial, invalid or executable gives
    /// [CommandBufferError::IncorrectState] and is unchanged; otherwise on
    /// success it is recording, and a failure is returned and changes nothing.
    pub fn begin(&mut self, device_result: Result<(), VulkanError>) -> (r: Result<(), CommandBufferError>)
        ensures
            !can_begin(old(self).state) ==> r == Err::<(), CommandBufferError>(
                CommandBufferError::IncorrectState(CommandBufferState::Initial),
            ) && *final(self) == *old(self),
            can_begin(old(self).state) ==> match device_result {
                Ok(()) => r is Ok && *final(self) == (CommandBuffer { state: CommandBufferState::Recording, ..*old(self) }),
                Err(e) => r == Err::<(), CommandBufferError>(CommandBufferError::DeviceError(e)) && *final(self) == *old(self),
            },
    {
        self.begin_check()?;
        match device_result {
            Err(e) => Err(CommandBufferError::DeviceError(e)),
            Ok(()) => {
                self.state = CommandBufferState::Recording;
                Ok(())
            },
        }
    }

    /// Checks that recording may finish: the command buffer must be recording
    /// and hold no open render pass.
    pub fn end_check(&self) -> (r: Result<(), CommandBufferError>)
        ensures
            self.state != CommandBufferState::Recording ==> r == Err::<(), CommandBufferError>(
                CommandBufferError::IncorrectState(CommandBufferState::Recording),
            ),
            self.state == CommandBufferState::Recording && self.started_render_pass ==> r == Err::<(), CommandBufferError>(
                CommandBufferError::UnfinishedCommand(TrackedCommand::RenderPass),
            ),
            self.state == CommandBufferState::Recording && !self.started_render_pass ==> r is Ok,
    {
        if self.state != CommandBufferState::Recording {
            return Err(CommandBufferError::IncorrectState(CommandBufferState::Recording));
        }
        if self.started_render_pass {
            return Err(CommandBufferError::UnfinishedCommand(TrackedCommand::RenderPass));
        }
        Ok(())
    }

    /// Finishes recording, given the outcome of the Vulkan call to end it
    /// (made only where the state allows): a command buffer that is not
    /// recording gives [CommandBufferError::IncorrectState], one with an open
    /// render pass [CommandBufferError::UnfinishedCommand], both leaving it
    /// unchanged; otherwise on success it is executable, and a failure is
    /// returned and changes nothing.
    pub fn end(&mut self, device_result: Result<(), VulkanError>) -> (r: Result<(), CommandBufferError>)
        ensures
            old(self).state != CommandBufferState::Recording ==> r == Err::<(), CommandBufferError>(
                CommandBufferError::IncorrectState(CommandBufferState::Recording),
            ) && *final(self) == *old(self),
            old(self).state == CommandBufferState::Recording && old(self).started_render_pass ==> r == Err::<(), CommandBufferError>(
                CommandBufferError::UnfinishedCommand(TrackedCommand::RenderPass),
            ) && *final(self) == *old(self),
            old(self).state == CommandBufferState::Recording && !old(self).started_render_pass ==> match device_result {
                Ok(()) => r is Ok && *final(self) == (CommandBuffer { state: CommandBufferState::Executable, ..*old(self) }),
                Err(e) => r == Err::<(), CommandBufferError>(CommandBufferError::DeviceError(e)) && *final(self) == *old(self),
            },
    {
        self.end_check()?;
        match device_result {
            Err(e) => Err(CommandBufferError::DeviceError(e)),
            Ok(()) => {
                self.state = CommandBufferState::Executable;
                Ok(())
            },
        }
    }

    /// Checks that a recording-only command (setting the viewport or the
    /// scissor) may be recorded.
    pub fn recording_check(&self) -> (r: Result<(), CommandBufferError>)
        ensures
            self.state == CommandBufferState::Recording ==> r is Ok,
            self.state != CommandBufferState::Recording ==> r == Err::<(), CommandBufferError>(
                CommandBufferError::IncorrectState(CommandBufferState::Recording),
            ),
    {
        if self.state != CommandBufferState::Recording {
            return Err(CommandBufferError::IncorrectState(CommandBufferState::Recording));
        }
        Ok(())
    }

    /// Checks that a render pass may begin: none may be open already.
    pub fn begin_render_pass_check(&self) -> (r: Result<(), CommandBufferError>)
        ensures
            self.started_render_pass ==> r == Err::<(), CommandBufferError>(
                CommandBufferError::CommandAlreadyStarted(TrackedCommand::RenderPass),
            ),
            !self.started_render_pass ==> r is Ok,
    {
        if self.started_render_pass {
            return Err(CommandBufferError::CommandAlreadyStarted(TrackedCommand::RenderPass));
        }
        Ok(())
    }

    /// Records that a render pass began.
    pub fn render_pass_begun(&mut self)
        requires
            !old(self).started_render_pass,
        ensures
            *final(self) == (CommandBuffer { started_render_pass: true, ..*old(self) }),
    {
        self.started_render_pass = true;
    }

    /// Ends the open render pass, if any; returns whether one was open (and
    /// so whether the Vulkan call to end it is to be made).
    pub fn end_render_pass(&mut self) -> (was_open: bool)
        ensures
            was_open == old(self).started_render_pass,
            *final(self) == (CommandBuffer { started_render_pass: false, ..*old(self) }),
    {
        if self.started_render_pass {
            self.started_render_pass = false;
            true
        } else {
            false
        }
    }

    /// Records that a graphics pipeline was bound.
    pub fn bind_pipeline(&mut self, pipeline: u64)
        ensures
            *final(self) == (CommandBuffer { current_pipeline: Some(pipeline), ..*old(self) }),
    {
        self.current_pipeline = Some(pipeline);
    }
}

/// Beginning and then ending a render pass leaves the command buffer as it
/// was before the render pass began.
pub proof fn lemma_render_pass_round_trip(before: CommandBuffer, begun: CommandBuffer, ended: CommandBuffer)
    requires
        !before.started_render_pass,
        begun == (CommandBuffer { started_render_pass: true, ..before }),
        ended == (CommandBuffer { started_render_pass: false, ..begun }),
    ensures
        ended == before,
{
}

/// Recording that begins and ends successfully, with no render pass left
/// open, leaves the command buffer executable and otherwise as it was, and
/// recording may begin again from there.
pub proof fn lemma_recording_cycle(before: CommandBuffer, recording: CommandBuffer, done: CommandBuffer)
    requires
        can_begin(before.state),
        !before.started_render_pass,
        recording == (CommandBuffer { state: CommandBufferState::Recording, ..before }),
        done == (CommandBuffer { state: CommandBufferState::Executable, ..recording }),
    ensures
        done == (CommandBuffer { state: CommandBufferState::Executable, ..before }),
        recording.state == CommandBufferState::Recording && !recording.started_render_pass,
        can_begin(done.state),
{
}

/// Whether a buffer with these usages may be bound as a vertex buffer.
pub fn can_bind_vertex_buffer(usage: BufferUsageFlags) -> (r: bool)
    ensures
        r == bits_contain(usage.bits, 0x80),
{
    usage.contains(BufferUsageFlags::vertex_buffer())
}

/// Whether a buffer with these usages may be bound as an index buffer.
pub fn can_bind_index_buffer(usage: BufferUsageFlags) -> (r: bool)
    ensures
        r == bits_contain(usage.bits, 0x40),
{
    usage.contains(BufferUsageFlags::index_buffer())
}

} // verus!
