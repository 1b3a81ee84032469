use magma::vulkan::command_buffer::{
    can_bind_index_buffer, can_bind_vertex_buffer, CommandBuffer, CommandBufferError, CommandBufferLevel,
    CommandBufferState, TrackedCommand,
};
use magma::vulkan::command_pool::CommandPool;
use magma::vulkan::error::VulkanError;
use magma::vulkan::flags::BufferUsageFlags;

#[test]
fn state_names_and_levels() {
    assert_eq!(CommandBufferState::Initial.name(), "Initial");
    assert_eq!(CommandBufferState::Recording.name(), "Recording");
    assert_eq!(CommandBufferState::Executable.name(), "Executable");
    assert_eq!(CommandBufferState::Pending.name(), "Pending");
    assert_eq!(CommandBufferState::Invalid.name(), "Invalid");
    assert_eq!(CommandBufferLevel::Primary.to_raw(), 0);
    assert_eq!(CommandBufferLevel::Secondary.to_raw(), 1);
}

#[test]
fn recording_lifecycle() {
    let mut cb = CommandBuffer::new(42);
    assert_eq!(cb.state, CommandBufferState::Initial);
    assert_eq!(cb.end_check(), Err(CommandBufferError::IncorrectState(CommandBufferState::Recording)));
    assert_eq!(cb.recording_check(), Err(CommandBufferError::IncorrectState(CommandBufferState::Recording)));
    assert_eq!(cb.begin_check(), Ok(()));
    assert_eq!(cb.begin(Ok(())), Ok(()));
    assert_eq!(cb.state, CommandBufferState::Recording);
    assert_eq!(cb.begin_check(), Err(CommandBufferError::IncorrectState(CommandBufferState::Initial)));
    assert_eq!(cb.recording_check(), Ok(()));
    assert_eq!(cb.end(Ok(())), Ok(()));
    assert_eq!(cb.state, CommandBufferState::Executable);
    assert_eq!(cb.begin_check(), Ok(()));
}

#[test]
fn failed_vulkan_calls_change_nothing() {
    let mut cb = CommandBuffer::new(1);
    assert_eq!(cb.begin(Err(VulkanError::OutOfDeviceMemory)), Err(CommandBufferError::DeviceError(VulkanError::OutOfDeviceMemory)));
    assert_eq!(cb, CommandBuffer::new(1));
    cb.begin(Ok(())).unwrap();
    assert_eq!(cb.end(Err(VulkanError::OutOfHostMemory)), Err(CommandBufferError::DeviceError(VulkanError::OutOfHostMemory)));
    assert_eq!(cb.state, CommandBufferState::Recording);
}

#[test]
fn render_pass_must_be_closed_before_ending() {
    let mut cb = CommandBuffer::new(7);
    cb.begin(Ok(())).unwrap();
    assert_eq!(cb.begin_render_pass_check(), Ok(()));
    cb.render_pass_begun();
    assert_eq!(cb.begin_render_pass_check(), Err(CommandBufferError::CommandAlreadyStarted(TrackedCommand::RenderPass)));
    assert_eq!(cb.end_check(), Err(CommandBufferError::UnfinishedCommand(TrackedCommand::RenderPass)));
    assert!(cb.end_render_pass());
    assert!(!cb.end_render_pass());
    assert_eq!(cb.end_check(), Ok(()));
}

#[test]
fn pipelines_and_identity() {
    let mut cb = CommandBuffer::new(7);
    assert_eq!(cb.currently_bound_pipeline(), None);
    cb.bind_pipeline(99);
    assert_eq!(cb.currently_bound_pipeline(), Some(99));
    assert!(cb.same_buffer(&CommandBuffer::new(7)));
    assert!(!cb.same_buffer(&CommandBuffer::new(8)));
}

#[test]
fn buffer_binding_needs_the_usage() {
    assert!(can_bind_vertex_buffer(BufferUsageFlags { bits: 0x82 }));
    assert!(!can_bind_vertex_buffer(BufferUsageFlags { bits: 0x40 }));
    assert!(can_bind_index_buffer(BufferUsageFlags { bits: 0x40 }));
    assert!(!can_bind_index_buffer(BufferUsageFlags { bits: 0x80 }));
}

#[test]
fn pool_allocates_and_frees_in_order() {
    let mut pool = CommandPool::new();
    assert!(pool.buffers().is_empty());
    pool.add_allocated(&vec![3, 4]);
    pool.add_allocated(&vec![5]);
    assert_eq!(pool.buffers().len(), 3);
    assert_eq!(pool.buffers()[2], CommandBuffer::new(5));
    pool.buffers_mut()[0].bind_pipeline(1);
    assert_eq!(pool.buffers()[0].current_pipeline, Some(1));
    assert_eq!(pool.free_buffers(), vec![3, 4, 5]);
    assert!(pool.buffers().is_empty());
}
