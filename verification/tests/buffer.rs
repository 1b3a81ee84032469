use magma::vulkan::buffer::{check_copy, BufferError, BufferLayout, CopyProblem, WHOLE_SIZE};
use magma::vulkan::flags::BufferUsageFlags;

#[test]
fn copies_need_transfer_usages() {
    let src = BufferUsageFlags::transfer_src();
    let dst = BufferUsageFlags::transfer_dst();
    assert_eq!(check_copy(dst, src), Ok(()));
    assert_eq!(check_copy(src, src), Err(BufferError::InvalidCopy(CopyProblem::MissingTransferDst)));
    assert_eq!(check_copy(dst, dst), Err(BufferError::InvalidCopy(CopyProblem::MissingTransferSrc)));
}

#[test]
fn uniform_buffers_align_their_instances() {
    let uniform = BufferLayout::new(100, 3, BufferUsageFlags { bits: 0x12 }, 256);
    assert_eq!(uniform.size, 768);
    assert_eq!(uniform.capacity(), 3);
    assert_eq!(uniform.descriptor_range(), Some((0, WHOLE_SIZE)));
    let vertex = BufferLayout::new(100, 3, BufferUsageFlags::vertex_buffer(), 256);
    assert_eq!(vertex.size, 300);
    assert_eq!(vertex.descriptor_range(), None);
    let exact = BufferLayout::new(256, 2, BufferUsageFlags::uniform_buffer(), 256);
    assert_eq!(exact.size, 512);
}
