use urbrs::allocator::{AllocationLedger, AllocatorError};
use urbrs::buffer::{get_stride, Buffer, BufferError, BufferRelease, DescriptorRange, UniformBuffer};
use urbrs::mesh::{mesh_buffer_sizes, terrain_buffer_sizes, vertex_layout, MeshBufferSizes, FORMAT_R32G32B32_SFLOAT};

#[test]
fn write_with_wrong_length_is_rejected_and_changes_nothing() {
    let mut b = Buffer::new(16);
    b.allocate_full(7).unwrap();
    let data: [u32; 3] = [1, 2, 3];
    assert_eq!(b.update_mapped_data(&data), Err(BufferError::SizeMismatch));
    assert_eq!(b.allocation, Some(7));
    assert_eq!(b.size(), 16);
    let data: [u16; 8] = [0; 8];
    assert_eq!(b.update_mapped_data(&data), Ok(16));
}

#[test]
fn write_to_unallocated_buffer_is_rejected() {
    let b = Buffer::new(8);
    let data: [u32; 2] = [1, 2];
    assert_eq!(b.update_mapped_data(&data), Err(BufferError::Unallocated));
    let data: [u32; 3] = [1, 2, 3];
    assert_eq!(b.update_mapped_data(&data), Err(BufferError::SizeMismatch));
}

#[test]
fn second_allocation_is_refused() {
    let mut b = Buffer::new(8);
    assert_eq!(b.allocate_full(1), Ok(()));
    assert_eq!(b.allocate_full(2), Err(BufferError::AlreadyAllocated));
    assert_eq!(b.allocation, Some(1));
}

#[test]
fn release_frees_allocation_before_destroying_handle() {
    let mut b = Buffer::new(8);
    b.allocate_full(5).unwrap();
    assert_eq!(b.release(), vec![BufferRelease::FreeAllocation(5), BufferRelease::DestroyHandle]);
    assert_eq!(b.allocation, None);
    assert_eq!(b.release(), vec![BufferRelease::DestroyHandle]);
}

#[test]
fn stride_rounds_up_to_alignment() {
    assert_eq!(get_stride::<u8>(64, 256), 256);
    assert_eq!(get_stride::<u8>(256, 256), 256);
    assert_eq!(get_stride::<u8>(257, 256), 512);
    assert_eq!(get_stride::<u8>(0, 16), 0);
    assert_eq!(get_stride::<u8>(13, 1), 13);
    assert_eq!(get_stride::<u8>(13, 12), 24);
}

#[test]
fn uniform_buffer_places_elements_at_aligned_offsets() {
    let u = UniformBuffer::new(64, 3, 256).unwrap();
    assert_eq!(u.stride, 256);
    assert_eq!(u.buffer.size(), 768);
    assert_eq!(u.write(2), 512);
    assert_eq!(u.descriptor_info(1), DescriptorRange { offset: 256, range: 64 });
    assert!(matches!(UniformBuffer::new(64, usize::MAX, 256), Err(BufferError::TooLarge)));
    assert!(matches!(UniformBuffer::new(usize::MAX, 1, 256), Err(BufferError::TooLarge)));
}

#[test]
fn ledger_pairs_allocations_with_frees() {
    let mut l = AllocationLedger::new();
    assert!(l.is_balanced());
    let a = l.record_allocation().unwrap();
    let b = l.record_allocation().unwrap();
    assert_ne!(a, b);
    assert!(!l.is_balanced());
    assert_eq!(l.record_free(a), Ok(()));
    assert_eq!(l.record_free(a), Err(AllocatorError::UnknownAllocation));
    assert_eq!(l.record_free(b), Ok(()));
    assert!(l.is_balanced());
    assert_eq!(l.record_free(99), Err(AllocatorError::UnknownAllocation));
}

#[test]
fn mesh_buffers_hold_packed_vertices_and_indices() {
    assert_eq!(mesh_buffer_sizes(8, 36), Some(MeshBufferSizes { vertex_bytes: 192, index_bytes: 144 }));
    assert_eq!(mesh_buffer_sizes(usize::MAX, 1), None);
    let layout = vertex_layout();
    assert_eq!(layout.bindings.len(), 1);
    assert_eq!(layout.bindings[0].stride, 24);
    assert_eq!(layout.descs.len(), 2);
    assert_eq!(layout.descs[1].offset, 12);
    assert_eq!(layout.descs[1].location, 1);
    assert_eq!(layout.descs[0].format, FORMAT_R32G32B32_SFLOAT);
}

#[test]
fn terrain_buffers_cover_every_chunk() {
    assert_eq!(
        terrain_buffer_sizes(128, 16),
        Some(MeshBufferSizes { vertex_bytes: 100_663_296, index_bytes: 99_096_576 })
    );
    assert_eq!(terrain_buffer_sizes(2, 1), Some(MeshBufferSizes { vertex_bytes: 96, index_bytes: 24 }));
    assert_eq!(terrain_buffer_sizes(5, 0), Some(MeshBufferSizes { vertex_bytes: 0, index_bytes: 0 }));
    assert_eq!(terrain_buffer_sizes(0, 3), None);
    assert_eq!(terrain_buffer_sizes(usize::MAX, 2), None);
}
