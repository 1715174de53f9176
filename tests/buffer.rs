use gamekit::buffer::{buffer_specs, storage_buffer_spec, upload_region, BufferType, BufferUsage, CopyRegion, StagedBuffer};
use gamekit::device::DeviceMemory;
use gamekit::error::ErrorKind;
use gamekit::uniform::{aligned_size, PushConstants, Uniform};

#[test]
fn dynamic_uniform_offsets_are_aligned() {
    let mut u = Uniform::<[u8; 20]>::new(1, 16, 4).unwrap();
    assert!(u.is_dynamic());
    assert_eq!(u.aligned_data_size(), 32);
    assert_eq!(u.buffer_size(), 32 * 5);
    assert_eq!(u.buffer_type(), BufferType::DYNAMIC_UNIFORM);
    for i in 0..5usize {
        u.set_array_index(i);
        assert_eq!(u.offset(), i * 32);
        assert_eq!(u.offset() % 16, 0);
    }
    assert_eq!(u.set_array_index(1), 4);
    assert_eq!(u.update_region(), CopyRegion { src_offset: 0, dst_offset: 32, size: 20 });
}

#[test]
fn exact_multiple_element_is_not_padded() {
    let u = Uniform::<[u64; 8]>::new(0, 64, 2).unwrap();
    assert_eq!(u.aligned_data_size(), 64);
    assert_eq!(u.buffer_size(), 192);
}

#[test]
fn zero_extra_elements_gives_plain_uniform() {
    let mut u = Uniform::<[u8; 24]>::new(2, 256, 0).unwrap();
    assert!(!u.is_dynamic());
    assert_eq!(u.buffer_size(), 24);
    assert_eq!(u.buffer_type(), BufferType::UNIFORM);
    assert_eq!(u.set_array_index(5), 0);
    assert_eq!(u.offset(), 0);
    assert_eq!(u.binding(), 2);
    assert!(!u.uniform_binding().dynamic);
}

#[test]
fn uniform_with_zero_alignment_fails() {
    let r = Uniform::<[u8; 8]>::new(0, 0, 1);
    assert_eq!(r.err().unwrap().kind(), ErrorKind::GenericGpu);
}

#[test]
fn uniform_too_large_fails() {
    let r = Uniform::<[u8; 8]>::new(0, 8, usize::MAX);
    assert!(r.is_err());
}

#[test]
fn aligned_size_rounds_up() {
    assert_eq!(aligned_size(20, 16), Some(32));
    assert_eq!(aligned_size(32, 16), Some(32));
    assert_eq!(aligned_size(0, 16), Some(0));
    assert_eq!(aligned_size(usize::MAX, 16), None);
}

#[test]
fn push_constants_range_covers_type() {
    let p = PushConstants::<[u32; 4]>::new().unwrap();
    assert_eq!(p.size(), 16);
    let r = p.range();
    assert_eq!(r.offset, 0);
    assert_eq!(r.size, 16);
}

#[test]
fn staged_write_round_trips_whole_buffer() {
    let mut b = StagedBuffer::new(BufferType::VERTEX, 8);
    let bytes: Vec<u8> = vec![1, 2, 3, 4, 5, 6, 7, 8];
    b.write(&bytes, 0).unwrap();
    assert_eq!(b.read_back(0, 8).unwrap(), bytes);
}

#[test]
fn staged_write_region_round_trips() {
    let mut b = StagedBuffer::new(BufferType::INDEX, 10);
    let bytes: Vec<u8> = vec![10, 11, 12, 13, 14, 15];
    b.write_region(&bytes, 2, 5, 3).unwrap();
    assert_eq!(b.read_back(5, 3).unwrap(), vec![12, 13, 14]);
    assert_eq!(b.read_back(0, 10).unwrap(), vec![0, 0, 0, 0, 0, 12, 13, 14, 0, 0]);
}

#[test]
fn staged_write_out_of_bounds_fails() {
    let mut b = StagedBuffer::new(BufferType::VERTEX, 4);
    let bytes: Vec<u8> = vec![1, 2, 3];
    let err = b.write(&bytes, 2).unwrap_err();
    assert_eq!(err.kind(), ErrorKind::GenericGpu);
    assert_eq!(b.read_back(0, 4).unwrap(), vec![0, 0, 0, 0]);
    assert!(b.write_region(&bytes, 2, 0, 2).is_err());
    assert!(b.read_back(3, 2).is_err());
}

#[test]
fn upload_region_checks_bounds() {
    assert_eq!(upload_region(16, 8, 0, 8, 8).unwrap(), CopyRegion { src_offset: 0, dst_offset: 8, size: 8 });
    assert!(upload_region(16, 8, 0, 9, 8).is_err());
    assert!(upload_region(16, 8, 1, 0, 8).is_err());
    assert!(upload_region(16, 8, usize::MAX, 0, 2).is_err());
}

#[test]
fn vertex_buffer_is_device_local_plus_staging() {
    let specs = buffer_specs(BufferType::VERTEX, 64, 2);
    assert_eq!(specs.len(), 2);
    assert_eq!(specs[0].memory, DeviceMemory::DEVICE_LOCAL);
    assert_eq!(specs[0].usage, BufferUsage::VERTEX_BUFFER | BufferUsage::TRANSFER_DST);
    assert_eq!(specs[1].buffer_type, BufferType::STAGING);
    assert_eq!(specs[1].size, 64);
    assert_eq!(specs[1].memory, DeviceMemory::HOST_VISIBLE | DeviceMemory::HOST_COHERENT);
}

#[test]
fn uniform_buffer_has_one_instance_per_slot() {
    let specs = buffer_specs(BufferType::DYNAMIC_UNIFORM, 96, 3);
    assert_eq!(specs.len(), 3);
    for s in &specs {
        assert_eq!(s.buffer_type, BufferType::DYNAMIC_UNIFORM);
        assert_eq!(s.size, 96);
    }
    assert!(buffer_specs(BufferType::SHADER_STORAGE, 96, 3).is_empty());
    assert_eq!(storage_buffer_spec(96).usage, BufferUsage::STORAGE_BUFFER | BufferUsage::TRANSFER_SRC);
}

#[test]
fn index_buffer_spec() {
    let specs = buffer_specs(BufferType::INDEX, 12, 2);
    assert_eq!(specs[0].usage, BufferUsage::INDEX_BUFFER | BufferUsage::TRANSFER_DST);
    assert_eq!(std::mem::size_of::<gamekit::buffer::IndexBufferElementType>(), 4);
}
