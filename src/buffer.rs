use vstd::prelude::*;
use crate::device::DeviceMemory;
use crate::error::{Error, ErrorKind};

verus! {

/// Element type of index buffers.
pub type IndexBufferElementType = u32;

/// Buffer kinds, as numbers.
pub struct BufferType {}

impl BufferType {
    pub const UNKNOWN: u32 = 0x0;
    pub const VERTEX: u32 = 0x1;
    pub const INDEX: u32 = 0x2;
    pub const UNIFORM: u32 = 0x3;
    pub const SHADER_STORAGE: u32 = 0x4;
    pub const STAGING: u32 = 0x5;
    pub const DYNAMIC_UNIFORM: u32 = 0x6;
}

/// Raw driver buffer usage bits.
pub struct BufferUsage {}

impl BufferUsage {
    pub const TRANSFER_SRC: u32 = 0x1;
    pub const TRANSFER_DST: u32 = 0x2;
    pub const UNIFORM_BUFFER: u32 = 0x10;
    pub const STORAGE_BUFFER: u32 = 0x20;
    pub const INDEX_BUFFER: u32 = 0x40;
    pub const VERTEX_BUFFER: u32 = 0x80;
}

/// One buffer object to create: its kind, size, usage and memory bits.
#[derive(Clone, Copy, Debug, PartialEq, Eq, Structural)]
pub struct BufferSpec {
    pub buffer_type: u32,
    pub size: usize,
    pub usage: u32,
    pub memory: u32,
}

pub open spec fn spec_host_memory() -> u32 {
    DeviceMemory::HOST_VISIBLE | DeviceMemory::HOST_COHERENT
}

pub open spec fn spec_staging_spec(size: usize) -> BufferSpec {
    BufferSpec { buffer_type: BufferType::STAGING, size, usage: BufferUsage::TRANSFER_SRC, memory: spec_host_memory() }
}

pub open spec fn spec_uniform_spec(buffer_type: u32, size: usize) -> BufferSpec {
    BufferSpec {
        buffer_type,
        size,
        usage: BufferUsage::UNIFORM_BUFFER | BufferUsage::TRANSFER_SRC,
        memory: spec_host_memory(),
    }
}

pub open spec fn spec_storage_spec(size: usize) -> BufferSpec {
    BufferSpec {
        buffer_type: BufferType::SHADER_STORAGE,
        size,
        usage: BufferUsage::STORAGE_BUFFER | BufferUsage::TRANSFER_SRC,
        memory: spec_host_memory(),
    }
}

/// The buffer objects behind a buffer of a kind: vertex and index buffers are
/// a device-local buffer followed by a host-visible staging buffer of equal
/// size; uniform buffers are one host-visible buffer per frame slot; storage
/// buffers start with none and grow one per slot on demand.
pub open spec fn spec_buffer_specs(buffer_type: u32, size: usize, frame_count: nat) -> Seq<BufferSpec> {
    if buffer_type == BufferType::VERTEX {
        seq![
            BufferSpec {
                buffer_type,
                size,
                usage: BufferUsage::VERTEX_BUFFER | BufferUsage::TRANSFER_DST,
                memory: DeviceMemory::DEVICE_LOCAL,
            },
            spec_staging_spec(size),
        ]
    } else if buffer_type == BufferType::INDEX {
        seq![
            BufferSpec {
                buffer_type,
                size,
                usage: BufferUsage::INDEX_BUFFER | BufferUsage::TRANSFER_DST,
                memory: DeviceMemory::DEVICE_LOCAL,
            },
            spec_staging_spec(size),
        ]
    } else if buffer_type == BufferType::UNIFORM || buffer_type == BufferType::DYNAMIC_UNIFORM {
        Seq::new(frame_count, |i: int| spec_uniform_spec(buffer_type, size))
    } else {
        Seq::<BufferSpec>::empty()
    }
}

pub fn buffer_specs(buffer_type: u32, size: usize, frame_count: usize) -> (r: Vec<BufferSpec>)
    ensures
        r@ == spec_buffer_specs(buffer_type, size, frame_count as nat),
{
    let host = DeviceMemory::HOST_VISIBLE | DeviceMemory::HOST_COHERENT;
    let staging = BufferSpec { buffer_type: BufferType::STAGING, size, usage: BufferUsage::TRANSFER_SRC, memory: host };
    let mut r: Vec<BufferSpec> = Vec::new();
    if buffer_type == BufferType::VERTEX {
        r.push(BufferSpec {
            buffer_type,
            size,
            usage: BufferUsage::VERTEX_BUFFER | BufferUsage::TRANSFER_DST,
            memory: DeviceMemory::DEVICE_LOCAL,
        });
        r.push(staging);
    } else if buffer_type == BufferType::INDEX {
        r.push(BufferSpec {
            buffer_type,
            size,
            usage: BufferUsage::INDEX_BUFFER | BufferUsage::TRANSFER_DST,
            memory: DeviceMemory::DEVICE_LOCAL,
        });
        r.push(staging);
    } else if buffer_type == BufferType::UNIFORM || buffer_type == BufferType::DYNAMIC_UNIFORM {
        let uniform = BufferSpec {
            buffer_type,
            size,
            usage: BufferUsage::UNIFORM_BUFFER | BufferUsage::TRANSFER_SRC,
            memory: host,
        };
        let mut i: usize = 0;
        while i < frame_count
            invariant
                i <= frame_count,
                uniform == spec_uniform_spec(buffer_type, size),
                r@ == Seq::new(i as nat, |k: int| spec_uniform_spec(buffer_type, size)),
            decreases frame_count - i,
        {
            r.push(uniform);
            i = i + 1;
            assert(r@ =~= Seq::new(i as nat, |k: int| spec_uniform_spec(buffer_type, size)));
        }
    }
    assert(r@ =~= spec_buffer_specs(buffer_type, size, frame_count as nat));
    r
}

/// The buffer object that a storage buffer gains for one more frame slot.
pub fn storage_buffer_spec(size: usize) -> (r: BufferSpec)
    ensures
        r == spec_storage_spec(size),
{
    BufferSpec {
        buffer_type: BufferType::SHADER_STORAGE,
        size,
        usage: BufferUsage::STORAGE_BUFFER | BufferUsage::TRANSFER_SRC,
        memory: DeviceMemory::HOST_VISIBLE | DeviceMemory::HOST_COHERENT,
    }
}

/// A copy of `size` bytes between two byte ranges.
#[derive(Clone, Copy, Debug, PartialEq, Eq, Structural)]
pub struct CopyRegion {
    pub src_offset: usize,
    pub dst_offset: usize,
    pub size: usize,
}

/// The region lies inside a source of `src_len` and a destination of `dst_len` bytes.
pub open spec fn spec_region_fits(src_len: nat, dst_len: nat, src_offset: nat, dst_offset: nat, length: nat) -> bool {
    src_offset + length <= src_len && dst_offset + length <= dst_len
}

/// Checks a write of `length` bytes from `src_offset` of `data_len` bytes to
/// `dst_offset` of a buffer of `buffer_size` bytes.
pub fn upload_region(buffer_size: usize, data_len: usize, src_offset: usize, dst_offset: usize, length: usize) -> (r: Result<CopyRegion, Error>)
    ensures
        r.is_ok() == spec_region_fits(data_len as nat, buffer_size as nat, src_offset as nat, dst_offset as nat, length as nat),
        r.is_ok() ==> r.unwrap() == (CopyRegion { src_offset, dst_offset, size: length }),
        r.is_err() ==> r.unwrap_err().spec_kind() == ErrorKind::GenericGpu,
{
    if src_offset > data_len || length > data_len - src_offset || dst_offset > buffer_size || length > buffer_size - dst_offset {
        return Err(Error::new(ErrorKind::GenericGpu, "copy region exceeds buffer bounds"));
    }
    Ok(CopyRegion { src_offset, dst_offset, size: length })
}

/// `dst` with the bytes `[src_offset, (src_offset + length) as int)` of `src` written at `dst_offset`.
pub open spec fn spec_copy(dst: Seq<u8>, src: Seq<u8>, src_offset: int, dst_offset: int, length: int) -> Seq<u8> {
    Seq::new(dst.len(), |k: int| if dst_offset <= k < dst_offset + length { src[k - dst_offset + src_offset] } else { dst[k] })
}

fn copy_bytes(dst: &mut Vec<u8>, src: &Vec<u8>, src_offset: usize, dst_offset: usize, length: usize)
    requires
        spec_region_fits(src@.len(), old(dst)@.len(), src_offset as nat, dst_offset as nat, length as nat),
    ensures
        final(dst)@ == spec_copy(old(dst)@, src@, src_offset as int, dst_offset as int, length as int),
{
    let ghost start = dst@;
    let src_len = src.len();
    let dst_len = dst.len();
    let mut k: usize = 0;
    while k < length
        invariant
            k <= length,
            src_len == src@.len(),
            dst_len == start.len(),
            spec_region_fits(src@.len(), start.len(), src_offset as nat, dst_offset as nat, length as nat),
            dst@.len() == start.len(),
            forall|j: int| 0 <= j < dst@.len() ==> #[trigger] dst@[j] == if dst_offset <= j < dst_offset + k {
                src@[j - dst_offset + src_offset]
            } else {
                start[j]
            },
        decreases length - k,
    {
        let b = src[src_offset + k];
        dst.set(dst_offset + k, b);
        k = k + 1;
    }
    assert(dst@ =~= spec_copy(start, src@, src_offset as int, dst_offset as int, length as int));
}

/// A device-local buffer and its staging buffer, both held in host memory: it
/// runs the staged upload path exactly, and lets the device-side bytes be
/// read back, so that uploads can be checked without a device.
pub struct StagedBuffer {
    buffer_type: u32,
    staging: Vec<u8>,
    device: Vec<u8>,
}

/// The model of a `StagedBuffer`.
pub struct StagedBufferModel {
    pub buffer_type: u32,
    pub staging: Seq<u8>,
    pub device: Seq<u8>,
}

impl StagedBufferModel {
    pub open spec fn wf(self) -> bool {
        self.staging.len() == self.device.len()
    }

    /// The staged upload: the bytes go to the staging buffer, then the same
    /// range is copied from staging to device-local memory.
    pub open spec fn after_upload(self, bytes: Seq<u8>, src_offset: int, dst_offset: int, length: int) -> StagedBufferModel {
        let staging = spec_copy(self.staging, bytes, src_offset, dst_offset, length);
        StagedBufferModel {
            staging,
            device: spec_copy(self.device, staging, dst_offset, dst_offset, length),
            ..self
        }
    }
}

impl View for StagedBuffer {
    type V = StagedBufferModel;

    closed spec fn view(&self) -> StagedBufferModel {
        StagedBufferModel { buffer_type: self.buffer_type, staging: self.staging@, device: self.device@ }
    }
}

impl StagedBuffer {
    /// A zero-filled pair of `size` bytes.
    pub fn new(buffer_type: u32, size: usize) -> (r: StagedBuffer)
        ensures
            r@.wf(),
            r@.buffer_type == buffer_type,
            r@.device == Seq::new(size as nat, |k: int| 0u8),
            r@.staging == Seq::new(size as nat, |k: int| 0u8),
    {
        let mut staging: Vec<u8> = Vec::new();
        let mut device: Vec<u8> = Vec::new();
        let mut i: usize = 0;
        while i < size
            invariant
                i <= size,
                staging@ == Seq::new(i as nat, |k: int| 0u8),
                device@ == Seq::new(i as nat, |k: int| 0u8),
            decreases size - i,
        {
            staging.push(0u8);
            device.push(0u8);
            i = i + 1;
            assert(staging@ =~= Seq::new(i as nat, |k: int| 0u8));
            assert(device@ =~= Seq::new(i as nat, |k: int| 0u8));
        }
        StagedBuffer { buffer_type, staging, device }
    }

    pub fn buffer_type(&self) -> (r: u32)
        ensures
            r == self@.buffer_type,
    {
        self.buffer_type
    }

    pub fn size(&self) -> (r: usize)
        requires
            self@.wf(),
        ensures
            r == self@.device.len(),
    {
        self.device.len()
    }

    /// Writes `length` bytes of `bytes` from `src_offset` at `dst_offset`, through staging.
    pub fn write_region(&mut self, bytes: &Vec<u8>, src_offset: usize, dst_offset: usize, length: usize) -> (r: Result<(), Error>)
        requires
            old(self)@.wf(),
        ensures
            final(self)@.wf(),
            r.is_ok() == spec_region_fits(bytes@.len(), old(self)@.device.len(), src_offset as nat, dst_offset as nat, length as nat),
            r.is_ok() ==> final(self)@ == old(self)@.after_upload(bytes@, src_offset as int, dst_offset as int, length as int),
            r.is_err() ==> final(self)@ == old(self)@ && r.unwrap_err().spec_kind() == ErrorKind::GenericGpu,
    {
        let region = upload_region(self.device.len(), bytes.len(), src_offset, dst_offset, length);
        match region {
            Ok(region) => {
                copy_bytes(&mut self.staging, bytes, region.src_offset, region.dst_offset, region.size);
                copy_bytes(&mut self.device, &self.staging, region.dst_offset, region.dst_offset, region.size);
                Ok(())
            },
            Err(e) => Err(e),
        }
    }

    /// Writes all of `bytes` at `dst_offset`, through staging.
    pub fn write(&mut self, bytes: &Vec<u8>, dst_offset: usize) -> (r: Result<(), Error>)
        requires
            old(self)@.wf(),
        ensures
            final(self)@.wf(),
            r.is_ok() == (dst_offset + bytes@.len() <= old(self)@.device.len()),
            r.is_ok() ==> final(self)@ == old(self)@.after_upload(bytes@, 0, dst_offset as int, bytes@.len() as int),
            r.is_err() ==> final(self)@ == old(self)@,
    {
        self.write_region(bytes, 0, dst_offset, bytes.len())
    }

    /// Reads `length` device-local bytes back from `offset`.
    pub fn read_back(&self, offset: usize, length: usize) -> (r: Result<Vec<u8>, Error>)
        requires
            self@.wf(),
        ensures
            r.is_ok() == (offset + length <= self@.device.len()),
            r.is_ok() ==> r.unwrap()@ == self@.device.subrange(offset as int, offset + length),
            r.is_err() ==> r.unwrap_err().spec_kind() == ErrorKind::GenericGpu,
    {
        if offset > self.device.len() || length > self.device.len() - offset {
            return Err(Error::new(ErrorKind::GenericGpu, "read back region exceeds buffer bounds"));
        }
        let mut out: Vec<u8> = Vec::new();
        let len = self.device.len();
        let mut k: usize = 0;
        while k < length
            invariant
                k <= length,
                len == self.device@.len(),
                offset + length <= self.device@.len(),
                out@ == self.device@.subrange(offset as int, offset + k),
            decreases length - k,
        {
            out.push(self.device[offset + k]);
            k = k + 1;
            assert(out@ =~= self.device@.subrange(offset as int, offset + k));
        }
        Ok(out)
    }
}

/// Round trip of the staged upload path: after a write of a region, reading
/// the same range back from device-local memory gives the bytes written, and
/// every byte outside the range is as it was.
pub proof fn lemma_upload_round_trip(b: StagedBufferModel, bytes: Seq<u8>, src_offset: nat, dst_offset: nat, length: nat)
    requires
        b.wf(),
        spec_region_fits(bytes.len(), b.device.len(), src_offset, dst_offset, length),
    ensures
        b.after_upload(bytes, src_offset as int, dst_offset as int, length as int).wf(),
        b.after_upload(bytes, src_offset as int, dst_offset as int, length as int).device.subrange(
            dst_offset as int,
            (dst_offset + length) as int,
        ) == bytes.subrange(src_offset as int, (src_offset + length) as int),
        forall|k: int| 0 <= k < b.device.len() && !(dst_offset <= k < (dst_offset + length) as int)
            ==> #[trigger] b.after_upload(bytes, src_offset as int, dst_offset as int, length as int).device[k] == b.device[k],
{
    let a = b.after_upload(bytes, src_offset as int, dst_offset as int, length as int);
    assert(a.device.subrange(dst_offset as int, (dst_offset + length) as int) =~= bytes.subrange(src_offset as int, (src_offset + length) as int));
}

} // verus!
