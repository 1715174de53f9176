use vstd::prelude::*;
use crate::buffer::{BufferType, CopyRegion};
use crate::error::{Error, ErrorKind};
use crate::material::{PushConstantRange, UniformBinding};

verus! {

/// The stride of one element of `element_size` bytes under `alignment`:
/// the element size rounded up to a multiple of the alignment.
pub open spec fn spec_aligned_size(element_size: nat, alignment: nat) -> nat
    recommends
        alignment > 0,
{
    if element_size % alignment == 0 {
        element_size
    } else {
        ((element_size / alignment + 1) * alignment) as nat
    }
}

/// The stride is a multiple of the alignment and the least one not below the element size.
pub proof fn lemma_aligned_size(element_size: nat, alignment: nat)
    requires
        alignment > 0,
    ensures
        spec_aligned_size(element_size, alignment) % alignment == 0,
        spec_aligned_size(element_size, alignment) >= element_size,
        spec_aligned_size(element_size, alignment) < element_size + alignment,
{
    let e = element_size as int;
    let a = alignment as int;
    vstd::arithmetic::div_mod::lemma_fundamental_div_mod(e, a);
    vstd::arithmetic::div_mod::lemma_mod_pos_bound(e, a);
    if e % a != 0 {
        let q = e / a;
        assert((q + 1) * a == a * q + a) by (nonlinear_arith);
        vstd::arithmetic::div_mod::lemma_mod_multiples_basic(q + 1, a);
    }
}

/// Offsets of a dynamic uniform are multiples of the device alignment: the
/// offset of array index `i` is `i * ceil(E / A) * A`, and it is a multiple of `A`.
pub proof fn lemma_dynamic_offset_aligned(element_size: nat, alignment: nat, index: nat)
    requires
        alignment > 0,
    ensures
        (index * spec_aligned_size(element_size, alignment)) % alignment == 0,
{
    lemma_aligned_size(element_size, alignment);
    let s = spec_aligned_size(element_size, alignment) as int;
    let a = alignment as int;
    let k = s / a;
    vstd::arithmetic::div_mod::lemma_fundamental_div_mod(s, a);
    assert(index * s == (index * k) * a) by (nonlinear_arith)
        requires
            s == a * k,
    ;
    vstd::arithmetic::div_mod::lemma_mod_multiples_basic(index * k, a);
}

/// Computes the stride of an element; `None` when it does not fit.
pub fn aligned_size(element_size: usize, alignment: usize) -> (r: Option<usize>)
    requires
        alignment > 0,
    ensures
        r.is_some() == (spec_aligned_size(element_size as nat, alignment as nat) <= usize::MAX),
        r.is_some() ==> r.unwrap() == spec_aligned_size(element_size as nat, alignment as nat),
{
    let rem = element_size % alignment;
    if rem == 0 {
        return Some(element_size);
    }
    proof {
        lemma_aligned_size(element_size as nat, alignment as nat);
        vstd::arithmetic::div_mod::lemma_fundamental_div_mod(element_size as int, alignment as int);
        let q = element_size as int / alignment as int;
        assert((q + 1) * alignment == q * alignment + alignment) by (nonlinear_arith);
    }
    let base = element_size - rem;
    if base > usize::MAX - alignment {
        return None;
    }
    Some(base + alignment)
}

/// A uniform of type `T`, with an optional array of extra elements addressed
/// by dynamic offsets. One buffer instance of `buffer_size` bytes is kept per
/// frame slot.
pub struct Uniform<T> {
    data: T,
    binding: u32,
    offset: usize,
    data_size: usize,
    aligned_data_size: usize,
    dynamic_size: usize,
}

impl<T> Uniform<T> {
    pub closed spec fn spec_data(&self) -> T {
        self.data
    }

    pub closed spec fn spec_binding(&self) -> u32 {
        self.binding
    }

    pub closed spec fn spec_offset(&self) -> nat {
        self.offset as nat
    }

    pub closed spec fn spec_data_size(&self) -> nat {
        self.data_size as nat
    }

    pub closed spec fn spec_aligned_data_size(&self) -> nat {
        self.aligned_data_size as nat
    }

    pub closed spec fn spec_dynamic_size(&self) -> nat {
        self.dynamic_size as nat
    }

    pub open spec fn spec_is_dynamic(&self) -> bool {
        self.spec_dynamic_size() > 0
    }

    pub open spec fn spec_buffer_size(&self) -> nat {
        if self.spec_is_dynamic() { self.spec_dynamic_size() } else { self.spec_data_size() }
    }

    /// The fields agree with the element size and alignment given at creation.
    pub closed spec fn wf(&self) -> bool {
        &&& self.dynamic_size == 0 ==> self.offset == 0
        &&& self.dynamic_size > 0 ==> self.aligned_data_size > 0
        &&& self.dynamic_size > 0 ==> self.offset % self.aligned_data_size == 0
    }

    /// Creates a uniform for element size `size_of::<T>()` under `alignment`.
    /// With `dynamic_array_elements` N > 0 the buffer holds 1 + N aligned
    /// elements; with none it is a plain buffer of exactly the element size.
    /// Fails when the alignment is zero or the buffer size does not fit.
    pub fn new(index: u32, alignment: usize, dynamic_array_elements: usize) -> (r: Result<Self, Error>)
        where
            T: Default,
        ensures
            r.is_ok() == (alignment > 0 && spec_aligned_size(vstd::layout::size_of::<T>(), alignment as nat) <= usize::MAX
                && (dynamic_array_elements == 0
                || spec_aligned_size(vstd::layout::size_of::<T>(), alignment as nat) * (1 + dynamic_array_elements)
                    <= usize::MAX)),
            r.is_ok() ==> {
                let u = r.unwrap();
                let e = vstd::layout::size_of::<T>();
                &&& u.wf()
                &&& u.spec_binding() == index
                &&& u.spec_offset() == 0
                &&& u.spec_data_size() == e
                &&& u.spec_aligned_data_size() == spec_aligned_size(e, alignment as nat)
                &&& u.spec_dynamic_size() == if dynamic_array_elements > 0 && e > 0 {
                    spec_aligned_size(e, alignment as nat) * (1 + dynamic_array_elements)
                } else {
                    0
                }
            },
            r.is_err() ==> r->Err_0.spec_kind() == ErrorKind::GenericGpu,
    {
        if alignment == 0 {
            return Err(Error::new(ErrorKind::GenericGpu, "uniform buffer alignment must be nonzero"));
        }
        let data_size = core::mem::size_of::<T>();
        proof {
            lemma_aligned_size(data_size as nat, alignment as nat);
        }
        let aligned = aligned_size(data_size, alignment);
        let aligned_data_size = match aligned {
            Some(s) => s,
            None => {
                return Err(Error::new(ErrorKind::GenericGpu, "uniform buffer size overflows"));
            },
        };
        let dynamic_size = if dynamic_array_elements > 0 && aligned_data_size > 0 {
            if dynamic_array_elements == usize::MAX {
                proof {
                    assert(aligned_data_size * (1 + dynamic_array_elements) > usize::MAX) by (nonlinear_arith)
                        requires aligned_data_size >= 1, dynamic_array_elements == usize::MAX;
                }
                return Err(Error::new(ErrorKind::GenericGpu, "uniform buffer size overflows"));
            }
            let count = dynamic_array_elements + 1;
            if count > usize::MAX / aligned_data_size {
                proof {
                    vstd::arithmetic::div_mod::lemma_fundamental_div_mod(usize::MAX as int, aligned_data_size as int);
                    assert(aligned_data_size * count > usize::MAX) by (nonlinear_arith)
                        requires
                            count > usize::MAX / aligned_data_size,
                            aligned_data_size > 0,
                            usize::MAX == aligned_data_size * (usize::MAX / aligned_data_size) + usize::MAX % aligned_data_size,
                            usize::MAX % aligned_data_size < aligned_data_size;
                }
                return Err(Error::new(ErrorKind::GenericGpu, "uniform buffer size overflows"));
            }
            proof {
                assert(aligned_data_size * count <= usize::MAX) by (nonlinear_arith)
                    requires
                        count <= usize::MAX / aligned_data_size,
                        aligned_data_size > 0;
            }
            aligned_data_size * count
        } else {
            0
        };
        proof {
            if dynamic_array_elements > 0 && data_size == 0 {
                vstd::arithmetic::div_mod::lemma_small_mod(0, alignment as nat);
                assert(aligned_data_size == 0);
            }
            if dynamic_array_elements > 0 && data_size > 0 {
                assert(aligned_data_size > 0);
                assert(aligned_data_size * (1 + dynamic_array_elements) > 0) by (nonlinear_arith)
                    requires aligned_data_size > 0;
            }
        }
        Ok(Uniform { data: T::default(), binding: index, offset: 0, data_size, aligned_data_size, dynamic_size })
    }

    pub fn binding(&self) -> (r: u32)
        ensures
            r == self.spec_binding(),
    {
        self.binding
    }

    pub fn is_dynamic(&self) -> (r: bool)
        ensures
            r == self.spec_is_dynamic(),
    {
        self.dynamic_size > 0
    }

    pub fn offset(&self) -> (r: usize)
        ensures
            r == self.spec_offset(),
    {
        self.offset
    }

    /// Size of one element.
    pub fn data_size(&self) -> (r: usize)
        ensures
            r == self.spec_data_size(),
    {
        self.data_size
    }

    /// Stride between array elements.
    pub fn aligned_data_size(&self) -> (r: usize)
        ensures
            r == self.spec_aligned_data_size(),
    {
        self.aligned_data_size
    }

    /// Size of each per-slot buffer instance.
    pub fn buffer_size(&self) -> (r: usize)
        ensures
            r == self.spec_buffer_size(),
    {
        if self.dynamic_size > 0 { self.dynamic_size } else { self.data_size }
    }

    /// The kind of the buffer instances.
    pub fn buffer_type(&self) -> (r: u32)
        ensures
            r == if self.spec_is_dynamic() { BufferType::DYNAMIC_UNIFORM } else { BufferType::UNIFORM },
    {
        if self.dynamic_size > 0 { BufferType::DYNAMIC_UNIFORM } else { BufferType::UNIFORM }
    }

    /// How a material binds this uniform.
    pub fn uniform_binding(&self) -> (r: UniformBinding)
        ensures
            r == (UniformBinding { binding: self.spec_binding(), dynamic: self.spec_is_dynamic() }),
    {
        UniformBinding { binding: self.binding, dynamic: self.dynamic_size > 0 }
    }

    /// Selects array element `idx` of a dynamic uniform: the offset becomes
    /// `idx` times the stride. Returns the index selected before. A plain
    /// uniform has no array: it keeps offset zero and reports index zero.
    pub fn set_array_index(&mut self, idx: usize) -> (r: usize)
        requires
            old(self).wf(),
            old(self).spec_is_dynamic() ==> idx * old(self).spec_aligned_data_size() <= usize::MAX,
        ensures
            final(self).wf(),
            final(self).spec_data() == old(self).spec_data(),
            final(self).spec_binding() == old(self).spec_binding(),
            final(self).spec_data_size() == old(self).spec_data_size(),
            final(self).spec_aligned_data_size() == old(self).spec_aligned_data_size(),
            final(self).spec_dynamic_size() == old(self).spec_dynamic_size(),
            old(self).spec_is_dynamic() ==> final(self).spec_offset() == idx * old(self).spec_aligned_data_size()
                && r == old(self).spec_offset() / old(self).spec_aligned_data_size(),
            !old(self).spec_is_dynamic() ==> final(self).spec_offset() == 0 && r == 0,
    {
        if self.dynamic_size == 0 {
            return 0;
        }
        let old_idx = self.offset / self.aligned_data_size;
        let ofs = idx * self.aligned_data_size;
        proof {
            vstd::arithmetic::div_mod::lemma_mod_multiples_basic(idx as int, self.aligned_data_size as int);
            assert(ofs == idx * self.aligned_data_size);
        }
        self.offset = ofs;
        old_idx
    }

    /// Where an update of the current element goes in the slot's buffer.
    pub fn update_region(&self) -> (r: CopyRegion)
        ensures
            r == (CopyRegion { src_offset: 0, dst_offset: self.spec_offset() as usize, size: self.spec_data_size() as usize }),
    {
        CopyRegion { src_offset: 0, dst_offset: self.offset, size: self.data_size }
    }

    pub fn data(&self) -> (r: &T)
        ensures
            *r == self.spec_data(),
    {
        &self.data
    }

    pub fn data_mut(&mut self) -> (r: &mut T)
        ensures
            *r == old(self).spec_data(),
            final(self).spec_data() == *final(r),
            final(self).wf() == old(self).wf(),
            final(self).spec_binding() == old(self).spec_binding(),
            final(self).spec_offset() == old(self).spec_offset(),
            final(self).spec_data_size() == old(self).spec_data_size(),
            final(self).spec_aligned_data_size() == old(self).spec_aligned_data_size(),
            final(self).spec_dynamic_size() == old(self).spec_dynamic_size(),
    {
        &mut self.data
    }

    pub fn set_data(&mut self, data: T)
        ensures
            final(self).spec_data() == data,
            final(self).wf() == old(self).wf(),
            final(self).spec_binding() == old(self).spec_binding(),
            final(self).spec_offset() == old(self).spec_offset(),
            final(self).spec_data_size() == old(self).spec_data_size(),
            final(self).spec_aligned_data_size() == old(self).spec_aligned_data_size(),
            final(self).spec_dynamic_size() == old(self).spec_dynamic_size(),
    {
        self.data = data;
    }
}

/// Push-constant data of type `T`, written straight into the command stream.
pub struct PushConstants<T> {
    data: T,
    data_size: usize,
}

impl<T> PushConstants<T> {
    pub closed spec fn spec_data(&self) -> T {
        self.data
    }

    pub closed spec fn spec_size(&self) -> nat {
        self.data_size as nat
    }

    pub fn new() -> (r: Result<Self, Error>)
        where
            T: Default,
        ensures
            r.is_ok(),
            r.unwrap().spec_size() == vstd::layout::size_of::<T>(),
    {
        let data_size = core::mem::size_of::<T>();
        Ok(PushConstants { data: T::default(), data_size })
    }

    pub fn size(&self) -> (r: usize)
        ensures
            r == self.spec_size(),
    {
        self.data_size
    }

    pub fn data(&self) -> (r: &T)
        ensures
            *r == self.spec_data(),
    {
        &self.data
    }

    pub fn data_mut(&mut self) -> (r: &mut T)
        ensures
            *r == old(self).spec_data(),
            final(self).spec_data() == *final(r),
            final(self).spec_size() == old(self).spec_size(),
    {
        &mut self.data
    }

    pub fn set_data(&mut self, data: T)
        ensures
            final(self).spec_data() == data,
            final(self).spec_size() == old(self).spec_size(),
    {
        self.data = data;
    }

    /// The range these constants take: all of `T` from offset zero.
    pub fn range(&self) -> (r: PushConstantRange)
        requires
            self.spec_size() <= u32::MAX,
        ensures
            r == (PushConstantRange { offset: 0, size: self.spec_size() as u32 }),
    {
        PushConstantRange { offset: 0, size: self.data_size as u32 }
    }
}

} // verus!
