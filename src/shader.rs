use vstd::prelude::*;
use crate::manifest::StaticShaderDescriptor;
use crate::material::ShaderType;

verus! {

/// The little-endian 32-bit word made of four bytes.
pub open spec fn spec_word(b0: u8, b1: u8, b2: u8, b3: u8) -> int {
    b0 + 256 * b1 + 65536 * b2 + 16777216 * b3
}

/// The code words of a shader binary: each four bytes, little-endian, make a
/// word; trailing bytes that do not fill a word are dropped.
pub open spec fn spec_code_words(bytes: Seq<u8>) -> Seq<u32> {
    Seq::new(
        bytes.len() / 4,
        |i: int| spec_word(bytes[4 * i], bytes[4 * i + 1], bytes[4 * i + 2], bytes[4 * i + 3]) as u32,
    )
}

fn word(b0: u8, b1: u8, b2: u8, b3: u8) -> (r: u32)
    ensures
        r == spec_word(b0, b1, b2, b3),
{
    assert(spec_word(b0, b1, b2, b3) <= u32::MAX) by (nonlinear_arith)
        requires b0 <= 255, b1 <= 255, b2 <= 255, b3 <= 255;
    (b0 as u32) + 256 * (b1 as u32) + 65536 * (b2 as u32) + 16777216 * (b3 as u32)
}

pub fn shader_code_words(bytes: &[u8]) -> (r: Vec<u32>)
    ensures
        r@ == spec_code_words(bytes@),
{
    let len = bytes.len();
    let n = len / 4;
    let mut r: Vec<u32> = Vec::new();
    let mut i: usize = 0;
    while i < n
        invariant
            i <= n,
            len == bytes@.len(),
            n == len / 4,
            r@ == Seq::new(
                i as nat,
                |k: int| spec_word(bytes@[4 * k], bytes@[4 * k + 1], bytes@[4 * k + 2], bytes@[4 * k + 3]) as u32,
            ),
        decreases n - i,
    {
        assert(4 * i + 3 < len) by (nonlinear_arith)
            requires i < n, n == len / 4;
        let w = word(bytes[4 * i], bytes[4 * i + 1], bytes[4 * i + 2], bytes[4 * i + 3]);
        r.push(w);
        i = i + 1;
        assert(r@ =~= Seq::new(
            i as nat,
            |k: int| spec_word(bytes@[4 * k], bytes@[4 * k + 1], bytes@[4 * k + 2], bytes@[4 * k + 3]) as u32,
        ));
    }
    r
}

/// The shader kind a format name stands for: "vertex", else fragment.
pub open spec fn spec_shader_type_of_format(format: Seq<char>) -> u32 {
    if format == "vertex"@ { ShaderType::VERTEX_SHADER } else { ShaderType::FRAGMENT_SHADER }
}

pub fn shader_type_of_format(format: &str) -> (r: u32)
    ensures
        r == spec_shader_type_of_format(format@),
{
    if format.to_owned() == "vertex".to_owned() {
        ShaderType::VERTEX_SHADER
    } else {
        ShaderType::FRAGMENT_SHADER
    }
}

/// A shader binary ready for the driver: its code words and its kind.
pub struct ShaderCode {
    pub code: Vec<u32>,
    pub shader_type: u32,
}

impl ShaderCode {
    pub fn from_resource(descriptor: &StaticShaderDescriptor) -> (r: ShaderCode)
        ensures
            r.code@ == spec_code_words(descriptor.data@),
            r.shader_type == spec_shader_type_of_format(descriptor.format@),
    {
        ShaderCode { code: shader_code_words(descriptor.data), shader_type: shader_type_of_format(descriptor.format) }
    }
}

} // verus!
