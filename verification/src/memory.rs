//! Resource-allocator decisions: selecting a memory type for a new GPU
//! resource and sizing the mip chain of an uploaded texture.
//!
//! The GPU reports, per candidate memory type, a property-flag mask, and per
//! resource a bitmask of the memory types it accepts.  The functions here
//! make the allocator's choices from those plain masks; the caller performs
//! the actual allocation.

use vstd::prelude::*;
use vstd::arithmetic::power2::{
    pow2, lemma_pow2_pos, lemma_pow2_unfold, lemma_pow2_strictly_increases, lemma2_to64,
};
use crate::error::RenderError;

verus! {

/// A memory type at `index` suits a resource when the resource's
/// requirements mask has the bit for that index set and the type's property
/// flags contain every requested property.
pub open spec fn memory_type_suitable(
    memory_type_bits: u32,
    flags: u32,
    required: u32,
    index: u32,
) -> bool {
    &&& memory_type_bits & (1u32 << index) != 0
    &&& flags & required == required
}

/// Selects the first memory type that satisfies both the resource's
/// memory-type bitmask and the requested property flags, as the allocator
/// does before every allocation.
///
/// Returns `Ok` with the lowest suitable index, and
/// `Err(NoSuitableMemoryType)` exactly when no reported type suits.
pub fn get_memory_type_index(
    memory_types: &Vec<u32>,
    memory_type_bits: u32,
    required: u32,
) -> (r: Result<usize, RenderError>)
    requires
        memory_types@.len() <= 32,
    ensures
        match r {
            Ok(i) => {
                &&& i < memory_types@.len()
                &&& memory_type_suitable(memory_type_bits, memory_types@[i as int], required, i as u32)
                &&& forall|j: int| 0 <= j < i
                    ==> !memory_type_suitable(memory_type_bits, memory_types@[j], required, j as u32)
            },
            Err(e) => {
                &&& e == RenderError::NoSuitableMemoryType
                &&& forall|j: int| 0 <= j < memory_types@.len()
                    ==> !memory_type_suitable(memory_type_bits, memory_types@[j], required, j as u32)
            },
        },
{
    let mut i: usize = 0;
    while i < memory_types.len()
        invariant
            memory_types@.len() <= 32,
            i <= memory_types@.len(),
            forall|j: int| 0 <= j < i
                ==> !memory_type_suitable(memory_type_bits, memory_types@[j], required, j as u32),
        decreases memory_types@.len() - i,
    {
        let flags = memory_types[i];
        if (memory_type_bits & (1u32 << (i as u32))) != 0 && (flags & required) == required {
            return Ok(i);
        }
        i += 1;
    }
    Err(RenderError::NoSuitableMemoryType)
}

/// The floor of the base-two logarithm; the height of the mip pyramid above
/// its base level.
pub open spec fn log2_floor(n: nat) -> nat
    decreases n,
{
    if n <= 1 {
        0
    } else {
        1 + log2_floor(n / 2)
    }
}

/// The larger of a texture's two dimensions, which governs its mip count.
pub open spec fn larger_dim(width: u32, height: u32) -> u32 {
    if width >= height {
        width
    } else {
        height
    }
}

/// Number of mip levels generated for a `width` by `height` texture: one
/// base level plus one level per halving of the larger dimension.
pub fn mip_levels(width: u32, height: u32) -> (r: u32)
    requires
        width >= 1,
        height >= 1,
    ensures
        r == log2_floor(larger_dim(width, height) as nat) + 1,
        1 <= r <= 32,
{
    let ghost m: nat = larger_dim(width, height) as nat;
    let mut n: u32 = if width >= height { width } else { height };
    let mut levels: u32 = 1;
    proof {
        // The invariant's product starts as n * 2^0.
        lemma2_to64();
        assert(n as nat * pow2((1u32 - 1) as nat) == n as nat) by (nonlinear_arith)
            requires
                pow2((1u32 - 1) as nat) == 1,
        ;
    }
    while n > 1
        invariant
            n >= 1,
            1 <= levels <= 32,
            n as nat * pow2((levels - 1) as nat) <= m,
            m <= u32::MAX,
            log2_floor(m) == levels - 1 + log2_floor(n as nat),
        decreases n,
    {
        proof {
            // With at least two texels left, the current level index stays
            // below 31, so the level counter cannot leave its range.
            lemma_pow2_pos((levels - 1) as nat);
            lemma_pow2_unfold(levels as nat);
            assert(n as nat * pow2((levels - 1) as nat) >= 2 * pow2((levels - 1) as nat))
                by (nonlinear_arith)
                requires
                    n >= 2,
                    pow2((levels - 1) as nat) >= 1,
            ;
            lemma2_to64();
            if levels >= 32 {
                if levels > 32 {
                    lemma_pow2_strictly_increases(32, levels as nat);
                }
                assert(false);
            }
            assert((n / 2) as nat * pow2(levels as nat) <= n as nat * pow2((levels - 1) as nat))
                by (nonlinear_arith)
                requires
                    n >= 2,
                    pow2(levels as nat) == 2 * pow2((levels - 1) as nat),
            ;
        }
        n = n / 2;
        levels = levels + 1;
    }
    levels
}

/// The extent of one dimension at a given mip level: halved once per level,
/// never below one texel.  Each blit of the mip-chain generation shrinks the
/// source extent this way.
pub fn mip_dimension(base: u32, level: u32) -> (r: u32)
    requires
        base >= 1,
    ensures
        r as nat == mip_dimension_spec(base as nat, level as nat),
        r >= 1,
{
    let mut n: u32 = base;
    let mut i: u32 = 0;
    while i < level
        invariant
            n >= 1,
            i <= level,
            mip_dimension_spec(base as nat, level as nat) == mip_dimension_spec(
                n as nat,
                (level - i) as nat,
            ),
        decreases level - i,
    {
        if n > 1 {
            n = n / 2;
        }
        i += 1;
    }
    n
}

/// One dimension of mip level `level`, starting from `base` texels.
pub open spec fn mip_dimension_spec(base: nat, level: nat) -> nat
    decreases level,
{
    if level == 0 {
        base
    } else if base <= 1 {
        1
    } else {
        mip_dimension_spec(base / 2, (level - 1) as nat)
    }
}

/// Required side length of the startup texture: square RGBA.
pub const TEXTURE_SIDE: u32 = 1024;

/// Checks a decoded texture against what the renderer requires of its
/// startup asset: a square `TEXTURE_SIDE` RGBA image whose pixel data has
/// four bytes per texel.  Malformed assets are fatal at creation time and
/// never retried.
pub fn validate_texture(width: u32, height: u32, rgba: bool, byte_len: usize) -> (r: Result<
    (),
    RenderError,
>)
    ensures
        r is Ok <==> (width == TEXTURE_SIDE && height == TEXTURE_SIDE && rgba && byte_len == 4
            * width * height),
        r is Err ==> r == Err::<(), RenderError>(RenderError::InvalidAsset),
{
    if width == TEXTURE_SIDE && height == TEXTURE_SIDE && rgba && byte_len == 4194304 {
        Ok(())
    } else {
        Err(RenderError::InvalidAsset)
    }
}

/// Generating the mip chain issues one blit per level past the base.
pub fn mip_blit_count(mip_levels: u32) -> (r: u32)
    requires
        mip_levels >= 1,
    ensures
        r == mip_levels - 1,
{
    mip_levels - 1
}

} // verus!
