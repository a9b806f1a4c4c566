//! Mipmap chains: how many levels a texture has and how large each is.

use vstd::arithmetic::logarithm::{
    lemma_log0, lemma_log_is_ordered, lemma_log_nonnegative, lemma_log_s, log,
};
use vstd::arithmetic::power2::{lemma2_to64, lemma_pow2_unfold, pow2};
use crate::extent::Extent;
use vstd::prelude::*;

verus! {

/// `floor(log2(longest)) + 1`, the number of levels down to one texel; zero
/// for an image without any texel along its longest side.
pub open spec fn levels_for(longest: int) -> int {
    if longest <= 0 {
        0
    } else {
        log(2, longest) + 1
    }
}

/// Number of mipmap levels of a texture: `floor(log2(max(width, height))) + 1`.
pub open spec fn mip_levels(extent: Extent) -> int {
    levels_for(extent.longest())
}

/// Half of a dimension, rounded down and never below one.
pub open spec fn halved(dimension: int) -> int {
    if dimension / 2 >= 1 {
        dimension / 2
    } else {
        1
    }
}

/// One dimension of mipmap level `level`: the source halved `level` times.
pub open spec fn mip_dimension(dimension: int, level: nat) -> int
    decreases level,
{
    if level == 0 {
        dimension
    } else {
        halved(mip_dimension(dimension, (level - 1) as nat))
    }
}

/// Extent of mipmap level `level` of a texture.
pub open spec fn mip_level_extent(extent: Extent, level: nat) -> (int, int) {
    (mip_dimension(extent.width as int, level), mip_dimension(extent.height as int, level))
}

/// Dropping the lowest bit of a positive length removes exactly one level.
pub proof fn lemma_levels_step(longest: int)
    requires
        longest >= 1,
    ensures
        levels_for(longest) == 1 + levels_for(longest / 2),
{
    if longest < 2 {
        lemma_log0(2, longest);
    } else {
        lemma_log_s(2, longest);
    }
}

/// A dimension of at least one stays within `1..=dimension` at every level.
pub proof fn lemma_mip_dimension_bounds(dimension: int, level: nat)
    requires
        dimension >= 1,
    ensures
        1 <= mip_dimension(dimension, level) <= dimension,
    decreases level,
{
    if level > 0 {
        lemma_mip_dimension_bounds(dimension, (level - 1) as nat);
    }
}

/// Halving first and then descending equals descending one level further.
pub proof fn lemma_mip_dimension_shift(dimension: int, level: nat)
    ensures
        mip_dimension(halved(dimension), level) == mip_dimension(dimension, (level + 1) as nat),
    decreases level,
{
    if level > 0 {
        lemma_mip_dimension_shift(dimension, (level - 1) as nat);
    } else {
        assert(mip_dimension(dimension, 1) == halved(mip_dimension(dimension, 0)));
    }
}

/// From the level that `levels_for` counts last, a dimension is one texel.
pub proof fn lemma_mip_dimension_bottom(dimension: int, level: nat)
    requires
        dimension >= 1,
        level + 1 >= levels_for(dimension),
    ensures
        mip_dimension(dimension, level) == 1,
    decreases dimension,
{
    if dimension == 1 {
        lemma_mip_dimension_bounds(dimension, level);
    } else {
        lemma_levels_step(dimension);
        lemma_log_nonnegative(2, dimension / 2);
        assert(level >= 1);
        lemma_mip_dimension_bottom(dimension / 2, (level - 1) as nat);
        lemma_mip_dimension_shift(dimension, (level - 1) as nat);
    }
}

/// Each level is the level above it halved in both axes, floored and clamped
/// to one texel.
pub proof fn lemma_mip_level_halves(extent: Extent, level: nat)
    requires
        level >= 1,
    ensures
        mip_level_extent(extent, level).0 == halved(mip_level_extent(extent, (level - 1) as nat).0),
        mip_level_extent(extent, level).1 == halved(mip_level_extent(extent, (level - 1) as nat).1),
        mip_level_extent(extent, level).0 >= 1,
        mip_level_extent(extent, level).1 >= 1,
{
}

/// The last level of a texture that holds a texel is a single texel, and no
/// level above it is.
pub proof fn lemma_mip_chain_ends_at_one(extent: Extent)
    requires
        !extent.is_empty(),
    ensures
        mip_levels(extent) >= 1,
        mip_level_extent(extent, (mip_levels(extent) - 1) as nat) == (1int, 1int),
        forall|level: nat|
            level + 1 < mip_levels(extent) ==> #[trigger] mip_level_extent(extent, level) != (
                1int,
                1int,
            ),
{
    let levels = mip_levels(extent);
    lemma_levels_step(extent.longest());
    lemma_log_nonnegative(2, extent.longest());
    let last = (levels - 1) as nat;
    lemma_log_is_ordered(2, extent.width as int, extent.longest());
    lemma_log_is_ordered(2, extent.height as int, extent.longest());
    lemma_mip_dimension_bottom(extent.width as int, last);
    lemma_mip_dimension_bottom(extent.height as int, last);
    assert forall|level: nat| level + 1 < mip_levels(extent) implies #[trigger] mip_level_extent(
        extent,
        level,
    ) != (1int, 1int) by {
        lemma_mip_dimension_above_one(extent.longest(), level);
    }
}

/// Above the last level the longest side is still longer than one texel.
pub proof fn lemma_mip_dimension_above_one(dimension: int, level: nat)
    requires
        dimension >= 1,
        level + 1 < levels_for(dimension),
    ensures
        mip_dimension(dimension, level) >= 2,
    decreases level,
{
    lemma_levels_step(dimension);
    if dimension < 2 {
        lemma_levels_step(dimension / 2);
    } else if level > 0 {
        lemma_mip_dimension_above_one(dimension / 2, (level - 1) as nat);
        lemma_mip_dimension_shift(dimension, (level - 1) as nat);
    }
}

/// A length below `2^bits` has at most `bits` levels.
pub proof fn lemma_levels_bounded(longest: int, bits: nat)
    requires
        longest < pow2(bits),
    ensures
        levels_for(longest) <= bits,
    decreases bits,
{
    if longest >= 1 {
        lemma_levels_step(longest);
        if bits == 0 {
            lemma2_to64();
        } else {
            lemma_pow2_unfold(bits);
            lemma_levels_bounded(longest / 2, (bits - 1) as nat);
        }
    }
}

/// Number of mipmap levels of a texture of the given extent:
/// `floor(log2(max(width, height))) + 1`, and zero where both are zero.
pub fn mip_level_count(extent: Extent) -> (levels: u32)
    ensures
        levels == mip_levels(extent),
        levels <= 32,
{
    let mut rest: u32 = if extent.width >= extent.height {
        extent.width
    } else {
        extent.height
    };
    let mut levels: u32 = 0;
    proof {
        lemma2_to64();
        lemma_levels_bounded(rest as int, 32);
        lemma_log_nonnegative(2, rest as int);
    }
    while rest > 0
        invariant
            levels + levels_for(rest as int) == levels_for(extent.longest()),
            levels_for(extent.longest()) <= 32,
            levels_for(rest as int) >= 0,
        decreases rest,
    {
        proof {
            lemma_levels_step(rest as int);
            if rest / 2 >= 1 {
                lemma_log_nonnegative(2, (rest / 2) as int);
            }
        }
        rest = rest / 2;
        levels = levels + 1;
    }
    levels
}

/// Once a dimension has reached one texel it stays there.
pub proof fn lemma_mip_dimension_stays_one(dimension: int, reached: nat, level: nat)
    requires
        mip_dimension(dimension, reached) == 1,
        reached <= level,
    ensures
        mip_dimension(dimension, level) == 1,
    decreases level,
{
    if reached < level {
        lemma_mip_dimension_stays_one(dimension, reached, (level - 1) as nat);
    }
}

/// Half of a dimension, rounded down and never below one.
pub fn halve(dimension: u32) -> (half: u32)
    ensures
        half == halved(dimension as int),
{
    if dimension / 2 >= 1 {
        dimension / 2
    } else {
        1
    }
}

/// Extent of mipmap level `level`: the level above it halved in both axes,
/// level zero being the texture itself.
pub fn mip_extent(extent: Extent, level: u32) -> (r: Extent)
    ensures
        (r.width as int, r.height as int) == mip_level_extent(extent, level as nat),
{
    let mut current = extent;
    let mut done: u32 = 0;
    while done < level
        invariant
            done <= level,
            (current.width as int, current.height as int) == mip_level_extent(extent, done as nat),
        decreases level - done,
    {
        if current.width == 1 && current.height == 1 {
            proof {
                lemma_mip_dimension_stays_one(extent.width as int, done as nat, level as nat);
                lemma_mip_dimension_stays_one(extent.height as int, done as nat, level as nat);
            }
            return current;
        }
        current = Extent { width: halve(current.width), height: halve(current.height) };
        done = done + 1;
    }
    current
}

/// Extents of all mipmap levels of a texture, level zero first.
///
/// The chain has `mip_level_count` entries; each but the first is the one
/// before it halved in both axes.
pub fn mip_chain(extent: Extent) -> (chain: Vec<Extent>)
    ensures
        chain.len() == mip_levels(extent),
        chain.len() <= 32,
        forall|level: int|
            0 <= level < chain.len() ==> (
                (#[trigger] chain@[level]).width as int,
                chain@[level].height as int,
            ) == mip_level_extent(extent, level as nat),
{
    let levels = mip_level_count(extent);
    let mut chain: Vec<Extent> = Vec::new();
    let mut current = extent;
    let mut level: u32 = 0;
    while level < levels
        invariant
            level <= levels,
            chain.len() == level,
            (current.width as int, current.height as int) == mip_level_extent(extent, level as nat),
            forall|k: int|
                0 <= k < chain.len() ==> ((#[trigger] chain@[k]).width as int, chain@[k].height as int)
                    == mip_level_extent(extent, k as nat),
        decreases levels - level,
    {
        chain.push(current);
        current = Extent { width: halve(current.width), height: halve(current.height) };
        level = level + 1;
    }
    chain
}

} // verus!
