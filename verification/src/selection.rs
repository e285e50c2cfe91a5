//! Capability-driven selection of the output texture format.
//!
//! The selector is a pure, total function: given the one capability flag the
//! pipeline probes (support for the BC block-compression family), it always
//! returns exactly one of two self-consistent format tuples.

use vstd::prelude::*;

verus! {

/// Transcoder-side identifier of the BC7 output format.
pub const TRANSCODE_FORMAT_BC7: u32 = 6;

/// Transcoder-side identifier of the uncompressed RGBA8 output format.
pub const TRANSCODE_FORMAT_RGBA8: u32 = 13;

/// GPU pixel formats the pipeline can upload into.
#[derive(Clone, Copy, Debug, PartialEq, Eq, Structural)]
pub enum GpuFormat {
    /// Block-compressed sRGB format: 4x4 texel blocks, 16 bytes per block.
    Bc7RgbaUnormSrgb,
    /// Uncompressed sRGB fallback: one texel per "block", 4 bytes each.
    Rgba8UnormSrgb,
}

/// The output format tuple one pipeline invocation works with.
///
/// Invariant (see [`choice_consistent`]): the block dimensions and the bytes
/// per block must match the hardware layout of `gpu_format` exactly, since
/// every later size computation depends on that agreement.
#[derive(Clone, Copy, Debug, PartialEq, Eq, Structural)]
pub struct FormatChoice {
    /// Identifier of this format in the transcoder's own format table.
    pub transcoder_format: u32,
    /// The GPU pixel format the texture will be created with.
    pub gpu_format: GpuFormat,
    /// Bytes a single block occupies in the transcoded buffer.
    pub bytes_per_block: u32,
    /// Texels covered by one block, horizontally.
    pub block_width: u32,
    /// Texels covered by one block, vertically.
    pub block_height: u32,
}

/// The BC7 choice: 4x4 blocks of 16 bytes.
pub open spec fn bc7_choice() -> FormatChoice {
    FormatChoice {
        transcoder_format: TRANSCODE_FORMAT_BC7,
        gpu_format: GpuFormat::Bc7RgbaUnormSrgb,
        bytes_per_block: 16,
        block_width: 4,
        block_height: 4,
    }
}

/// The uncompressed fallback choice: 1x1 "blocks" of 4 bytes.
pub open spec fn rgba8_choice() -> FormatChoice {
    FormatChoice {
        transcoder_format: TRANSCODE_FORMAT_RGBA8,
        gpu_format: GpuFormat::Rgba8UnormSrgb,
        bytes_per_block: 4,
        block_width: 1,
        block_height: 1,
    }
}

/// A choice is consistent when it is one of the two tuples whose block layout
/// matches its GPU format's hardware layout.
pub open spec fn choice_consistent(c: FormatChoice) -> bool {
    c == bc7_choice() || c == rgba8_choice()
}

/// What the selector returns for a given capability probe result.
pub open spec fn select_spec(bc_supported: bool) -> FormatChoice {
    if bc_supported {
        bc7_choice()
    } else {
        rgba8_choice()
    }
}

/// Format Selector: prefer the block-compressed high-efficiency format when
/// the device supports it, otherwise fall back to uncompressed RGBA8.
///
/// Pure and total: it never fails, and the result is pinned exactly by
/// [`select_spec`], so two calls with the same capability input are
/// bit-identical.
pub fn select_format(bc_supported: bool) -> (c: FormatChoice)
    ensures
        c == select_spec(bc_supported),
        choice_consistent(c),
{
    if bc_supported {
        FormatChoice {
            transcoder_format: TRANSCODE_FORMAT_BC7,
            gpu_format: GpuFormat::Bc7RgbaUnormSrgb,
            bytes_per_block: 16,
            block_width: 4,
            block_height: 4,
        }
    } else {
        FormatChoice {
            transcoder_format: TRANSCODE_FORMAT_RGBA8,
            gpu_format: GpuFormat::Rgba8UnormSrgb,
            bytes_per_block: 4,
            block_width: 1,
            block_height: 1,
        }
    }
}

/// A consistent choice has positive block dimensions and block size.
pub proof fn lemma_consistent_choice_positive(c: FormatChoice)
    requires
        choice_consistent(c),
    ensures
        1 <= c.block_width,
        1 <= c.block_height,
        1 <= c.bytes_per_block,
{
}

/// The Format Selector is deterministic: equal capability inputs always
/// yield equal format choices.
pub proof fn lemma_select_deterministic(caps1: bool, caps2: bool)
    requires
        caps1 == caps2,
    ensures
        select_spec(caps1) == select_spec(caps2),
{
}

} // verus!
