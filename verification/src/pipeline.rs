//! Decisions of the startup pipeline.
//!
//! The pipeline runs once per process: probe the device, select a format,
//! compute the geometry, transcode, validate the buffer, and only then
//! create and fill the texture. This module holds those decisions as
//! verified functions; the host plumbing around them performs the fetch,
//! the transcode call and the GPU calls and hands the outcomes back.

use vstd::prelude::*;

use crate::geometry::compute_geometry_checked;
use crate::geometry::geometry_fits;
use crate::geometry::geometry_matches;
use crate::geometry::ImageGeometry;
use crate::selection::lemma_consistent_choice_positive;
use crate::selection::select_format;
use crate::selection::select_spec;
use crate::selection::FormatChoice;
use crate::selection::GpuFormat;

verus! {

/// One-shot guard for the whole startup sequence.
///
/// The first `try_begin` returns `true` and marks the guard started; every
/// later call returns `false` and changes nothing, so the sequence behind
/// the guard runs at most once per guard lifetime.
pub struct StartGuard {
    started: bool,
}

/// The check-and-set transition of the guard: the result of a begin attempt
/// and the guard state after it.
pub open spec fn begin_transition(started: bool) -> (bool, bool) {
    (!started, true)
}

impl StartGuard {
    /// Whether a begin attempt has already succeeded.
    pub closed spec fn is_started(self) -> bool {
        self.started
    }

    /// A fresh guard: nothing has started yet.
    pub fn new() -> (g: StartGuard)
        ensures
            !g.is_started(),
    {
        StartGuard { started: false }
    }

    /// Check-and-set: report whether this caller is the first, and mark the
    /// guard started either way.
    pub fn try_begin(&mut self) -> (first: bool)
        ensures
            first == begin_transition(old(self).is_started()).0,
            final(self).is_started() == begin_transition(old(self).is_started()).1,
    {
        let was = self.started;
        self.started = true;
        !was
    }
}

/// Startup is idempotent: whatever state a first begin attempt leaves, a
/// second attempt is refused and leaves the guard state unchanged.
pub proof fn lemma_startup_idempotent(started0: bool)
    ensures
        !begin_transition(begin_transition(started0).1).0,
        begin_transition(begin_transition(started0).1).1 == begin_transition(started0).1,
{
}

/// Diagnostics: compare the transcoded buffer's actual byte length with the
/// length the geometry expects. Reports a mismatch exactly when they differ.
pub fn validate(actual_len: usize, expected_len: usize) -> (mismatch: bool)
    ensures
        mismatch <==> actual_len != expected_len,
{
    actual_len != expected_len
}

/// What the pipeline does after the transcode step.
#[derive(Clone, Copy, Debug, PartialEq, Eq, Structural)]
pub enum UploadDecision {
    /// Transcode succeeded and the buffer has exactly the expected size:
    /// the texture may be created and written.
    Proceed,
    /// The transcoder reported failure; the buffer holds no usable data and
    /// no texture call may be issued.
    AbortTranscodeFailed,
    /// The buffer size disagrees with the computed geometry: a defect
    /// signal, surfaced before any upload is attempted.
    AbortSizeMismatch,
}

/// The decision the pipeline owes for a transcode outcome and buffer size.
pub open spec fn upload_decision_spec(
    transcode_ok: bool,
    actual_len: int,
    expected_len: int,
) -> UploadDecision {
    if !transcode_ok {
        UploadDecision::AbortTranscodeFailed
    } else if actual_len != expected_len {
        UploadDecision::AbortSizeMismatch
    } else {
        UploadDecision::Proceed
    }
}

/// Gate between transcoding and upload: proceed only when the transcode
/// call succeeded and the buffer has exactly the expected size.
pub fn decide_upload(transcode_ok: bool, actual_len: usize, expected_len: usize) -> (d:
    UploadDecision)
    ensures
        d == upload_decision_spec(transcode_ok, actual_len as int, expected_len as int),
{
    if !transcode_ok {
        UploadDecision::AbortTranscodeFailed
    } else if validate(actual_len, expected_len) {
        UploadDecision::AbortSizeMismatch
    } else {
        UploadDecision::Proceed
    }
}

/// A failed transcode never leads to an upload: whatever the buffer sizes,
/// the decision is to abort before any texture call.
pub proof fn lemma_failed_transcode_blocks_upload(actual_len: int, expected_len: int)
    ensures
        upload_decision_spec(false, actual_len, expected_len)
            == UploadDecision::AbortTranscodeFailed,
        upload_decision_spec(false, actual_len, expected_len) != UploadDecision::Proceed,
{
}

/// Arguments of one transcode call, as the decode engine expects them: the
/// single image and level this pipeline handles, the format identifier from
/// the engine's own table, and the exact destination buffer length.
#[derive(Clone, Copy, Debug, PartialEq, Eq, Structural)]
pub struct TranscodeRequest {
    /// Index of the image inside the source container.
    pub image_index: u32,
    /// Quality level of that image.
    pub level_index: u32,
    /// Output format in the decode engine's format table.
    pub transcoder_format: u32,
    /// Required length of the destination buffer, in bytes.
    pub dest_len: u32,
}

/// Plan the single transcode call: image 0, level 0, the chosen format, and
/// a destination sized exactly to the geometry's total byte count.
pub fn plan_transcode(c: FormatChoice, g: ImageGeometry) -> (r: TranscodeRequest)
    ensures
        r.image_index == 0,
        r.level_index == 0,
        r.transcoder_format == c.transcoder_format,
        r.dest_len == g.total_bytes,
{
    TranscodeRequest {
        image_index: 0,
        level_index: 0,
        transcoder_format: c.transcoder_format,
        dest_len: g.total_bytes,
    }
}

/// Creation parameters of the destination texture: a plain 2D texture sized
/// in texels, one mip level, one array layer, sampled + copy-destination.
#[derive(Clone, Copy, Debug, PartialEq, Eq, Structural)]
pub struct TexturePlan {
    /// Texture width in texels (the image's, not the surface's).
    pub width: u32,
    /// Texture height in texels.
    pub height: u32,
    /// Depth or array layers: always 1 for this 2D texture.
    pub depth_or_array_layers: u32,
    /// Mip levels: always 1.
    pub mip_level_count: u32,
    /// Samples: always 1.
    pub sample_count: u32,
    /// The GPU pixel format of the chosen tuple.
    pub format: GpuFormat,
    /// The texture is sampled by the render pass.
    pub usage_texture_binding: bool,
    /// The texture is the destination of the queue write.
    pub usage_copy_dst: bool,
}

/// Plan the texture creation for the image and the chosen format.
pub fn plan_texture(width: u32, height: u32, c: FormatChoice) -> (t: TexturePlan)
    ensures
        t.width == width,
        t.height == height,
        t.depth_or_array_layers == 1,
        t.mip_level_count == 1,
        t.sample_count == 1,
        t.format == c.gpu_format,
        t.usage_texture_binding,
        t.usage_copy_dst,
{
    TexturePlan {
        width,
        height,
        depth_or_array_layers: 1,
        mip_level_count: 1,
        sample_count: 1,
        format: c.gpu_format,
        usage_texture_binding: true,
        usage_copy_dst: true,
    }
}

/// Layout parameters of the queue write that fills the texture.
#[derive(Clone, Copy, Debug, PartialEq, Eq)]
pub struct UploadLayout {
    /// Byte offset into the source buffer: always 0.
    pub offset: u64,
    /// Explicit byte stride of one row of blocks. GPU APIs cannot infer the
    /// pitch of compressed formats from the width, so it is always given.
    pub bytes_per_row: Option<u32>,
    /// Rows per image, meaningful only for 3D or array textures. For this
    /// plain 2D texture it must stay unset: supplying it violates the
    /// graphics API's contract.
    pub rows_per_image: Option<u32>,
}

/// Texture Uploader layout: offset 0, the geometry's row pitch as explicit
/// stride, and no rows-per-image for a plain 2D texture.
pub fn plan_upload_layout(g: ImageGeometry) -> (l: UploadLayout)
    ensures
        l.offset == 0,
        l.bytes_per_row == Some(g.row_pitch_bytes),
        l.rows_per_image is None,
{
    UploadLayout { offset: 0, bytes_per_row: Some(g.row_pitch_bytes), rows_per_image: None }
}

/// Everything the startup sequence decides before the transcode call: the
/// format choice and the geometry derived from it.
#[derive(Clone, Copy, Debug, PartialEq, Eq, Structural)]
pub struct TranscodePlan {
    /// The selected format tuple.
    pub choice: FormatChoice,
    /// The geometry of the image under that choice.
    pub geometry: ImageGeometry,
}

/// Run the pre-transcode stages: select the format from the capability
/// probe result and derive the image geometry. Returns `None` exactly when
/// a dimension is zero or the byte counts would overflow `u32`.
pub fn plan_startup(bc_supported: bool, width: u32, height: u32) -> (r: Option<TranscodePlan>)
    ensures
        r is Some <==> (1 <= width && 1 <= height && geometry_fits(
            width as int,
            height as int,
            select_spec(bc_supported),
        )),
        r matches Some(p) ==> {
            &&& p.choice == select_spec(bc_supported)
            &&& geometry_matches(p.geometry, width as int, height as int, p.choice)
        },
{
    let choice = select_format(bc_supported);
    proof {
        lemma_consistent_choice_positive(choice);
    }
    match compute_geometry_checked(width, height, choice) {
        None => None,
        Some(geometry) => Some(TranscodePlan { choice, geometry }),
    }
}

} // verus!
