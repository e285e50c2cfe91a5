use basis_pipeline::geometry::compute_geometry;
use basis_pipeline::geometry::compute_geometry_checked;
use basis_pipeline::pipeline::decide_upload;
use basis_pipeline::pipeline::plan_startup;
use basis_pipeline::pipeline::plan_texture;
use basis_pipeline::pipeline::plan_transcode;
use basis_pipeline::pipeline::plan_upload_layout;
use basis_pipeline::pipeline::validate;
use basis_pipeline::pipeline::StartGuard;
use basis_pipeline::pipeline::UploadDecision;
use basis_pipeline::selection::select_format;
use basis_pipeline::selection::GpuFormat;

#[test]
fn select_prefers_bc7_when_supported() {
    let c = select_format(true);
    assert_eq!(c.transcoder_format, 6);
    assert_eq!(c.gpu_format, GpuFormat::Bc7RgbaUnormSrgb);
    assert_eq!(c.bytes_per_block, 16);
    assert_eq!(c.block_width, 4);
    assert_eq!(c.block_height, 4);
}

#[test]
fn select_falls_back_to_rgba8() {
    let c = select_format(false);
    assert_eq!(c.transcoder_format, 13);
    assert_eq!(c.gpu_format, GpuFormat::Rgba8UnormSrgb);
    assert_eq!(c.bytes_per_block, 4);
    assert_eq!(c.block_width, 1);
    assert_eq!(c.block_height, 1);
}

#[test]
fn select_is_deterministic() {
    assert_eq!(select_format(true), select_format(true));
    assert_eq!(select_format(false), select_format(false));
}

#[test]
fn geometry_compressed_scenario() {
    let c = select_format(true);
    let g = compute_geometry(513, 257, c);
    assert_eq!(g.blocks_wide, 129);
    assert_eq!(g.blocks_high, 65);
    assert_eq!(g.row_pitch_bytes, 2064);
    assert_eq!(g.total_bytes, 134160);
}

#[test]
fn geometry_fallback_scenario() {
    let c = select_format(false);
    let g = compute_geometry(513, 257, c);
    assert_eq!(g.blocks_wide, 513);
    assert_eq!(g.blocks_high, 257);
    assert_eq!(g.row_pitch_bytes, 2052);
    assert_eq!(g.total_bytes, 527364);
}

#[test]
fn geometry_exact_multiple_round_trip() {
    let c = select_format(true);
    let g = compute_geometry(512, 256, c);
    assert_eq!(g.blocks_wide, 128);
    assert_eq!(g.blocks_high, 64);
    assert_eq!(
        g.row_pitch_bytes as u64 * g.blocks_high as u64,
        g.total_bytes as u64
    );
}

#[test]
fn geometry_fallback_round_trip() {
    // Every dimension is a multiple of the 1x1 fallback block.
    let c = select_format(false);
    let g = compute_geometry(100, 50, c);
    assert_eq!(g.row_pitch_bytes, 400);
    assert_eq!(g.row_pitch_bytes * g.blocks_high, g.total_bytes);
}

#[test]
fn geometry_single_texel_image() {
    let c = select_format(true);
    let g = compute_geometry(1, 1, c);
    assert_eq!(g.blocks_wide, 1);
    assert_eq!(g.blocks_high, 1);
    assert_eq!(g.row_pitch_bytes, 16);
    assert_eq!(g.total_bytes, 16);
}

#[test]
fn geometry_checked_agrees_with_direct() {
    let c = select_format(false);
    let g = compute_geometry_checked(640, 480, c).unwrap();
    assert_eq!(g, compute_geometry(640, 480, c));
}

#[test]
fn geometry_checked_rejects_zero_dimension() {
    let c = select_format(true);
    assert!(compute_geometry_checked(0, 480, c).is_none());
    assert!(compute_geometry_checked(640, 0, c).is_none());
}

#[test]
fn geometry_checked_rejects_overflowing_size() {
    let c = select_format(true);
    assert!(compute_geometry_checked(u32::MAX, u32::MAX, c).is_none());
}

#[test]
fn geometry_checked_accepts_largest_fallback_row() {
    let c = select_format(false);
    // 1 x N fallback image: total bytes = 4 * N, the largest N that fits.
    let g = compute_geometry_checked(u32::MAX / 4, 1, c).unwrap();
    assert_eq!(g.total_bytes, (u32::MAX / 4) * 4);
}

#[test]
fn validate_reports_mismatch_iff_lengths_differ() {
    assert!(validate(134161, 134160));
    assert!(validate(0, 134160));
    assert!(!validate(134160, 134160));
    assert!(!validate(0, 0));
}

#[test]
fn failed_transcode_blocks_upload() {
    assert_eq!(
        decide_upload(false, 134160, 134160),
        UploadDecision::AbortTranscodeFailed
    );
    assert_eq!(
        decide_upload(false, 0, 134160),
        UploadDecision::AbortTranscodeFailed
    );
}

#[test]
fn size_mismatch_blocks_upload() {
    assert_eq!(
        decide_upload(true, 134161, 134160),
        UploadDecision::AbortSizeMismatch
    );
}

#[test]
fn matching_transcode_proceeds_to_upload() {
    assert_eq!(
        decide_upload(true, 134160, 134160),
        UploadDecision::Proceed
    );
}

#[test]
fn start_guard_runs_once() {
    let mut guard = StartGuard::new();
    assert!(guard.try_begin());
    assert!(!guard.try_begin());
    assert!(!guard.try_begin());
}

#[test]
fn transcode_request_targets_image_zero() {
    let c = select_format(true);
    let g = compute_geometry(513, 257, c);
    let r = plan_transcode(c, g);
    assert_eq!(r.image_index, 0);
    assert_eq!(r.level_index, 0);
    assert_eq!(r.transcoder_format, 6);
    assert_eq!(r.dest_len, 134160);
}

#[test]
fn texture_plan_is_plain_2d() {
    let c = select_format(true);
    let t = plan_texture(513, 257, c);
    assert_eq!(t.width, 513);
    assert_eq!(t.height, 257);
    assert_eq!(t.depth_or_array_layers, 1);
    assert_eq!(t.mip_level_count, 1);
    assert_eq!(t.sample_count, 1);
    assert_eq!(t.format, GpuFormat::Bc7RgbaUnormSrgb);
    assert!(t.usage_texture_binding);
    assert!(t.usage_copy_dst);
}

#[test]
fn upload_layout_uses_row_pitch_and_no_rows_per_image() {
    let c = select_format(true);
    let g = compute_geometry(513, 257, c);
    let l = plan_upload_layout(g);
    assert_eq!(l.offset, 0);
    assert_eq!(l.bytes_per_row, Some(2064));
    assert_eq!(l.rows_per_image, None);
}

#[test]
fn startup_plan_compressed_path() {
    let p = plan_startup(true, 513, 257).unwrap();
    assert_eq!(p.choice, select_format(true));
    assert_eq!(p.geometry.total_bytes, 134160);
}

#[test]
fn startup_plan_fallback_path() {
    let p = plan_startup(false, 513, 257).unwrap();
    assert_eq!(p.choice, select_format(false));
    assert_eq!(p.geometry.total_bytes, 527364);
}

#[test]
fn startup_plan_rejects_degenerate_image() {
    assert!(plan_startup(true, 0, 257).is_none());
    assert!(plan_startup(false, u32::MAX, u32::MAX).is_none());
}
