use led_matrix::canvas::Canvas;
use led_matrix::chunk::paginate_frames;
use led_matrix::geometry::PanelGeometry;
use led_matrix::payload::strip_payload_prefix;
use led_matrix::slice::{slice_frame_triples, slice_frame_values, validate_dimensions, PixelMode};
use led_matrix::textfmt::{count_json_string, dec_string};
use led_matrix::PipelineError;

fn canvas_2x1() -> Canvas {
    Canvas { width: 2, height: 1, pixels: vec![10, 20, 30, 255, 40, 50, 60, 255] }
}

#[test]
fn decimal_rendering() {
    assert_eq!(dec_string(0), "0");
    assert_eq!(dec_string(7), "7");
    assert_eq!(dec_string(42), "42");
    assert_eq!(dec_string(907), "907");
    assert_eq!(dec_string(120034), "120034");
}

#[test]
fn count_record_rendering() {
    assert_eq!(count_json_string(0), "{ \"total_frames\": 0 }");
    assert_eq!(count_json_string(356), "{ \"total_frames\": 356 }");
}

#[test]
fn payload_prefix_stripping() {
    assert_eq!(strip_payload_prefix(&b"header,data".to_vec()), b"data".to_vec());
    assert_eq!(strip_payload_prefix(&b"a,b,final".to_vec()), b"final".to_vec());
    assert_eq!(strip_payload_prefix(&b"nocomma".to_vec()), b"nocomma".to_vec());
    assert_eq!(strip_payload_prefix(&b"trailing,".to_vec()), Vec::<u8>::new());
    assert_eq!(strip_payload_prefix(&Vec::new()), Vec::<u8>::new());
}

#[test]
fn canvas_channel_access() {
    let c = canvas_2x1();
    assert_eq!(c.channels(0, 0), (10, 20, 30));
    assert_eq!(c.channels(1, 0), (40, 50, 60));
}

#[test]
fn slicer_splits_columns_into_panels() {
    let c = canvas_2x1();
    let g = PanelGeometry { panel_count: 2, rows: 1, cols: 1 };
    let triples = slice_frame_triples(&c, &g);
    assert_eq!(triples, vec![vec![vec![vec![10, 20, 30]]], vec![vec![vec![40, 50, 60]]]]);
    let packed = slice_frame_values(&c, &g, PixelMode::Packed);
    assert_eq!(packed, vec![vec![vec![(10 << 16) | (20 << 8) | 30]],
        vec![vec![(40 << 16) | (50 << 8) | 60]]]);
    let flat = slice_frame_values(&c, &g, PixelMode::Triple);
    assert_eq!(flat, vec![vec![vec![10, 20, 30]], vec![vec![40, 50, 60]]]);
}

#[test]
fn dimension_validation() {
    let c = canvas_2x1();
    let fits = PanelGeometry { panel_count: 2, rows: 1, cols: 1 };
    assert_eq!(validate_dimensions(&c, &fits), Ok(()));
    let wrong = PanelGeometry { panel_count: 3, rows: 1, cols: 2 };
    assert_eq!(validate_dimensions(&c, &wrong), Err(PipelineError::DimensionMismatch {
        got_width: 2,
        got_height: 1,
        expected_width: 6,
        expected_height: 1,
    }));
}

#[test]
fn error_messages_name_the_stage_and_values() {
    assert_eq!(PipelineError::PayloadDecode.message(), "Failed to decode base64");
    assert_eq!(PipelineError::UnrecognizedFormat.message(), "Failed to determine image format");
    assert_eq!(PipelineError::StillDecode.message(), "Failed to decode image");
    assert_eq!(PipelineError::AnimationDecode.message(), "Failed to decode GIF");
    assert_eq!(PipelineError::FrameDecode { frame: 17 }.message(),
        "Failed to decode GIF frame 17");
    let mismatch = PipelineError::DimensionMismatch {
        got_width: 320,
        got_height: 200,
        expected_width: 64,
        expected_height: 8,
    };
    assert_eq!(mismatch.message(), "Image dimensions do not match: got 320x200, expected 64x8");
    let range = PipelineError::ChunkOutOfRange { chunk_start: 12, total_frames: 10 };
    assert_eq!(range.message(), "Chunk start 12 exceeds total frames 10");
    assert_eq!(PipelineError::Serialization.message(), "Failed to serialize panel data");
}

#[test]
fn paginator_touches_only_requested_frames() {
    let frames = vec![Some(canvas_2x1()), None];
    let g = PanelGeometry { panel_count: 2, rows: 1, cols: 1 };
    let good = paginate_frames(&frames, &g, 0, 1, PixelMode::Packed);
    assert_eq!(good, Ok(vec![vec![vec![vec![(10 << 16) | (20 << 8) | 30]],
        vec![vec![(40 << 16) | (50 << 8) | 60]]]]));
    let bad = paginate_frames(&frames, &g, 0, 2, PixelMode::Packed);
    assert_eq!(bad, Err(PipelineError::FrameDecode { frame: 1 }));
    let past = paginate_frames(&frames, &g, 2, 1, PixelMode::Packed);
    assert_eq!(past, Err(PipelineError::ChunkOutOfRange { chunk_start: 2, total_frames: 2 }));
}
