use base64::Engine;
use image::codecs::gif::GifEncoder;
use image::{Frame, ImageFormat, Rgb, RgbImage, Rgba, RgbaImage};
use led_matrix::{decode_gif, decode_image, process_gif_data, process_gif_frames_chunked,
    PipelineError};

fn png_bytes(width: u32, height: u32, px: impl Fn(u32, u32) -> [u8; 3]) -> Vec<u8> {
    let img = RgbImage::from_fn(width, height, |x, y| Rgb(px(x, y)));
    let mut buf = std::io::Cursor::new(Vec::new());
    img.write_to(&mut buf, ImageFormat::Png).unwrap();
    buf.into_inner()
}

fn to_b64(bytes: &[u8]) -> String {
    base64::engine::general_purpose::STANDARD.encode(bytes)
}

fn still_px(x: u32, y: u32) -> [u8; 3] {
    [(x as u8) * 20, (y as u8) * 20, (x + y) as u8]
}

fn gif_px(f: u32, x: u32, y: u32) -> [u8; 3] {
    [(x as u8) * 16 + 3, (y as u8) * 16 + 7, (f as u8) * 32 + 11]
}

fn gif_bytes(frames: u32, width: u32, height: u32) -> Vec<u8> {
    let mut bytes: Vec<u8> = Vec::new();
    {
        let mut enc = GifEncoder::new(&mut bytes);
        for f in 0..frames {
            let img = RgbaImage::from_fn(width, height, |x, y| {
                let [r, g, b] = gif_px(f, x, y);
                Rgba([r, g, b, 255])
            });
            enc.encode_frame(Frame::new(img)).unwrap();
        }
    }
    bytes
}

/// The triple-mode panel matrix the slicer owes for one frame of pixels.
fn expected_triples(px: impl Fn(u32, u32) -> [u8; 3], panel_count: u32, rows: u32, cols: u32)
    -> Vec<Vec<Vec<Vec<u8>>>> {
    let mut panels = Vec::new();
    for p in 0..panel_count {
        let mut panel = Vec::new();
        for y in 0..rows {
            let mut row = Vec::new();
            for x in (p * cols)..((p + 1) * cols) {
                row.push(px(x, y).to_vec());
            }
            panel.push(row);
        }
        panels.push(panel);
    }
    panels
}

/// The flat-cell panel matrix one chunked frame owes, packed or triple.
fn expected_values(px: impl Fn(u32, u32) -> [u8; 3], panel_count: u32, rows: u32, cols: u32,
    packed: bool) -> Vec<Vec<Vec<u32>>> {
    let mut panels = Vec::new();
    for p in 0..panel_count {
        let mut panel = Vec::new();
        for y in 0..rows {
            let mut row = Vec::new();
            for x in (p * cols)..((p + 1) * cols) {
                let [r, g, b] = px(x, y);
                if packed {
                    row.push(((r as u32) << 16) | ((g as u32) << 8) | (b as u32));
                } else {
                    row.push(r as u32);
                    row.push(g as u32);
                    row.push(b as u32);
                }
            }
            panel.push(row);
        }
        panels.push(panel);
    }
    panels
}

#[test]
fn still_image_slices_into_panels() {
    let data = to_b64(&png_bytes(8, 4, still_px));
    let got = decode_image(&data, 2, 4, 4).unwrap();
    let expected = serde_json::to_string(&expected_triples(still_px, 2, 4, 4)).unwrap();
    assert_eq!(got, expected);
}

#[test]
fn still_image_other_container_formats() {
    let img = RgbImage::from_fn(8, 4, |x, y| Rgb(still_px(x, y)));
    let mut buf = std::io::Cursor::new(Vec::new());
    img.write_to(&mut buf, ImageFormat::Bmp).unwrap();
    let got = decode_image(&to_b64(&buf.into_inner()), 2, 4, 4).unwrap();
    let expected = serde_json::to_string(&expected_triples(still_px, 2, 4, 4)).unwrap();
    assert_eq!(got, expected);
}

#[test]
fn still_image_with_data_uri_prefix() {
    let bare = to_b64(&png_bytes(8, 4, still_px));
    let prefixed = format!("data:image/png;base64,{}", bare);
    assert_eq!(decode_image(&prefixed, 2, 4, 4).unwrap(), decode_image(&bare, 2, 4, 4).unwrap());
}

#[test]
fn still_dimension_mismatch_reports_values() {
    let data = to_b64(&png_bytes(5, 4, still_px));
    let got = decode_image(&data, 2, 4, 4);
    assert_eq!(got, Err(PipelineError::DimensionMismatch {
        got_width: 5,
        got_height: 4,
        expected_width: 8,
        expected_height: 4,
    }));
}

#[test]
fn still_height_mismatch_reports_values() {
    let data = to_b64(&png_bytes(8, 3, still_px));
    let got = decode_image(&data, 2, 4, 4);
    assert_eq!(got, Err(PipelineError::DimensionMismatch {
        got_width: 8,
        got_height: 3,
        expected_width: 8,
        expected_height: 4,
    }));
}

#[test]
fn malformed_payload_fails_with_payload_decode() {
    assert_eq!(decode_image("!!!not base64!!!", 2, 4, 4), Err(PipelineError::PayloadDecode));
    assert_eq!(decode_gif("also not base64...", 2, 4, 4), Err(PipelineError::PayloadDecode));
    assert_eq!(process_gif_frames_chunked("%%%", 2, 4, 4, 0, 2, None),
        Err(PipelineError::PayloadDecode));
}

#[test]
fn garbage_bytes_fail_with_unrecognized_format() {
    let data = to_b64(b"these bytes are no image at all, honestly");
    assert_eq!(decode_image(&data, 2, 4, 4), Err(PipelineError::UnrecognizedFormat));
}

#[test]
fn truncated_png_fails_with_still_decode() {
    let whole = png_bytes(8, 4, still_px);
    let data = to_b64(&whole[..whole.len() / 2]);
    assert_eq!(decode_image(&data, 2, 4, 4), Err(PipelineError::StillDecode));
}

#[test]
fn gif_full_decode_matches_expected() {
    let data = to_b64(&gif_bytes(2, 8, 4));
    let got = decode_gif(&data, 2, 4, 4).unwrap();
    let expected: Vec<Vec<Vec<Vec<Vec<u8>>>>> = (0..2)
        .map(|f| expected_triples(|x, y| gif_px(f, x, y), 2, 4, 4))
        .collect();
    assert_eq!(got, serde_json::to_string(&expected).unwrap());
}

#[test]
fn gif_dimension_mismatch_reports_values() {
    let data = to_b64(&gif_bytes(2, 8, 4));
    let got = decode_gif(&data, 1, 4, 4);
    assert_eq!(got, Err(PipelineError::DimensionMismatch {
        got_width: 8,
        got_height: 4,
        expected_width: 4,
        expected_height: 4,
    }));
    let chunked = process_gif_frames_chunked(&data, 1, 4, 4, 0, 2, None);
    assert_eq!(chunked, Err(PipelineError::DimensionMismatch {
        got_width: 8,
        got_height: 4,
        expected_width: 4,
        expected_height: 4,
    }));
}

#[test]
fn undecodable_gif_container_fails() {
    let data = to_b64(b"GIF89a");
    assert_eq!(decode_gif(&data, 2, 4, 4), Err(PipelineError::AnimationDecode));
}

#[test]
fn chunk_size_zero_returns_total_frames() {
    let data = to_b64(&gif_bytes(3, 8, 4));
    let got = process_gif_frames_chunked(&data, 2, 4, 4, 0, 0, None).unwrap();
    assert_eq!(got, "{ \"total_frames\": 3 }");
    let far = process_gif_frames_chunked(&data, 2, 4, 4, 99, 0, None).unwrap();
    assert_eq!(far, "{ \"total_frames\": 3 }");
}

#[test]
fn count_json_multidigit() {
    let data = to_b64(&gif_bytes(12, 1, 1));
    let got = process_gif_frames_chunked(&data, 1, 1, 1, 0, 0, None).unwrap();
    assert_eq!(got, "{ \"total_frames\": 12 }");
}

#[test]
fn chunk_start_out_of_range() {
    let data = to_b64(&gif_bytes(3, 8, 4));
    let got = process_gif_frames_chunked(&data, 2, 4, 4, 3, 2, None);
    assert_eq!(got, Err(PipelineError::ChunkOutOfRange { chunk_start: 3, total_frames: 3 }));
}

#[test]
fn scenario_two_panel_three_frame_chunk() {
    let data = to_b64(&gif_bytes(3, 8, 4));
    let got = process_gif_frames_chunked(&data, 2, 4, 4, 1, 5, None).unwrap();
    let frames: Vec<Vec<Vec<Vec<u32>>>> = serde_json::from_str(&got).unwrap();
    assert_eq!(frames.len(), 2);
    for (i, frame) in frames.iter().enumerate() {
        let f = (i + 1) as u32;
        assert_eq!(frame.len(), 2);
        for panel in frame {
            assert_eq!(panel.len(), 4);
            for row in panel {
                assert_eq!(row.len(), 12);
            }
        }
        assert_eq!(*frame, expected_values(|x, y| gif_px(f, x, y), 2, 4, 4, false));
    }
}

#[test]
fn packed_and_triple_agree() {
    let data = to_b64(&gif_bytes(2, 8, 4));
    let packed_json = process_gif_frames_chunked(&data, 2, 4, 4, 0, 2, Some(true)).unwrap();
    let triple_json = process_gif_frames_chunked(&data, 2, 4, 4, 0, 2, None).unwrap();
    let packed: Vec<Vec<Vec<Vec<u32>>>> = serde_json::from_str(&packed_json).unwrap();
    let triple: Vec<Vec<Vec<Vec<u32>>>> = serde_json::from_str(&triple_json).unwrap();
    assert_eq!(packed.len(), triple.len());
    for (pf, tf) in packed.iter().zip(triple.iter()) {
        for (pp, tp) in pf.iter().zip(tf.iter()) {
            for (pr, tr) in pp.iter().zip(tp.iter()) {
                assert_eq!(pr.len() * 3, tr.len());
                for (x, v) in pr.iter().enumerate() {
                    assert!(*v <= 0xFFFFFF);
                    assert_eq!((v >> 16) & 0xFF, tr[3 * x]);
                    assert_eq!((v >> 8) & 0xFF, tr[3 * x + 1]);
                    assert_eq!(v & 0xFF, tr[3 * x + 2]);
                }
            }
        }
    }
}

#[test]
fn chunked_concatenation_matches_full() {
    let data = to_b64(&gif_bytes(5, 8, 4));
    let full: Vec<Vec<Vec<Vec<u32>>>> =
        serde_json::from_str(&process_gif_frames_chunked(&data, 2, 4, 4, 0, 5, Some(true))
            .unwrap()).unwrap();
    let mut glued: Vec<Vec<Vec<Vec<u32>>>> = Vec::new();
    for start in [0usize, 2, 4] {
        let chunk: Vec<Vec<Vec<Vec<u32>>>> =
            serde_json::from_str(&process_gif_frames_chunked(&data, 2, 4, 4, start, 2,
                Some(true)).unwrap()).unwrap();
        glued.extend(chunk);
    }
    assert_eq!(glued, full);
}

#[test]
fn final_chunk_may_be_short() {
    let data = to_b64(&gif_bytes(3, 8, 4));
    let got = process_gif_frames_chunked(&data, 2, 4, 4, 2, 2, Some(true)).unwrap();
    let frames: Vec<Vec<Vec<Vec<u32>>>> = serde_json::from_str(&got).unwrap();
    assert_eq!(frames.len(), 1);
    assert_eq!(frames[0], expected_values(|x, y| gif_px(2, x, y), 2, 4, 4, true));
}

#[test]
fn path_variant_defaults_to_whole_sequence() {
    let raw = gif_bytes(3, 8, 4);
    let got = process_gif_data(&raw, 2, 4, 4, None, None, None).unwrap();
    let expected: Vec<Vec<Vec<Vec<u32>>>> = (0..3)
        .map(|f| expected_values(|x, y| gif_px(f, x, y), 2, 4, 4, true))
        .collect();
    assert_eq!(got, serde_json::to_string(&expected).unwrap());
}

#[test]
fn path_variant_counts_frames() {
    let raw = gif_bytes(3, 8, 4);
    let got = process_gif_data(&raw, 2, 4, 4, None, None, Some(true)).unwrap();
    assert_eq!(got, "{ \"total_frames\": 3 }");
}

#[test]
fn path_variant_window() {
    let raw = gif_bytes(3, 8, 4);
    let got = process_gif_data(&raw, 2, 4, 4, Some(1), Some(1), None).unwrap();
    let expected = vec![expected_values(|x, y| gif_px(1, x, y), 2, 4, 4, true)];
    assert_eq!(got, serde_json::to_string(&expected).unwrap());
}

#[test]
fn path_variant_out_of_range() {
    let raw = gif_bytes(3, 8, 4);
    let got = process_gif_data(&raw, 2, 4, 4, Some(5), Some(1), None);
    assert_eq!(got, Err(PipelineError::ChunkOutOfRange { chunk_start: 5, total_frames: 3 }));
    let undecodable = process_gif_data(&b"nothing like a gif".to_vec(), 2, 4, 4, None, None,
        None);
    assert_eq!(undecodable, Err(PipelineError::AnimationDecode));
}

#[test]
fn path_variant_explicit_zero_size_counts() {
    let raw = gif_bytes(3, 8, 4);
    let got = process_gif_data(&raw, 2, 4, 4, Some(1), Some(0), None).unwrap();
    assert_eq!(got, "{ \"total_frames\": 3 }");
    let flagged = process_gif_data(&raw, 2, 4, 4, None, Some(0), Some(false)).unwrap();
    assert_eq!(flagged, "{ \"total_frames\": 3 }");
}

#[test]
fn truncated_gif_stops_at_first_bad_frame() {
    let whole = gif_bytes(2, 8, 4);
    let cut = whole[..whole.len() - 8].to_vec();
    let data = to_b64(&cut);
    assert!(matches!(decode_gif(&data, 2, 4, 4), Err(PipelineError::FrameDecode { .. })));
    assert!(matches!(process_gif_data(&cut, 2, 4, 4, None, None, None),
        Err(PipelineError::FrameDecode { .. })));
}
