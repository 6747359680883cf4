use avif_serialize::boxes::IlocOffset;
use avif_serialize::boxes::MpegBox;
use avif_serialize::constants;
use avif_serialize::serialize_to_vec;
use avif_serialize::Aviffy;
use avif_serialize::FrameInfo;

#[test]
fn test_roundtrip_parse_mp4() {
    let test_img = b"av12356abc";
    let avif = serialize_to_vec(test_img, None, 10, 20, 8, 1, None, None);

    let ctx = mp4parse::read_avif(&mut avif.as_slice(), mp4parse::ParseStrictness::Normal).unwrap();

    assert_eq!(&test_img[..], ctx.primary_item_coded_data().unwrap());
}

#[test]
fn test_roundtrip_parse_mp4_alpha() {
    let test_img = b"av12356abc";
    let test_a = b"alpha";
    let avif = serialize_to_vec(test_img, Some(test_a), 10, 20, 8, 1, None, None);

    let ctx = mp4parse::read_avif(&mut avif.as_slice(), mp4parse::ParseStrictness::Normal).unwrap();

    assert_eq!(&test_img[..], ctx.primary_item_coded_data().unwrap());
    assert_eq!(&test_a[..], ctx.alpha_item_coded_data().unwrap());
}

#[test]
fn test_roundtrip_parse_avif() {
    let test_img = [1, 2, 3, 4, 5, 6];
    let test_alpha = [77, 88, 99];
    let avif = serialize_to_vec(&test_img, Some(&test_alpha), 10, 20, 8, 1, None, None);

    let ctx = avif_parse::read_avif(&mut avif.as_slice()).unwrap();

    assert_eq!(&test_img[..], ctx.primary_item.as_slice());
    assert_eq!(&test_alpha[..], ctx.alpha_item.as_deref().unwrap());
}

#[test]
fn test_roundtrip_parse_avif_colr() {
    let test_img = [1, 2, 3, 4, 5, 6];
    let test_alpha = [77, 88, 99];
    let avif = Aviffy::new()
        .matrix_coefficients(constants::MatrixCoefficients::Bt709)
        .to_vec(&test_img, Some(&test_alpha), 10, 20, 8, 1, None, None);

    let ctx = avif_parse::read_avif(&mut avif.as_slice()).unwrap();

    assert_eq!(&test_img[..], ctx.primary_item.as_slice());
    assert_eq!(&test_alpha[..], ctx.alpha_item.as_deref().unwrap());
}

#[test]
fn premultiplied_flag() {
    let test_img = [1, 2, 3, 4];
    let test_alpha = [55, 66, 77, 88, 99];
    let avif = Aviffy::new()
        .premultiplied_alpha(true)
        .to_vec(&test_img, Some(&test_alpha), 5, 5, 8, 1, None, None);

    let ctx = avif_parse::read_avif(&mut avif.as_slice()).unwrap();

    assert!(ctx.premultiplied_alpha);
    assert_eq!(&test_img[..], ctx.primary_item.as_slice());
    assert_eq!(&test_alpha[..], ctx.alpha_item.as_deref().unwrap());
}

fn frame(duration: u64, sync: bool, size: u32) -> FrameInfo {
    FrameInfo {
        duration_in_timescales: duration,
        sync,
        size,
    }
}

#[test]
fn duration_runs_compress() {
    let frames: Vec<FrameInfo> = vec![
        frame(1, true, 0),
        frame(1, true, 0),
        frame(1, true, 0),
        frame(2, true, 0),
        frame(2, true, 0),
    ];
    let runs = avif_serialize::tables::build_duration_runs(&frames);
    assert_eq!(runs.len(), 2);
    assert_eq!(runs[0].sample_count, 3);
    assert_eq!(runs[0].sample_delta, 1);
    assert_eq!(runs[1].sample_count, 2);
    assert_eq!(runs[1].sample_delta, 2);
}

#[test]
fn duration_runs_single() {
    let frames: Vec<FrameInfo> = vec![frame(5, true, 0)];
    let runs = avif_serialize::tables::build_duration_runs(&frames);
    assert_eq!(runs.len(), 1);
    assert_eq!(runs[0].sample_count, 1);
    assert_eq!(runs[0].sample_delta, 5);
}

#[test]
fn duration_runs_empty() {
    let frames: Vec<FrameInfo> = vec![];
    let runs = avif_serialize::tables::build_duration_runs(&frames);
    assert_eq!(runs.len(), 0);
}

#[test]
fn sync_table_omitted_when_all_sync() {
    let frames: Vec<FrameInfo> = vec![frame(1, true, 0), frame(1, true, 0), frame(1, true, 0)];
    let stss = avif_serialize::tables::build_sync_table(&frames);
    assert!(stss.is_none());
}

#[test]
fn sync_table_lists_sync_frames() {
    let frames: Vec<FrameInfo> = vec![
        frame(1, true, 0),
        frame(1, false, 0),
        frame(1, true, 0),
        frame(1, false, 0),
    ];
    let stss = avif_serialize::tables::build_sync_table(&frames).unwrap();
    assert_eq!(stss.entry_count, 2);
    assert_eq!(stss.sample_number, vec![1, 3]);
}

#[test]
fn absolute_offset_still() {
    // 10x20 8-bit still with a 10-byte color payload and no alpha: the
    // resolved offset is the type box (28) + metadata box (222) + payload
    // box header (8).
    let payload = b"0123456789";
    let a = Aviffy::new();
    let mut file = a.make_boxes(payload, None, 10, 20, 8, 1, None, None);
    file.fix_iloc_positions();
    assert_eq!(
        file.meta.iloc.items[0].extents[0].offset,
        IlocOffset::Absolute(28 + 222 + 8)
    );
    assert_eq!(file.meta.iloc.items[0].extents[0].len, 10);

    let bytes = a.to_vec(payload, None, 10, 20, 8, 1, None, None);
    assert_eq!(bytes.len(), 28 + 222 + 8 + 10);
    assert_eq!(&bytes[258..], &payload[..]);
}

#[test]
fn interleave_alpha_before_color() {
    let color = b"colorpayload";
    let alpha = b"alpha";
    let a = Aviffy::new();
    let mut file = a.make_boxes(color, Some(alpha), 10, 20, 8, 1, None, None);
    file.fix_iloc_positions();
    // base = ftyp (28) + metadata with alpha (377) + payload header (8)
    let base = 28 + 377 + 8;
    assert_eq!(
        file.meta.iloc.items[0].extents[0].offset,
        IlocOffset::Absolute(base + alpha.len() as u32)
    );
    assert_eq!(
        file.meta.iloc.items[1].extents[0].offset,
        IlocOffset::Absolute(base)
    );

    let bytes = a.to_vec(color, Some(alpha), 10, 20, 8, 1, None, None);
    let tail = &bytes[bytes.len() - color.len() - alpha.len()..];
    assert_eq!(&tail[..alpha.len()], &alpha[..]);
    assert_eq!(&tail[alpha.len()..], &color[..]);
}

#[test]
fn colr_box_adds_to_length() {
    let payload = b"0123456789";
    let plain = Aviffy::new().to_vec(payload, None, 10, 20, 8, 1, None, None);
    let with_colr = Aviffy::new()
        .matrix_coefficients(constants::MatrixCoefficients::Bt709)
        .to_vec(payload, None, 10, 20, 8, 1, None, None);
    // A colr box (19 bytes) plus its one-byte association entry.
    assert_eq!(with_colr.len(), plain.len() + 20);
}

#[test]
fn track_offsets_accumulate() {
    let color = b"ccccc1";
    let alpha = b"aaa4";
    let color_frames = vec![frame(1, true, 3), frame(1, true, 3)];
    let alpha_frames = vec![frame(1, true, 2), frame(1, true, 2)];
    let a = Aviffy::new();
    let mut file = a.make_boxes(
        color,
        Some(alpha),
        10,
        20,
        8,
        30,
        Some(&color_frames),
        Some(&alpha_frames),
    );
    let mut out = Vec::new();
    file.write(&mut out);
    let moov = file.moov.as_ref().unwrap();
    let color_stco = moov.tracks[0].mdia.minf.stbl.stco.chunk_offset;
    let alpha_stco = moov.tracks[1].mdia.minf.stbl.stco.chunk_offset;
    // The alpha samples sit first in the payload; the color track's chunk
    // starts after all of the alpha track's sample bytes (2 + 2).
    assert_eq!(color_stco, alpha_stco + 4);
    // The payload itself is alpha bytes then color bytes.
    let tail = &out[out.len() - color.len() - alpha.len()..];
    assert_eq!(&tail[..alpha.len()], &alpha[..]);
    assert_eq!(&tail[alpha.len()..], &color[..]);
}

#[test]
fn animated_brands() {
    let color = b"xx";
    let frames = vec![frame(1, true, 2)];
    let bytes = Aviffy::new().to_vec(color, None, 4, 4, 8, 10, Some(&frames), None);
    // "avis" major brand for image sequences
    assert_eq!(&bytes[8..12], b"avis");
    // still images keep "avif"
    let still = Aviffy::new().to_vec(color, None, 4, 4, 8, 10, None, None);
    assert_eq!(&still[8..12], b"avif");
}

#[test]
fn sync_table_in_animated_file() {
    let color = b"xyz";
    let all_sync = vec![frame(1, true, 1), frame(1, true, 1), frame(1, true, 1)];
    let mixed = vec![frame(1, true, 1), frame(1, false, 1), frame(1, true, 1)];
    let a = Aviffy::new();
    let f1 = a.make_boxes(color, None, 4, 4, 8, 10, Some(&all_sync), None);
    assert!(f1.moov.as_ref().unwrap().tracks[0]
        .mdia
        .minf
        .stbl
        .stss
        .is_none());
    let f2 = a.make_boxes(color, None, 4, 4, 8, 10, Some(&mixed), None);
    let stss = f2.moov.as_ref().unwrap().tracks[0]
        .mdia
        .minf
        .stbl
        .stss
        .as_ref()
        .unwrap();
    assert_eq!(stss.entry_count, 2);
    assert_eq!(stss.sample_number, vec![1, 3]);
}

#[test]
fn big_endian_primitives() {
    let mut v = Vec::new();
    avif_serialize::writer::push_u32(&mut v, 0x12345678);
    assert_eq!(v, vec![0x12, 0x34, 0x56, 0x78]);
    let mut w = Vec::new();
    avif_serialize::writer::push_u16(&mut w, 0xABCD);
    avif_serialize::writer::push_u64(&mut w, 1);
    assert_eq!(w, vec![0xAB, 0xCD, 0, 0, 0, 0, 0, 0, 0, 1]);
}

#[test]
fn length_matches_written_bytes() {
    // The reported length of the assembled tree equals the bytes written.
    let payload = b"some-coded-bytes";
    let alpha = b"some-alpha";
    let a = Aviffy::new();
    let mut file = a.make_boxes(payload, Some(alpha), 64, 64, 10, 1, None, None);
    let expected = file.ftyp.len() + file.meta.len() + file.mdat.len();
    let mut out = Vec::new();
    file.write(&mut out);
    assert_eq!(out.len(), expected);
}

#[test]
fn serialize_appends_to_sink() {
    let payload = b"payload-bytes";
    let mut sink = vec![0xEEu8, 0xFF];
    avif_serialize::serialize(&mut sink, payload, None, 10, 20, 8, 1, None, None);
    let expected = serialize_to_vec(payload, None, 10, 20, 8, 1, None, None);
    assert_eq!(&sink[..2], &[0xEE, 0xFF]);
    assert_eq!(&sink[2..], &expected[..]);
}

#[test]
fn full_color_description_roundtrip() {
    let test_img = [9, 8, 7, 6];
    let avif = Aviffy::new()
        .color_primaries(constants::ColorPrimaries::Bt2020)
        .transfer_characteristics(constants::TransferCharacteristics::Smpte2084)
        .matrix_coefficients(constants::MatrixCoefficients::Bt2020Ncl)
        .full_color_range(false)
        .to_vec(&test_img, None, 8, 8, 10, 1, None, None);
    let plain = Aviffy::new().to_vec(&test_img, None, 8, 8, 10, 1, None, None);
    // the color description box and its association entry are emitted
    assert_eq!(avif.len(), plain.len() + 20);
    let ctx = avif_parse::read_avif(&mut avif.as_slice()).unwrap();
    assert_eq!(&test_img[..], ctx.primary_item.as_slice());
}

#[test]
fn zero_frames_animation() {
    // An explicitly-empty frame list is accepted and yields empty tables.
    let color = b"x";
    let frames: Vec<FrameInfo> = vec![];
    let a = Aviffy::new();
    let file = a.make_boxes(color, None, 4, 4, 8, 10, Some(&frames), None);
    let stbl = &file.moov.as_ref().unwrap().tracks[0].mdia.minf.stbl;
    assert_eq!(stbl.stts.sample_delta.len(), 0);
    assert_eq!(stbl.stsz.entry_size.len(), 0);
    assert!(stbl.stss.is_none());
    let bytes = a.to_vec(color, None, 4, 4, 8, 10, Some(&frames), None);
    assert_eq!(*bytes.last().unwrap(), b'x');
}
