//! End-to-end decodes of hand-built TEX byte streams, covering both
//! variants, every error, and the exact-size decompression contract.

use tex_decode::{ColorFormat, Tex1002, Tex1005, TexError, TexFile, TexReader};

fn push_u32(out: &mut Vec<u8>, v: u32) {
    out.extend_from_slice(&v.to_le_bytes());
}

/// One sub-image entry as both variants lay it out, with `reserved` opaque
/// bytes between the color format tag and the payload length.
fn entry_bytes(width: u32, height: u32, tag: u32, reserved: usize, payload: &[u8]) -> Vec<u8> {
    let mut b = Vec::new();
    push_u32(&mut b, width);
    push_u32(&mut b, height);
    push_u32(&mut b, tag);
    b.extend_from_slice(&vec![0u8; reserved]);
    push_u32(&mut b, payload.len() as u32);
    b.extend_from_slice(payload);
    b
}

/// A whole single-image (version 1002) container around one entry.
fn single_bytes(width: u32, height: u32, tag: u32, payload: &[u8]) -> Vec<u8> {
    let mut b = Vec::new();
    push_u32(&mut b, 1002);
    b.extend_from_slice(&entry_bytes(width, height, tag, 40, payload));
    b
}

/// A whole multi-image (version 1005) container around the given entries.
fn multi_bytes(count: u32, entries: &[Vec<u8>]) -> Vec<u8> {
    let mut b = Vec::new();
    push_u32(&mut b, 1005);
    push_u32(&mut b, count);
    for e in entries {
        b.extend_from_slice(e);
    }
    b
}

fn decode(data: &[u8]) -> Result<TexFile, TexError> {
    let mut r = TexReader::new(data);
    TexFile::decode(&mut r)
}

#[test]
fn single_gray_concrete_scenario() {
    // width 2, height 1, Gray8 (tag 1), 40 zero reserved bytes, payload
    // decompressing to [10, 20]: exactly one sub-image with index 0.
    let payload = lz4_flex::block::compress(&[10, 20]);
    let data = single_bytes(2, 1, 1, &payload);
    let tex = decode(&data).unwrap();
    assert!(matches!(tex, TexFile::Single(_)));
    assert_eq!(tex.count(), 1);
    let images = tex.images();
    assert_eq!(images.len(), 1);
    let img = &images[0];
    assert_eq!(img.index, 0);
    assert_eq!(img.width, 2);
    assert_eq!(img.height, 1);
    assert_eq!(img.color_format, ColorFormat::Gray8);
    assert_eq!(img.raw_image, vec![10, 20]);
}

#[test]
fn single_rgba_tag_two_means_four_bytes_per_pixel() {
    // The wire tag for Rgba8 is 2 while its pixel width is 4 bytes.
    let pixels = [1u8, 2, 3, 4, 5, 6, 7, 8];
    let payload = lz4_flex::block::compress(&pixels);
    let data = single_bytes(2, 1, 2, &payload);
    let tex = decode(&data).unwrap();
    let images = tex.images();
    assert_eq!(images[0].color_format, ColorFormat::Rgba8);
    assert_eq!(images[0].color_format.bytes_per_pixel(), 4);
    assert_eq!(images[0].raw_image, pixels.to_vec());
}

#[test]
fn multi_three_images_in_stream_order() {
    let first = [7u8];
    let second = [9u8; 16];
    let third = [1u8, 2, 3];
    let entries = vec![
        entry_bytes(1, 1, 1, 52, &lz4_flex::block::compress(&first)),
        entry_bytes(2, 2, 2, 52, &lz4_flex::block::compress(&second)),
        entry_bytes(3, 1, 1, 52, &lz4_flex::block::compress(&third)),
    ];
    let data = multi_bytes(3, &entries);
    let tex = decode(&data).unwrap();
    assert!(matches!(tex, TexFile::Multi(_)));
    assert_eq!(tex.count(), 3);
    let images = tex.images();
    assert_eq!(images.len(), 3);
    for (i, img) in images.iter().enumerate() {
        assert_eq!(img.index, i);
        let bpp = img.color_format.bytes_per_pixel() as usize;
        assert_eq!(
            img.raw_image.len(),
            img.width as usize * img.height as usize * bpp
        );
    }
    assert_eq!(images[0].raw_image, first.to_vec());
    assert_eq!(images[1].raw_image, second.to_vec());
    assert_eq!(images[2].raw_image, third.to_vec());
}

#[test]
fn multi_zero_images() {
    let data = multi_bytes(0, &[]);
    let tex = decode(&data).unwrap();
    assert_eq!(tex.count(), 0);
    assert!(tex.images().is_empty());
}

#[test]
fn round_trip_through_compression_adapter() {
    // Compressing a synthetic pixel buffer and re-decoding it through the
    // adapter yields byte-identical data.
    let pixels: Vec<u8> = (0u8..=99).collect();
    let compressed = lz4_flex::block::compress(&pixels);
    // The adapter sees genuinely compressed bytes, not the raw buffer.
    assert_ne!(compressed, pixels);
    let out = tex_decode::lz4::decompress_exact(&compressed, pixels.len()).unwrap();
    assert_eq!(out, pixels);
}

#[test]
fn decompression_size_mismatch_fails() {
    // The payload really decompresses to 3 bytes, the header promises 2.
    let payload = lz4_flex::block::compress(&[1, 2, 3]);
    let data = single_bytes(2, 1, 1, &payload);
    assert_eq!(decode(&data).unwrap_err(), TexError::DecompressionFailure);
    // And a header promising more than the payload holds fails the same way,
    // never padding the buffer.
    let data = single_bytes(4, 1, 1, &payload);
    assert_eq!(decode(&data).unwrap_err(), TexError::DecompressionFailure);
}

#[test]
fn adapter_never_truncates_or_pads() {
    let payload = lz4_flex::block::compress(&[5, 6, 7, 8]);
    assert_eq!(
        tex_decode::lz4::decompress_exact(&payload, 3),
        Err(TexError::DecompressionFailure)
    );
    assert_eq!(
        tex_decode::lz4::decompress_exact(&payload, 5),
        Err(TexError::DecompressionFailure)
    );
    assert_eq!(
        tex_decode::lz4::decompress_exact(&payload, 4),
        Ok(vec![5, 6, 7, 8])
    );
}

#[test]
fn malformed_payload_fails() {
    // 0xff asks for a literal run far past the input's end.
    let data = single_bytes(1, 1, 1, &[0xff, 0xff, 0xff]);
    assert_eq!(decode(&data).unwrap_err(), TexError::DecompressionFailure);
}

#[test]
fn unknown_version_consumes_only_the_tag() {
    let mut data = Vec::new();
    push_u32(&mut data, 9999);
    data.extend_from_slice(&[1, 2, 3, 4, 5]);
    let mut r = TexReader::new(&data);
    let res = TexFile::decode(&mut r);
    assert_eq!(res.unwrap_err(), TexError::UnrecognizedVersion(9999));
    // Only the 4 tag bytes were read.
    assert_eq!(r.remaining_len(), 5);
}

#[test]
fn unknown_color_format_aborts_whole_container() {
    // First entry carries tag 7; the second would be valid on its own.
    let entries = vec![
        entry_bytes(1, 1, 7, 52, &lz4_flex::block::compress(&[1])),
        entry_bytes(1, 1, 1, 52, &lz4_flex::block::compress(&[2])),
    ];
    let data = multi_bytes(2, &entries);
    assert_eq!(decode(&data).unwrap_err(), TexError::UnknownColorFormat(7));
}

#[test]
fn truncated_payload_fails() {
    // The header announces a 1000-byte payload; only 10 bytes remain.
    let mut data = Vec::new();
    push_u32(&mut data, 1002);
    push_u32(&mut data, 2);
    push_u32(&mut data, 1);
    push_u32(&mut data, 1);
    data.extend_from_slice(&[0u8; 40]);
    push_u32(&mut data, 1000);
    data.extend_from_slice(&[0u8; 10]);
    assert_eq!(decode(&data).unwrap_err(), TexError::TruncatedOrMalformedStream);
}

#[test]
fn truncated_header_fails() {
    assert_eq!(decode(&[]).unwrap_err(), TexError::TruncatedOrMalformedStream);
    assert_eq!(
        decode(&[0x12, 0x34]).unwrap_err(),
        TexError::TruncatedOrMalformedStream
    );
    // Version tag alone, no body.
    assert_eq!(
        decode(&1002u32.to_le_bytes()).unwrap_err(),
        TexError::TruncatedOrMalformedStream
    );
    // Reserved region cut short.
    let mut data = Vec::new();
    push_u32(&mut data, 1002);
    push_u32(&mut data, 1);
    push_u32(&mut data, 1);
    push_u32(&mut data, 1);
    data.extend_from_slice(&[0u8; 20]);
    assert_eq!(decode(&data).unwrap_err(), TexError::TruncatedOrMalformedStream);
    // Multi variant with a count but no entry.
    let mut data = Vec::new();
    push_u32(&mut data, 1005);
    push_u32(&mut data, 1);
    assert_eq!(decode(&data).unwrap_err(), TexError::TruncatedOrMalformedStream);
}

#[test]
fn variant_decoders_read_the_body_alone() {
    // Tex1002 and Tex1005 parse the stream behind the version tag.
    let body = entry_bytes(1, 1, 1, 40, &lz4_flex::block::compress(&[42]));
    let mut r = TexReader::new(&body);
    let tex = Tex1002::decode(&mut r).unwrap();
    assert_eq!(tex.count(), 1);
    assert_eq!(tex.images()[0].raw_image, vec![42]);

    let mut body = Vec::new();
    push_u32(&mut body, 1);
    body.extend_from_slice(&entry_bytes(1, 1, 1, 52, &lz4_flex::block::compress(&[43])));
    let mut r = TexReader::new(&body);
    let tex = Tex1005::decode(&mut r).unwrap();
    assert_eq!(tex.count(), 1);
    assert_eq!(tex.images()[0].raw_image, vec![43]);
}

#[test]
fn labels_and_error_wording() {
    assert_eq!(ColorFormat::Gray8.label(), "GRAY 8");
    assert_eq!(ColorFormat::Rgba8.label(), "RGBA 8");
    assert_eq!(ColorFormat::from_tag(1), Ok(ColorFormat::Gray8));
    assert_eq!(ColorFormat::from_tag(2), Ok(ColorFormat::Rgba8));
    assert_eq!(
        ColorFormat::from_tag(4),
        Err(TexError::UnknownColorFormat(4))
    );
    assert_eq!(
        TexError::UnrecognizedVersion(9999).describe(),
        "unrecognized container version"
    );
    assert_eq!(
        TexError::DecompressionFailure.describe(),
        "decompression failed or size mismatch"
    );
}
