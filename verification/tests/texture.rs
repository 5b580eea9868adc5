use replicant_toolkit::bxon::{BxonAsset, BXON};
use replicant_toolkit::tex::TpGxTexHead;
use replicant_toolkit::Error;

fn put_u32(buf: &mut Vec<u8>, v: u32) {
    buf.extend_from_slice(&v.to_le_bytes());
}

fn patch_rel(buf: &mut Vec<u8>, field_pos: usize, target: usize) {
    let rel = (target - (field_pos + 4)) as u32;
    buf[field_pos..field_pos + 4].copy_from_slice(&rel.to_le_bytes());
}

/// A texture-head payload; each surface is (offset, size, width, height).
fn texhead_payload(
    width: u32,
    height: u32,
    depth: u32,
    mips: u32,
    size: u32,
    fmt: u32,
    surfaces: &[(u32, u32, u32, u32)],
) -> Vec<u8> {
    let mut b = Vec::new();
    put_u32(&mut b, width);
    put_u32(&mut b, height);
    put_u32(&mut b, depth);
    put_u32(&mut b, mips);
    put_u32(&mut b, size);
    put_u32(&mut b, 0);
    put_u32(&mut b, fmt);
    put_u32(&mut b, surfaces.len() as u32);
    put_u32(&mut b, 0); // surface table directly after the header
    for (off, sz, w, h) in surfaces {
        put_u32(&mut b, *off);
        put_u32(&mut b, 0);
        put_u32(&mut b, 0);
        put_u32(&mut b, 0);
        put_u32(&mut b, *sz);
        put_u32(&mut b, 0);
        put_u32(&mut b, *w);
        put_u32(&mut b, *h);
        put_u32(&mut b, 0);
        put_u32(&mut b, 0);
    }
    b
}

fn build_bxon(kind_name: &str, payload: &[u8]) -> Vec<u8> {
    let mut b = Vec::new();
    b.extend_from_slice(b"BXON");
    put_u32(&mut b, 1);
    put_u32(&mut b, 9);
    put_u32(&mut b, 0);
    put_u32(&mut b, 0);
    let type_pos = b.len();
    b.extend_from_slice(kind_name.as_bytes());
    b.push(0);
    while b.len() % 4 != 0 {
        b.push(0);
    }
    let data_pos = b.len();
    b.extend_from_slice(payload);
    patch_rel(&mut b, 12, type_pos);
    patch_rel(&mut b, 16, data_pos);
    b
}

/// The 148-byte image-container header this library synthesizes for a
/// simple 2D texture.
fn expected_dds_header(width: u32, height: u32, size: u32, dxgi: u32, alpha: u32) -> Vec<u8> {
    let mut h = Vec::new();
    h.extend_from_slice(b"DDS\x20");
    put_u32(&mut h, 124);
    put_u32(&mut h, 0x81007);
    put_u32(&mut h, height);
    put_u32(&mut h, width);
    put_u32(&mut h, size);
    put_u32(&mut h, 1); // depth
    put_u32(&mut h, 1); // layer count
    for _ in 0..11 {
        put_u32(&mut h, 0);
    }
    put_u32(&mut h, 32);
    put_u32(&mut h, 4);
    h.extend_from_slice(b"DX10");
    for _ in 0..5 {
        put_u32(&mut h, 0);
    }
    put_u32(&mut h, 0x1000); // caps
    put_u32(&mut h, 0); // caps2
    put_u32(&mut h, 0);
    put_u32(&mut h, 0);
    put_u32(&mut h, 0);
    put_u32(&mut h, dxgi);
    put_u32(&mut h, 3); // 2D resource dimension
    put_u32(&mut h, 0);
    put_u32(&mut h, 1);
    put_u32(&mut h, alpha);
    h
}

#[test]
fn parse_texture_head_with_surfaces() {
    let payload = texhead_payload(
        8,
        4,
        1,
        2,
        160,
        0x00010800,
        &[(0, 128, 8, 4), (128, 32, 4, 2)],
    );
    let t = TpGxTexHead::new(&payload, 0).unwrap();
    assert_eq!(t.width, 8);
    assert_eq!(t.height, 4);
    assert_eq!(t.depth, 1);
    assert_eq!(t.mip_count, 2);
    assert_eq!(t.size, 160);
    // The stored layer count mirrors the mip count.
    assert_eq!(t.surface_count, 2);
    assert_eq!(t.surfaces.len(), 2);
    assert_eq!(t.surfaces[0].size, 128);
    assert_eq!(t.surfaces[1].offset, 128);
    assert_eq!(t.surfaces[1].width, 4);
    assert_eq!(t.get_resource_size(), 160);
    assert!(t.resource.is_empty());
    assert!(t.dds_bytes.is_empty());
    assert!(t.png_images.is_empty());
}

#[test]
fn truncated_texture_head_is_io_error() {
    let payload = texhead_payload(4, 4, 1, 1, 64, 0x00010800, &[(0, 64, 4, 4)]);
    assert!(matches!(
        TpGxTexHead::new(&payload[..payload.len() - 1], 0),
        Err(Error::IoError)
    ));
}

#[test]
fn set_resource_synthesizes_container_and_decodes_images() {
    let payload = texhead_payload(4, 4, 1, 1, 64, 0x00010800, &[]);
    let mut t = TpGxTexHead::new(&payload, 0).unwrap();
    // A 4x4 RGBA8 gradient: exactly 64 bytes, as the header records.
    let pixels: Vec<u8> = (0u8..64).map(|k| k.wrapping_mul(4)).collect();
    t.set_resource(pixels.clone()).unwrap();
    assert_eq!(t.resource, pixels);

    let mut expected = expected_dds_header(4, 4, 64, 28, 2);
    expected.extend_from_slice(&pixels);
    assert_eq!(t.dds_bytes, expected);

    // One mip level decodes into one portable image, not the raw container.
    assert_eq!(t.png_images.len(), 1);
    assert_eq!(&t.png_images[0][..4], &[0x89, b'P', b'N', b'G']);
    assert_ne!(t.png_images[0], t.dds_bytes);
}

#[test]
fn set_resource_reports_size_mismatch_but_keeps_payload() {
    let payload = texhead_payload(4, 4, 1, 1, 64, 0x00010800, &[]);
    let mut t = TpGxTexHead::new(&payload, 0).unwrap();
    let short = vec![1u8, 2, 3, 4];
    assert_eq!(t.set_resource(short.clone()), Err(Error::CorruptData));
    assert_eq!(t.resource, short);
    let mut expected = expected_dds_header(4, 4, 64, 28, 2);
    expected.extend_from_slice(&short);
    assert_eq!(t.dds_bytes, expected);
}

#[test]
fn unknown_pixel_format_degrades_image_decoding_only() {
    let payload = texhead_payload(4, 4, 1, 1, 64, 0x0BAD0BAD, &[]);
    let mut t = TpGxTexHead::new(&payload, 0).unwrap();
    assert_eq!(t.format.to_u32(), 0x0BAD0BAD);
    let pixels = vec![0x7Fu8; 64];
    t.set_resource(pixels.clone()).unwrap();
    // The container bytes (for export) are still synthesized...
    assert_eq!(t.dds_bytes.len(), 148 + 64);
    assert_eq!(t.resource, pixels);
    // ...but no displayable image is decoded.
    assert!(t.png_images.is_empty());
}

#[test]
fn bxon_selects_texture_asset_by_type_string() {
    let data = build_bxon(
        "tpGxTexHead",
        &texhead_payload(4, 4, 1, 1, 64, 0x00010800, &[]),
    );
    let b = BXON::new(&data, 0).unwrap();
    assert_eq!(b.id, b"BXON".to_vec());
    assert_eq!(b.version, 1);
    assert_eq!(b.project_id, 9);
    assert_eq!(b.asset_type, b"tpGxTexHead".to_vec());
    assert_eq!(b.get_resource_size(), 64);
    assert!(matches!(b.asset, BxonAsset::TexHead(_)));
}

#[test]
fn bxon_unknown_type_keeps_string_and_discards_resources() {
    let data = build_bxon("tpWeirdThing", &[5, 6, 7, 8]);
    let mut b = BXON::new(&data, 0).unwrap();
    assert!(matches!(b.asset, BxonAsset::Unknown(ref u) if *u == b"tpWeirdThing".to_vec()));
    assert_eq!(b.get_resource_size(), 0);
    // Externally supplied bytes are accepted and silently discarded.
    assert_eq!(b.set_resource(vec![1, 2, 3]), Ok(()));
    assert_eq!(b.get_resource_size(), 0);
}

#[test]
fn truncated_bxon_header_is_io_error() {
    assert!(matches!(
        BXON::new(b"BXON\x01\x00\x00\x00", 0),
        Err(Error::IoError)
    ));
}
