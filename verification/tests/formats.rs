use replicant_toolkit::tex::XonSurfaceDXGIFormat;

const TABLE: [(u32, u32); 17] = [
    (0x00010700, 28),
    (0x00010800, 28),
    (0x00010A00, 61),
    (0x00010B00, 29),
    (0x00010F00, 71),
    (0x00011000, 72),
    (0x00011100, 74),
    (0x00011200, 75),
    (0x00011300, 77),
    (0x00011400, 78),
    (0x00011500, 80),
    (0x00011600, 83),
    (0x00011900, 98),
    (0x00021700, 71),
    (0x00021A00, 99),
    (0x00030000, 2),
    (0x00031700, 95),
];

#[test]
fn documented_codes_map_to_documented_standard_codes() {
    for (code, dxgi) in TABLE.iter() {
        let f = XonSurfaceDXGIFormat::from_u32(*code);
        assert_eq!(f.to_dxgi_format(), *dxgi, "code {code:#X}");
        assert_eq!(f.to_u32(), *code);
        assert!(!matches!(f, XonSurfaceDXGIFormat::UNKNOWN(_)));
    }
}

#[test]
fn undocumented_codes_pass_through_as_unknown() {
    for code in [0u32, 1, 0x00010701, 0xDEADBEEF, u32::MAX] {
        let f = XonSurfaceDXGIFormat::from_u32(code);
        assert!(matches!(f, XonSurfaceDXGIFormat::UNKNOWN(v) if v == code));
        assert_eq!(f.to_u32(), code);
        assert_eq!(f.to_dxgi_format(), code);
        assert_eq!(f.get_alpha_mode(), 2);
    }
}

#[test]
fn alpha_mode_is_straight_only_for_straight_rgba() {
    assert_eq!(XonSurfaceDXGIFormat::from_u32(0x00010700).get_alpha_mode(), 1);
    assert_eq!(XonSurfaceDXGIFormat::from_u32(0x00010800).get_alpha_mode(), 2);
    assert_eq!(XonSurfaceDXGIFormat::from_u32(0x00011900).get_alpha_mode(), 2);
}

#[test]
fn code_mapping_round_trips_for_all_sampled_codes() {
    let mut samples: Vec<u32> = TABLE.iter().map(|(c, _)| *c).collect();
    samples.extend([0, 9, 0x00011800, 0xFFFF_FFFF]);
    for code in samples {
        assert_eq!(XonSurfaceDXGIFormat::from_u32(code).to_u32(), code);
    }
}
