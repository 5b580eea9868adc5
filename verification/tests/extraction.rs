use replicant_toolkit::tp_archive_file_param::{
    get_file, load_archive, require_output_target, BulkProgress, TpArchiveFileParam,
};
use replicant_toolkit::Error;

fn put_u32(buf: &mut Vec<u8>, v: u32) {
    buf.extend_from_slice(&v.to_le_bytes());
}

/// Writes at `field_pos` the relative value that makes the field resolve to
/// `target` (absolute = field_pos + 4 + relative).
fn patch_rel(buf: &mut Vec<u8>, field_pos: usize, target: usize) {
    let rel = (target - (field_pos + 4)) as u32;
    buf[field_pos..field_pos + 4].copy_from_slice(&rel.to_le_bytes());
}

/// Builds a `tpArchiveFileParam` payload (at offset 0 of the returned
/// buffer) describing the given archives and files.
/// Archives: (name, flags, is_streamed).  Files: (name, archive_offset,
/// compressed_size, uncompressed_size, buffer_size, archive_index,
/// is_compressed).
fn build_archive_file_param(
    archives: &[(&str, u32, bool)],
    files: &[(&str, u32, u32, u32, u32, u8, bool)],
) -> Vec<u8> {
    let mut b = Vec::new();
    put_u32(&mut b, archives.len() as u32); // 0: archive_count
    put_u32(&mut b, 0); // 4: rel offset archives (patched)
    put_u32(&mut b, files.len() as u32); // 8: file_count
    put_u32(&mut b, 0); // 12: rel offset files (patched)

    // Archive table: records are 9 bytes, 4-byte aligned (stride 12).
    let arch_base = b.len(); // 16, already 4-aligned
    patch_rel(&mut b, 4, arch_base);
    for _ in archives {
        put_u32(&mut b, 0); // rel name (patched later)
        put_u32(&mut b, 0); // flags (patched later)
        b.push(0); // is_streamed
        while b.len() % 4 != 0 {
            b.push(0);
        }
    }
    // File table: records are 26 bytes, 4-byte aligned (stride 28).
    let file_base = b.len();
    patch_rel(&mut b, 12, file_base);
    for _ in files {
        put_u32(&mut b, 0); // hash
        put_u32(&mut b, 0); // rel name (patched later)
        put_u32(&mut b, 0); // archive_offset
        put_u32(&mut b, 0); // compressed_size
        put_u32(&mut b, 0); // uncompressed_size
        put_u32(&mut b, 0); // buffer_size
        b.push(0); // archive_index
        b.push(0); // is_compressed
        while b.len() % 4 != 0 {
            b.push(0);
        }
    }
    // Fill in the archive records and their names.
    for (i, (name, flags, streamed)) in archives.iter().enumerate() {
        let rec = arch_base + 12 * i;
        let name_pos = b.len();
        b.extend_from_slice(name.as_bytes());
        b.push(0);
        patch_rel(&mut b, rec, name_pos);
        b[rec + 4..rec + 8].copy_from_slice(&flags.to_le_bytes());
        b[rec + 8] = if *streamed { 1 } else { 0 };
    }
    // Fill in the file records and their names.
    for (i, (name, off, comp, unc, bufsz, idx, compressed)) in files.iter().enumerate() {
        let rec = file_base + 28 * i;
        let name_pos = b.len();
        b.extend_from_slice(name.as_bytes());
        b.push(0);
        b[rec..rec + 4].copy_from_slice(&(0x1000u32 + i as u32).to_le_bytes());
        patch_rel(&mut b, rec + 4, name_pos);
        b[rec + 8..rec + 12].copy_from_slice(&off.to_le_bytes());
        b[rec + 12..rec + 16].copy_from_slice(&comp.to_le_bytes());
        b[rec + 16..rec + 20].copy_from_slice(&unc.to_le_bytes());
        b[rec + 20..rec + 24].copy_from_slice(&bufsz.to_le_bytes());
        b[rec + 24] = *idx;
        b[rec + 25] = if *compressed { 1 } else { 0 };
    }
    b
}

#[test]
fn get_file_uncompressed_reads_exact_window() {
    // 64 bytes where byte k holds k, entry at scaled offset 1 => byte 16.
    let archive: Vec<u8> = (0u8..64).collect();
    let out = get_file(&archive, 1, 0, 4, 2, false).unwrap();
    assert_eq!(out, vec![16, 17, 18, 19, 20, 21]);
    // The trailing buffer bytes are preserved: length is exactly unc + buf.
    assert_eq!(out.len(), 6);
}

#[test]
fn get_file_out_of_range_is_io_error() {
    let archive: Vec<u8> = (0u8..32).collect();
    assert_eq!(get_file(&archive, 2, 0, 8, 0, false), Err(Error::IoError));
    assert_eq!(get_file(&archive, 1, 40, 4, 0, true), Err(Error::IoError));
}

#[test]
fn get_file_compressed_round_trips_plaintext() {
    let plaintext: Vec<u8> = (0u8..200).map(|k| k.wrapping_mul(7)).collect();
    let frame = zstd::bulk::compress(&plaintext, 3).unwrap();
    // Place the frame at scaled offset 2 => byte 32.
    let mut archive = vec![0u8; 32];
    archive.extend_from_slice(&frame);
    // unc + buf = 198 + 2 = 200: decompressing and trimming reproduces the
    // plaintext bit for bit.
    let out = get_file(&archive, 2, frame.len() as u32, 198, 2, true).unwrap();
    assert_eq!(out, plaintext);
}

#[test]
fn get_file_corrupt_frame_is_corrupt_data() {
    let mut archive = vec![0u8; 16];
    archive.extend_from_slice(&[0x28, 0xB5, 0x2F, 0xFD, 9, 9, 9, 9]);
    assert_eq!(get_file(&archive, 1, 8, 4, 0, true), Err(Error::CorruptData));
}

#[test]
fn load_archive_streamed_keeps_raw_bytes() {
    let raw: Vec<u8> = (0u8..100).collect();
    assert_eq!(load_archive(&raw, true).unwrap(), raw);
}

#[test]
fn load_archive_decompresses_whole_frame_up_front() {
    let content: Vec<u8> = (0u8..150).map(|k| k.wrapping_add(3)).collect();
    let frame = zstd::bulk::compress(&content, 3).unwrap();
    assert_eq!(load_archive(&frame, false).unwrap(), content);
}

#[test]
fn load_archive_short_header_is_io_error() {
    assert_eq!(load_archive(&[1, 2, 3], false), Err(Error::IoError));
}

#[test]
fn load_archive_bad_frame_is_corrupt_data() {
    let junk = vec![7u8; 80];
    assert_eq!(load_archive(&junk, false), Err(Error::CorruptData));
}

#[test]
fn missing_output_target_is_reported_before_any_work() {
    assert!(matches!(
        require_output_target(None),
        Err(Error::OutputTargetMissing)
    ));
    assert_eq!(
        require_output_target(Some(b"/tmp/out".to_vec())).unwrap(),
        b"/tmp/out".to_vec()
    );
}

#[test]
fn bulk_progress_counts_terminal_outcomes() {
    let mut p = BulkProgress::new(3);
    assert!(p.is_settled()); // a fresh tracker reads as settled
    p.reset();
    assert!(!p.is_settled());
    p.record_success();
    p.record_failure();
    assert!(!p.is_settled());
    p.record_success();
    assert!(p.is_settled());
    assert_eq!(p.extracted, 2);
    assert_eq!(p.failed, 1);
    assert_eq!(p.extracted + p.failed, p.total);
}

#[test]
fn parse_archive_file_param_tables() {
    let payload = build_archive_file_param(
        &[("common.arc", 5, true), ("stream.arc", 0, false)],
        &[
            ("a/x.bin", 1, 0, 8, 0, 0, false),
            ("b/y.bin", 2, 0, 4, 4, 1, false),
            ("c/z.bin", 0, 0, 2, 0, 0, false),
        ],
    );
    let t = TpArchiveFileParam::new(&payload, 0).unwrap();
    assert_eq!(t.archive_count, 2);
    assert_eq!(t.file_count, 3);
    assert_eq!(t.archive_params.len(), 2);
    assert_eq!(t.file_params.len(), 3);
    assert_eq!(t.archive_params[0].name, b"common.arc".to_vec());
    assert_eq!(t.archive_params[0].flags, 5);
    assert!(t.archive_params[0].is_streamed);
    assert!(!t.archive_params[1].is_streamed);
    assert_eq!(t.file_params[1].name, b"b/y.bin".to_vec());
    assert_eq!(t.file_params[1].archive_index, 1);
    assert_eq!(t.file_params[2].archive_offset, 0);
}

#[test]
fn out_of_range_archive_index_is_corrupt_data() {
    let payload = build_archive_file_param(
        &[("only.arc", 0, true)],
        &[("f.bin", 0, 0, 4, 0, 3, false)],
    );
    assert!(matches!(
        TpArchiveFileParam::new(&payload, 0),
        Err(Error::CorruptData)
    ));
}

#[test]
fn locate_archive_joins_base_directory_and_name() {
    let payload = build_archive_file_param(&[("data.arc", 0, true)], &[]);
    let t = TpArchiveFileParam::new(&payload, 0).unwrap();
    let p = t.locate_archive(0, b"/tmp/packs").unwrap();
    assert_eq!(p, b"/tmp/packs/data.arc".to_vec());
    assert_eq!(t.locate_archive(1, b"/tmp"), Err(Error::ArchiveNotFound));
}

#[test]
fn plan_jobs_groups_by_archive_index_in_table_order() {
    let payload = build_archive_file_param(
        &[("a.arc", 0, true), ("b.arc", 0, true)],
        &[
            ("one", 0, 0, 1, 0, 1, false),
            ("two", 0, 0, 1, 0, 0, false),
            ("three", 0, 0, 1, 0, 1, false),
        ],
    );
    let t = TpArchiveFileParam::new(&payload, 0).unwrap();
    assert_eq!(t.plan_jobs(), vec![1, 0, 2]);
}

#[test]
fn extract_file_slices_one_entry() {
    let payload = build_archive_file_param(
        &[("raw.arc", 0, true)],
        &[("f.bin", 1, 0, 4, 0, 0, false)],
    );
    let t = TpArchiveFileParam::new(&payload, 0).unwrap();
    let archive: Vec<u8> = (0u8..32).collect();
    assert_eq!(t.extract_file(0, &archive).unwrap(), vec![16, 17, 18, 19]);
}

#[test]
fn bulk_extraction_settles_and_shares_archives() {
    // K = 4 files across A = 2 archives: archive 0 is streamed raw with
    // per-offset markers, archive 1 is one compressed frame.
    let raw0: Vec<u8> = (0u8..64).map(|k| k.wrapping_mul(3)).collect();
    let content1: Vec<u8> = (0u8..64).map(|k| 0xA0u8.wrapping_add(k)).collect();
    let frame1 = zstd::bulk::compress(&content1, 3).unwrap();

    let payload = build_archive_file_param(
        &[("zero.arc", 0, true), ("one.arc", 0, false)],
        &[
            ("a0_lo.bin", 0, 0, 8, 0, 0, false),
            ("a1_lo.bin", 0, 0, 6, 2, 1, false),
            ("a0_hi.bin", 2, 0, 4, 0, 0, false),
            ("a1_hi.bin", 1, 0, 16, 0, 1, false),
        ],
    );
    let t = TpArchiveFileParam::new(&payload, 0).unwrap();
    let archives = vec![raw0.clone(), frame1.clone()];
    let (jobs, outputs, progress) = t.extract_all_files(&archives);

    // After all tasks settle, the counters sum to the job count.
    assert_eq!(progress.total, 4);
    assert!(progress.is_settled());
    assert_eq!(progress.extracted + progress.failed, 4);
    assert_eq!(progress.extracted, 4);
    assert_eq!(progress.failed, 0);

    // Jobs are grouped by archive: files 0 and 2 (archive 0) first.
    assert_eq!(jobs, vec![0, 2, 1, 3]);

    // Entries sharing an archive are sliced from the same decoded buffer.
    assert_eq!(outputs[0].as_ref().unwrap(), &raw0[0..8].to_vec());
    assert_eq!(outputs[1].as_ref().unwrap(), &raw0[32..36].to_vec());
    assert_eq!(outputs[2].as_ref().unwrap(), &content1[0..8].to_vec());
    assert_eq!(outputs[3].as_ref().unwrap(), &content1[16..32].to_vec());
}

#[test]
fn bulk_extraction_counts_failures_per_file() {
    // The second file reads past the end of its archive and fails; the
    // first still extracts.
    let payload = build_archive_file_param(
        &[("short.arc", 0, true)],
        &[
            ("ok.bin", 0, 0, 4, 0, 0, false),
            ("bad.bin", 4, 0, 32, 0, 0, false),
        ],
    );
    let t = TpArchiveFileParam::new(&payload, 0).unwrap();
    let archives = vec![(0u8..16).collect::<Vec<u8>>()];
    let (_jobs, outputs, progress) = t.extract_all_files(&archives);
    assert_eq!(progress.extracted, 1);
    assert_eq!(progress.failed, 1);
    assert!(progress.is_settled());
    assert!(outputs[0].is_some());
    assert!(outputs[1].is_none());
}
