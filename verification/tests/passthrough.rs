use replicant_toolkit::generic_file::{GenericFile, GenericFileManager};
use replicant_toolkit::traits::ResourceManager;

#[test]
fn generic_file_keeps_path_and_always_renders() {
    let g = GenericFile::new(String::from("data/strange.bin"));
    assert_eq!(g.path(), "data/strange.bin");
    assert_eq!(g.title(), "Unknown");
}

#[test]
fn generic_file_manager_keeps_path_and_always_renders() {
    let g = GenericFileManager::new(String::from("data/other.bin"));
    assert_eq!(g.path(), "data/other.bin");
    assert_eq!(g.title(), "Unknown");
}

fn put_u32(buf: &mut Vec<u8>, v: u32) {
    buf.extend_from_slice(&v.to_le_bytes());
}

fn patch_rel(buf: &mut Vec<u8>, field_pos: usize, target: usize) {
    let rel = (target - (field_pos + 4)) as u32;
    buf[field_pos..field_pos + 4].copy_from_slice(&rel.to_le_bytes());
}

#[test]
fn resource_entities_work_through_the_shared_interface() {
    // A texture container handled only through `dyn ResourceManager`.
    let mut b = Vec::new();
    b.extend_from_slice(b"BXON");
    put_u32(&mut b, 1);
    put_u32(&mut b, 2);
    put_u32(&mut b, 0);
    put_u32(&mut b, 0);
    let type_pos = b.len();
    b.extend_from_slice(b"tpGxTexHead\x00");
    let data_pos = b.len();
    // width, height, depth, mips, size, unknown, format, surfaces, rel table
    for v in [2u32, 2, 1, 1, 16, 0, 0x00010800, 0, 0] {
        put_u32(&mut b, v);
    }
    patch_rel(&mut b, 12, type_pos);
    patch_rel(&mut b, 16, data_pos);

    let bxon = replicant_toolkit::bxon::BXON::new(&b, 0).unwrap();
    let mut entity: Box<dyn ResourceManager> = Box::new(bxon);
    assert_eq!(entity.title(), "BXON");
    assert_eq!(entity.get_resource_size(), 16);
    assert!(entity.set_resource(vec![0xEE; 16]).is_ok());
}
