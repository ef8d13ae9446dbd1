use riscv_simulator::{load_elf, place_sections, LoadError, Section};

fn put16(b: &mut Vec<u8>, v: u16) {
    b.extend_from_slice(&v.to_le_bytes());
}

fn put32(b: &mut Vec<u8>, v: u32) {
    b.extend_from_slice(&v.to_le_bytes());
}

fn section_header(b: &mut Vec<u8>, name: u32, kind: u32, flags: u32, offset: u32, size: u32, align: u32) {
    for v in [name, kind, flags, 0, offset, size, 0, 0, align, 0] {
        put32(b, v);
    }
}

/// A 32-bit little-endian RISC-V ELF file with a null section, `.text` of
/// eight bytes at offset 64, `.data` of four bytes at offset 72, a `.bss`
/// at offset 76 and the section-name table.
fn tiny_elf() -> Vec<u8> {
    let names = b"\0.text\0.data\0.bss\0.shstrtab\0";
    let mut b: Vec<u8> = vec![0x7F, b'E', b'L', b'F', 1, 1, 1, 0];
    b.resize(16, 0);
    put16(&mut b, 2); // executable
    put16(&mut b, 0xF3); // RISC-V
    put32(&mut b, 1);
    put32(&mut b, 0); // entry
    put32(&mut b, 0); // no program headers
    let shoff_at = b.len();
    put32(&mut b, 0); // section headers: patched below
    put32(&mut b, 0);
    put16(&mut b, 52);
    put16(&mut b, 32);
    put16(&mut b, 0);
    put16(&mut b, 40);
    put16(&mut b, 5);
    put16(&mut b, 4);
    b.resize(64, 0);
    b.extend_from_slice(&[0x93, 0x00, 0x50, 0x00, 0x73, 0x00, 0x00, 0x00]); // .text
    b.extend_from_slice(&[0xAA, 0xBB, 0xCC, 0xDD]); // .data
    b.extend_from_slice(&[0x55; 4]); // bytes under .bss, never copied
    let names_at = b.len() as u32;
    b.extend_from_slice(names);
    while b.len() % 4 != 0 {
        b.push(0);
    }
    let shoff = b.len() as u32;
    b[shoff_at..shoff_at + 4].copy_from_slice(&shoff.to_le_bytes());
    section_header(&mut b, 0, 0, 0, 0, 0, 0);
    section_header(&mut b, 1, 1, 6, 64, 8, 4);
    section_header(&mut b, 7, 1, 3, 72, 4, 4);
    section_header(&mut b, 13, 8, 3, 76, 4, 4);
    section_header(&mut b, 18, 3, 0, names_at, names.len() as u32, 1);
    b
}

#[test]
fn elf_code_and_data_are_placed_at_their_offsets() {
    let file = tiny_elf();
    let (entry, mem) = load_elf(&file, 256).unwrap();
    assert_eq!(entry, 64);
    assert_eq!(mem.len(), 256);
    assert_eq!(mem[64..76], file[64..76]);
    // the header, .bss and the name table are not copied
    assert!(mem[..64].iter().all(|&b| b == 0));
    assert!(mem[76..].iter().all(|&b| b == 0));
}

#[test]
fn non_elf_bytes_are_refused() {
    assert_eq!(load_elf(&vec![1, 2, 3, 4], 256), Err(LoadError::NotElf));
    assert_eq!(load_elf(&vec![], 256), Err(LoadError::NotElf));
}

#[test]
fn section_past_memory_is_refused() {
    let file = tiny_elf();
    assert_eq!(load_elf(&file, 70), Err(LoadError::SectionOutOfRange));
    assert!(load_elf(&file, 76).is_ok());
}

fn section(name: &str, offset: u64, size: u64) -> Section {
    Section { name: name.to_string(), offset, size }
}

#[test]
fn last_code_section_gives_the_entry() {
    let bytes: Vec<u8> = (1u8..=32).collect();
    let sections = vec![
        section(".text.init", 4, 4),
        section(".rodata", 8, 4),
        section(".text", 16, 4),
        section(".data", 24, 2),
    ];
    let (entry, mem) = place_sections(&bytes, &sections, 32).unwrap();
    assert_eq!(entry, 16);
    let mut expected = vec![0u8; 32];
    for a in (4..8).chain(16..20).chain(24..26) {
        expected[a] = bytes[a];
    }
    assert_eq!(mem, expected);
}

#[test]
fn no_code_section_starts_at_zero() {
    let bytes = vec![9u8; 8];
    let (entry, mem) = place_sections(&bytes, &vec![section(".data", 2, 2)], 8).unwrap();
    assert_eq!(entry, 0);
    assert_eq!(mem, vec![0, 0, 9, 9, 0, 0, 0, 0]);
}

#[test]
fn section_past_file_is_refused() {
    let bytes = vec![9u8; 8];
    let sections = vec![section(".text", 4, 8)];
    assert_eq!(place_sections(&bytes, &sections, 64), Err(LoadError::SectionOutOfRange));
    // a section that is not copied may lie anywhere
    let sections = vec![section(".comment", 4, 800)];
    assert!(place_sections(&bytes, &sections, 64).is_ok());
}

#[test]
fn empty_section_may_lie_past_memory() {
    let bytes = vec![9u8; 8];
    let sections = vec![section(".text", 2, 2), section(".data", 4096, 0)];
    let (entry, mem) = place_sections(&bytes, &sections, 8).unwrap();
    assert_eq!(entry, 2);
    assert_eq!(mem, vec![0, 0, 9, 9, 0, 0, 0, 0]);
}
