//! End-to-end tests of the frame protocol, the symbol resolver and the
//! duplex transport model, run against the real `elf` crate.

use picosh::command::handle_command;
use picosh::command::handle_kill_cmd;
use picosh::command::handle_list_cmd;
use picosh::command::handle_load_cmd;
use picosh::command::handle_relaunch_cmd;
use picosh::command::Commands;
use picosh::frames::encode_list_frame;
use picosh::frames::encode_load_frame;
use picosh::frames::parse_load_frame;
use picosh::symbols::resolve_symbol;
use picosh::symbols::ResolveError;
use picosh::taskid::encode_task_id;
use picosh::transport::run_duplex;
use picosh::transport::write_frame;
use picosh::transport::Transport;

/// Build a minimal little-endian ELF64 executable holding only a symbol
/// table: one null symbol, then one entry per `(name, value)` pair.
fn build_elf(syms: &[(&str, u64)]) -> Vec<u8> {
    let mut strtab = vec![0u8];
    let mut name_offs: Vec<u32> = Vec::new();
    for (n, _) in syms {
        name_offs.push(strtab.len() as u32);
        strtab.extend_from_slice(n.as_bytes());
        strtab.push(0);
    }
    let nsyms = syms.len() + 1;
    let symtab_size = 24 * nsyms as u64;
    let symtab_off = 256u64;
    let strtab_off = symtab_off + symtab_size;

    let mut f: Vec<u8> = Vec::new();
    // ELF identification: magic, 64-bit, little-endian, version 1.
    f.extend_from_slice(&[0x7f, b'E', b'L', b'F', 2, 1, 1, 0]);
    f.extend_from_slice(&[0u8; 8]);
    f.extend_from_slice(&2u16.to_le_bytes()); // e_type: executable
    f.extend_from_slice(&0x3eu16.to_le_bytes()); // e_machine
    f.extend_from_slice(&1u32.to_le_bytes()); // e_version
    f.extend_from_slice(&0u64.to_le_bytes()); // e_entry
    f.extend_from_slice(&0u64.to_le_bytes()); // e_phoff
    f.extend_from_slice(&64u64.to_le_bytes()); // e_shoff
    f.extend_from_slice(&0u32.to_le_bytes()); // e_flags
    f.extend_from_slice(&64u16.to_le_bytes()); // e_ehsize
    f.extend_from_slice(&0u16.to_le_bytes()); // e_phentsize
    f.extend_from_slice(&0u16.to_le_bytes()); // e_phnum
    f.extend_from_slice(&64u16.to_le_bytes()); // e_shentsize
    f.extend_from_slice(&3u16.to_le_bytes()); // e_shnum
    f.extend_from_slice(&0u16.to_le_bytes()); // e_shstrndx
    assert_eq!(f.len(), 64);

    // Section header 0: the null section.
    f.extend_from_slice(&[0u8; 64]);
    // Section header 1: .symtab, linked to section 2.
    f.extend_from_slice(&0u32.to_le_bytes()); // sh_name
    f.extend_from_slice(&2u32.to_le_bytes()); // sh_type: SHT_SYMTAB
    f.extend_from_slice(&0u64.to_le_bytes()); // sh_flags
    f.extend_from_slice(&0u64.to_le_bytes()); // sh_addr
    f.extend_from_slice(&symtab_off.to_le_bytes()); // sh_offset
    f.extend_from_slice(&symtab_size.to_le_bytes()); // sh_size
    f.extend_from_slice(&2u32.to_le_bytes()); // sh_link: the strtab
    f.extend_from_slice(&1u32.to_le_bytes()); // sh_info
    f.extend_from_slice(&8u64.to_le_bytes()); // sh_addralign
    f.extend_from_slice(&24u64.to_le_bytes()); // sh_entsize
    // Section header 2: .strtab.
    f.extend_from_slice(&0u32.to_le_bytes()); // sh_name
    f.extend_from_slice(&3u32.to_le_bytes()); // sh_type: SHT_STRTAB
    f.extend_from_slice(&0u64.to_le_bytes()); // sh_flags
    f.extend_from_slice(&0u64.to_le_bytes()); // sh_addr
    f.extend_from_slice(&strtab_off.to_le_bytes()); // sh_offset
    f.extend_from_slice(&(strtab.len() as u64).to_le_bytes()); // sh_size
    f.extend_from_slice(&0u32.to_le_bytes()); // sh_link
    f.extend_from_slice(&0u32.to_le_bytes()); // sh_info
    f.extend_from_slice(&1u64.to_le_bytes()); // sh_addralign
    f.extend_from_slice(&0u64.to_le_bytes()); // sh_entsize
    assert_eq!(f.len(), 256);

    // The symbol table: the null symbol, then the named entries.
    f.extend_from_slice(&[0u8; 24]);
    for (i, (_, v)) in syms.iter().enumerate() {
        f.extend_from_slice(&name_offs[i].to_le_bytes()); // st_name
        f.push(0); // st_info
        f.push(0); // st_other
        f.extend_from_slice(&1u16.to_le_bytes()); // st_shndx
        f.extend_from_slice(&v.to_le_bytes()); // st_value
        f.extend_from_slice(&0u64.to_le_bytes()); // st_size
    }
    f.extend_from_slice(&strtab);
    f
}

#[test]
fn task_id_short_is_padded() {
    let r = encode_task_id(b"abc");
    assert_eq!(r, b"abc     ".to_vec());
    assert_eq!(r.len(), 8);
}

#[test]
fn task_id_empty_is_all_spaces() {
    assert_eq!(encode_task_id(b""), b"        ".to_vec());
}

#[test]
fn task_id_exact_eight_unchanged() {
    assert_eq!(encode_task_id(b"eightlng"), b"eightlng".to_vec());
}

#[test]
fn task_id_long_is_truncated() {
    let r = encode_task_id(b"toolongid");
    assert_eq!(r, b"toolongi".to_vec());
    assert_eq!(r.len(), 8);
}

#[test]
fn load_frame_layout() {
    let image: Vec<u8> = (0..1024u32).map(|i| (i % 251) as u8).collect();
    let frame = encode_load_frame(&image, 0x20001000, b"abc");
    assert_eq!(frame.len(), 32 + 1024);
    assert_eq!(&frame[0..8], b"LOADPROG");
    assert_eq!(&frame[8..16], &1024u64.to_le_bytes());
    assert_eq!(&frame[16..24], &0x20001000u64.to_le_bytes());
    assert_eq!(&frame[24..32], b"abc     ");
    assert_eq!(&frame[32..], &image[..]);
}

#[test]
fn kill_frame_long_identifier() {
    let frame = handle_kill_cmd(b"toolongid").unwrap();
    assert_eq!(frame.len(), 16);
    assert_eq!(&frame[0..8], b"KILLTASK");
    assert_eq!(&frame[8..16], b"toolongi");
}

#[test]
fn relaunch_frame_layout() {
    let frame = handle_relaunch_cmd(b"task1").unwrap();
    assert_eq!(frame.len(), 16);
    assert_eq!(&frame[0..8], b"RELAUNCH");
    assert_eq!(&frame[8..16], b"task1   ");
}

#[test]
fn list_frame_is_bare_magic() {
    let frame = handle_list_cmd().unwrap();
    assert_eq!(frame.len(), 8);
    assert_eq!(&frame[..], b"LISTTASK");
}

#[test]
fn load_frame_round_trip() {
    let image: Vec<u8> = vec![5, 6, 7, 8, 9];
    let frame = encode_load_frame(&image, 0xdead_beef_0102_0304, b"toolongid");
    let parts = parse_load_frame(&frame).unwrap();
    assert_eq!(parts.size, 5);
    assert_eq!(parts.addr, 0xdead_beef_0102_0304);
    assert_eq!(parts.task_id, b"toolongi".to_vec());
    assert_eq!(parts.image, image);
}

#[test]
fn parse_rejects_wrong_magic() {
    let mut frame = encode_load_frame(&[1, 2, 3], 7, b"x");
    frame[0] = b'X';
    assert!(parse_load_frame(&frame).is_none());
}

#[test]
fn parse_rejects_short_frame() {
    assert!(parse_load_frame(b"LOADPROG").is_none());
}

#[test]
fn encode_is_deterministic() {
    let image: Vec<u8> = vec![1, 2, 3, 4];
    let a = encode_load_frame(&image, 42, b"abc");
    let b = encode_load_frame(&image, 42, b"abc");
    assert_eq!(a, b);
    assert_eq!(encode_list_frame(), encode_list_frame());
}

#[test]
fn resolve_finds_symbol() {
    let image = build_elf(&[("entry", 0x20001000), ("other", 0x1000)]);
    assert_eq!(resolve_symbol(&image, b"entry"), Ok(0x20001000));
    assert_eq!(resolve_symbol(&image, b"other"), Ok(0x1000));
}

#[test]
fn resolve_first_duplicate_wins() {
    let image = build_elf(&[("dup", 0x111), ("dup", 0x222)]);
    assert_eq!(resolve_symbol(&image, b"dup"), Ok(0x111));
}

#[test]
fn resolve_missing_symbol() {
    let image = build_elf(&[("entry", 0x20001000)]);
    assert_eq!(resolve_symbol(&image, b"absent"), Err(ResolveError::SymbolNotFound));
}

#[test]
fn resolve_malformed_image() {
    assert_eq!(resolve_symbol(b"not an elf", b"entry"), Err(ResolveError::MalformedImage));
    assert_eq!(resolve_symbol(b"", b"entry"), Err(ResolveError::MalformedImage));
}

#[test]
fn handle_load_builds_full_frame() {
    let image = build_elf(&[("entry", 0x20001000)]);
    let frame = handle_load_cmd(&image, b"entry", b"abc").unwrap();
    assert_eq!(frame.len(), 32 + image.len());
    assert_eq!(&frame[0..8], b"LOADPROG");
    assert_eq!(&frame[8..16], &(image.len() as u64).to_le_bytes());
    assert_eq!(&frame[16..24], &0x20001000u64.to_le_bytes());
    assert_eq!(&frame[24..32], b"abc     ");
    assert_eq!(&frame[32..], &image[..]);
}

#[test]
fn handle_load_missing_symbol_fails() {
    let image = build_elf(&[("entry", 0x20001000)]);
    assert_eq!(handle_load_cmd(&image, b"absent", b"abc"), Err(ResolveError::SymbolNotFound));
}

#[test]
fn handle_command_each_kind() {
    let image = build_elf(&[("entry", 0x20001000)]);
    let load = handle_command(&Commands::Load {
        image: image.clone(),
        symbol: b"entry".to_vec(),
        identifier: b"abc".to_vec(),
    });
    let frame = load.unwrap().unwrap();
    assert_eq!(&frame[0..8], b"LOADPROG");

    let kill = handle_command(&Commands::Kill { identifier: b"toolongid".to_vec() });
    let frame = kill.unwrap().unwrap();
    assert_eq!(&frame[..], b"KILLTASKtoolongi");

    let relaunch = handle_command(&Commands::Relaunch { identifier: b"t".to_vec() });
    let frame = relaunch.unwrap().unwrap();
    assert_eq!(&frame[..], b"RELAUNCHt       ");

    let list = handle_command(&Commands::List);
    assert_eq!(&list.unwrap().unwrap()[..], b"LISTTASK");

    let log = handle_command(&Commands::Log);
    assert!(log.unwrap().is_none());
}

#[test]
fn handle_command_bad_image_fails() {
    let r = handle_command(&Commands::Load {
        image: b"garbage".to_vec(),
        symbol: b"entry".to_vec(),
        identifier: b"abc".to_vec(),
    });
    assert_eq!(r, Err(ResolveError::MalformedImage));
}

#[test]
fn duplex_interleaving_preserves_both_streams() {
    let frame = handle_kill_cmd(b"task1").unwrap();
    let device_out = b"[dev] boot ok\n".to_vec();
    // Try several interleavings of the writer and the drain reader.
    let schedules: Vec<Vec<bool>> = vec![
        vec![true, false],
        vec![false, true, true],
        vec![true; 7],
        vec![false; 3],
        vec![],
    ];
    for schedule in &schedules {
        let t = run_duplex(&frame, &device_out, schedule);
        assert_eq!(t.written_bytes(), frame);
        assert_eq!(t.drained_bytes(), device_out);
    }
}

#[test]
fn two_writes_and_a_drain_never_tear() {
    // Two frames go out back to back while the drain reader runs; the
    // captured per-byte operations reconstruct both streams exactly.
    let first = handle_kill_cmd(b"a").unwrap();
    let second = handle_relaunch_cmd(b"b").unwrap();
    let mut t = Transport::new();
    t.drain_byte(b'x');
    write_frame(&mut t, &first);
    t.drain_byte(b'y');
    write_frame(&mut t, &second);
    t.drain_byte(b'z');
    let mut both = first.clone();
    both.extend_from_slice(&second);
    assert_eq!(t.written_bytes(), both);
    assert_eq!(t.drained_bytes(), b"xyz".to_vec());
}
