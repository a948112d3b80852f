use randommenu::hook::{abs_jmp, Hook, JMP_LEN, PATCH_LEN};
use randommenu::loader::{finish_download, is_c_string, take_chunk, LoaderConfig, CHUNK_LEN};

#[test]
fn jump_encoding() {
    let v = abs_jmp(0x1122_3344_5566_7788);
    assert_eq!(
        v,
        vec![0x48, 0xB8, 0x88, 0x77, 0x66, 0x55, 0x44, 0x33, 0x22, 0x11, 0xFF, 0xE0]
    );
    assert_eq!(v.len(), JMP_LEN);
}

#[test]
fn jump_decodes_back() {
    let to: u64 = 0x0000_7FFA_DEAD_BEEF;
    let v = abs_jmp(to);
    let mut imm = [0u8; 8];
    imm.copy_from_slice(&v[2..10]);
    assert_eq!(u64::from_le_bytes(imm), to);
}

#[test]
fn trampoline_layout() {
    let original: Vec<u8> = (1..=14).collect();
    let h = Hook::from_original(&original, 0x1000);
    assert_eq!(h.target, 0x1000);
    assert_eq!(h.trampoline.len(), PATCH_LEN + 14);
    assert_eq!(&h.trampoline[..14], &original[..]);
    assert_eq!(&h.trampoline[14..26], &abs_jmp(0x100E)[..]);
    assert_eq!(&h.trampoline[26..], &[0u8, 0u8]);
}

#[test]
fn patch_bytes_jump_to_destination() {
    assert_eq!(Hook::patch_bytes(0xABCD), abs_jmp(0xABCD));
}

#[test]
fn loader_defaults() {
    let c = LoaderConfig::default();
    assert_eq!(
        c.menu_url,
        "https://github.com/neutro74/randommenu/releases/latest/download/randommenu.dll"
    );
    assert_eq!(c.menu_dll_name, "randommenu.dll");
}

#[test]
fn loader_config_read_or_default() {
    let read = LoaderConfig { menu_url: "http://x/y.dll".to_string(), menu_dll_name: "y.dll".to_string() };
    let (c, write) = LoaderConfig::or_default(Some(read));
    assert_eq!(c.menu_url, "http://x/y.dll");
    assert_eq!(c.menu_dll_name, "y.dll");
    assert!(!write);
    let (d, write) = LoaderConfig::or_default(None);
    assert_eq!(d.menu_dll_name, "randommenu.dll");
    assert!(write);
}

#[test]
fn download_chunks() {
    let mut out = Vec::new();
    let mut chunk = vec![0u8; CHUNK_LEN];
    chunk[..3].copy_from_slice(b"abc");
    assert!(take_chunk(&mut out, &chunk, 1, 3));
    chunk[..2].copy_from_slice(b"de");
    assert!(take_chunk(&mut out, &chunk, 1, 2));
    assert_eq!(out, b"abcde".to_vec());
    assert!(!take_chunk(&mut out, &chunk, 1, 0));
    assert!(!take_chunk(&mut out, &chunk, 0, 4));
    assert_eq!(out, b"abcde".to_vec());
    assert_eq!(finish_download(out), Some(b"abcde".to_vec()));
    assert_eq!(finish_download(Vec::new()), None);
}

#[test]
fn c_string_urls() {
    assert!(is_c_string("https://example.com/a.dll"));
    assert!(is_c_string(""));
    assert!(!is_c_string("https://exa\0mple.com"));
    assert!(!is_c_string("\0"));
}
