use randommenu::cinterface::{c_string_copy, find_actor_index, is_actor, players_to_copy};
use randommenu::netplayer::{copy_str_into, NetPlayerInfo};

#[test]
fn default_record() {
    let p = NetPlayerInfo::default();
    assert_eq!(p.actor_number, -1);
    assert!(!p.is_local);
    assert!(!p.is_master_client);
    assert_eq!(p.nick_name, [0u8; 64]);
    assert_eq!(p.user_id, [0u8; 64]);
    assert_eq!(p.nick_name_str(), "");
    assert_eq!(p.user_id_str(), "");
}

#[test]
fn nick_name_round_trip() {
    let mut p = NetPlayerInfo::default();
    p.set_nick_name("monke");
    assert_eq!(p.nick_name_str(), "monke");
    assert_eq!(p.user_id_str(), "");
    assert_eq!(p.actor_number, -1);
}

#[test]
fn user_id_round_trip_unicode() {
    let mut p = NetPlayerInfo::default();
    p.set_user_id("gorílla🦍");
    assert_eq!(p.user_id_str(), "gorílla🦍");
    assert_eq!(p.nick_name_str(), "");
}

#[test]
fn long_name_is_cut_to_63_bytes() {
    let long: String = std::iter::repeat('a').take(100).collect();
    let mut p = NetPlayerInfo::default();
    p.set_nick_name(&long);
    assert_eq!(p.nick_name_str().len(), 63);
    assert_eq!(p.nick_name[63], 0);
    assert_eq!(p.nick_name_str(), &long[..63]);
}

#[test]
fn cut_inside_a_character_reads_as_empty() {
    // 62 ASCII bytes then a 2-byte character: the cut at 63 splits it.
    let mut s: String = std::iter::repeat('b').take(62).collect();
    s.push('é');
    let mut p = NetPlayerInfo::default();
    p.set_nick_name(&s);
    assert_eq!(p.nick_name[62], 0xC3);
    assert_eq!(p.nick_name[63], 0);
    assert_eq!(p.nick_name_str(), "");
}

#[test]
fn invalid_bytes_read_as_empty() {
    let mut p = NetPlayerInfo::default();
    p.nick_name[0] = 0xFF;
    p.nick_name[1] = b'x';
    assert_eq!(p.nick_name_str(), "");
}

#[test]
fn text_stops_at_first_nul() {
    let mut p = NetPlayerInfo::default();
    p.set_nick_name("ab\0cd");
    assert_eq!(p.nick_name_str(), "ab");
    assert_eq!(&p.nick_name[..5], b"ab\0cd");
}

#[test]
fn full_buffer_without_nul() {
    let mut p = NetPlayerInfo::default();
    p.user_id = [b'z'; 64];
    assert_eq!(p.user_id_str().len(), 64);
}

#[test]
fn copy_clears_old_contents() {
    let mut buf = [b'q'; 64];
    copy_str_into("hi", &mut buf);
    assert_eq!(&buf[..2], b"hi");
    assert!(buf[2..].iter().all(|b| *b == 0));
}

#[test]
fn from_parts_defaults_and_flags() {
    let p = NetPlayerInfo::from_parts(None, None, None, "", "");
    assert_eq!(p.actor_number, -1);
    assert!(!p.is_local);
    assert!(!p.is_master_client);
    let q = NetPlayerInfo::from_parts(Some(7), Some(1), Some(0), "nick", "uid");
    assert_eq!(q.actor_number, 7);
    assert!(q.is_local);
    assert!(!q.is_master_client);
    assert_eq!(q.nick_name_str(), "nick");
    assert_eq!(q.user_id_str(), "uid");
    let r = NetPlayerInfo::from_parts(Some(3), Some(0), Some(2), "a", "b");
    assert!(!r.is_local);
    assert!(r.is_master_client);
}

#[test]
fn c_string_copy_fits() {
    let (bytes, n) = c_string_copy("room1", 16);
    assert_eq!(bytes, b"room1\0".to_vec());
    assert_eq!(n, 5);
}

#[test]
fn c_string_copy_truncates() {
    let (bytes, n) = c_string_copy("abcdef", 4);
    assert_eq!(bytes, b"abc\0".to_vec());
    assert_eq!(n, 3);
    let (bytes, n) = c_string_copy("abcdef", 1);
    assert_eq!(bytes, vec![0u8]);
    assert_eq!(n, 0);
}

#[test]
fn c_string_copy_no_room() {
    let (bytes, n) = c_string_copy("abc", 0);
    assert!(bytes.is_empty());
    assert_eq!(n, 0);
    let (bytes, n) = c_string_copy("abc", -5);
    assert!(bytes.is_empty());
    assert_eq!(n, 0);
}

#[test]
fn players_to_copy_bounds() {
    assert_eq!(players_to_copy(5, 10), 5);
    assert_eq!(players_to_copy(10, 4), 4);
    assert_eq!(players_to_copy(10, 0), 0);
    assert_eq!(players_to_copy(10, -3), 0);
    assert_eq!(players_to_copy(0, 8), 0);
}

#[test]
fn find_actor_first_match() {
    let actors = vec![Some(4), None, Some(9), Some(4), Some(9)];
    assert_eq!(find_actor_index(&actors, 9), Some(2));
    assert_eq!(find_actor_index(&actors, 4), Some(0));
    assert_eq!(find_actor_index(&actors, 5), None);
    assert_eq!(find_actor_index(&Vec::new(), 1), None);
}

#[test]
fn user_id_survives_nickname_stores() {
    let mut p = NetPlayerInfo::default();
    p.set_user_id("player-1234");
    for nick in ["a", "", "some much longer nickname that goes well past sixty-three bytes!!", "é"] {
        p.set_nick_name(nick);
        assert_eq!(p.user_id_str(), "player-1234");
    }
}

#[test]
fn nickname_survives_user_id_stores() {
    let mut p = NetPlayerInfo::default();
    p.set_nick_name("monke");
    for id in ["x", "", "0123456789012345678901234567890123456789012345678901234567890123456789"] {
        p.set_user_id(id);
        assert_eq!(p.nick_name_str(), "monke");
    }
}

#[test]
fn actor_matching() {
    assert!(is_actor(Some(3), 3));
    assert!(!is_actor(Some(4), 3));
    assert!(!is_actor(None, -1));
}
