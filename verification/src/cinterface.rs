use vstd::prelude::*;
use vstd::string::*;
use crate::netplayer::{name_buffer, NetPlayerInfo};

verus! {

/// What the C interface writes into a caller's text buffer of `buf_len`
/// bytes for a text with UTF-8 bytes `bytes`: nothing for a buffer of no
/// room, else as many bytes as fit before a terminating NUL, then the NUL.
pub open spec fn c_string_bytes(bytes: Seq<u8>, buf_len: int) -> Seq<u8> {
    if buf_len <= 0 {
        Seq::empty()
    } else {
        let n: int = if bytes.len() < buf_len - 1 { bytes.len() as int } else { buf_len - 1 };
        bytes.take(n).push(0u8)
    }
}

/// A text whose bytes fit before the NUL is copied whole, then the NUL; a
/// longer one is cut to exactly `buf_len - 1` bytes, then the NUL; a buffer
/// of no room gets nothing.
pub proof fn lemma_c_string_fits_or_cut(bytes: Seq<u8>, buf_len: int)
    ensures
        buf_len <= 0 ==> c_string_bytes(bytes, buf_len).len() == 0,
        buf_len > 0 && bytes.len() < buf_len ==> c_string_bytes(bytes, buf_len) == bytes.push(
            0u8,
        ),
        buf_len > 0 && bytes.len() >= buf_len ==> c_string_bytes(bytes, buf_len) == bytes.take(
            buf_len - 1,
        ).push(0u8),
        buf_len > 0 ==> c_string_bytes(bytes, buf_len).len() <= buf_len,
        buf_len > 0 ==> c_string_bytes(bytes, buf_len).last() == 0u8,
{
    if buf_len > 0 && bytes.len() < buf_len {
        assert(bytes.take(bytes.len() as int) =~= bytes);
    }
}

/// The bytes to copy into a caller's buffer of `buf_len` bytes for the text
/// `text`, and the count reported back (the bytes written before the NUL).
pub fn c_string_copy(text: &str, buf_len: i32) -> (r: (Vec<u8>, i32))
    ensures
        r.0@ == c_string_bytes(text.spec_bytes(), buf_len as int),
        r.1 == (if buf_len <= 0 { 0 } else { r.0@.len() - 1 }),
        r.0@.len() <= (if buf_len <= 0 { 0 } else { buf_len as int }),
        buf_len > 0 && text.spec_bytes().len() < buf_len ==> r.0@ == text.spec_bytes().push(0u8)
            && r.1 == text.spec_bytes().len(),
        buf_len > 0 && text.spec_bytes().len() >= buf_len ==> r.0@ == text.spec_bytes().take(
            buf_len - 1,
        ).push(0u8) && r.1 == buf_len - 1,
{
    proof {
        lemma_c_string_fits_or_cut(text.spec_bytes(), buf_len as int);
    }
    let bytes = text.as_bytes();
    if buf_len <= 0 {
        return (Vec::new(), 0);
    }
    let room: usize = (buf_len - 1) as usize;
    let n: usize = if bytes.len() < room { bytes.len() } else { room };
    let mut v: Vec<u8> = Vec::new();
    let mut i: usize = 0;
    while i < n
        invariant
            i <= n,
            n <= bytes@.len(),
            v@ =~= bytes@.take(i as int),
        decreases n - i,
    {
        v.push(bytes[i]);
        i = i + 1;
        assert(v@ =~= bytes@.take(i as int));
    }
    v.push(0u8);
    let count = n as i32;
    (v, count)
}

/// How many player records go into a caller's array of `max_count` slots
/// when `available` players are known: none for an array of no room, else
/// as many as fit.
pub fn players_to_copy(available: usize, max_count: i32) -> (n: usize)
    ensures
        n == (if max_count <= 0 {
            0
        } else if available < max_count {
            available as int
        } else {
            max_count as int
        }),
{
    if max_count <= 0 {
        0
    } else if available < max_count as usize {
        available
    } else {
        max_count as usize
    }
}

/// Whether the actor number read of a player (`None` when it could not be
/// read) is `actor`.
pub fn is_actor(read: Option<i32>, actor: i32) -> (b: bool)
    ensures
        b == (read == Some(actor)),
{
    match read {
        Some(a) => a == actor,
        None => false,
    }
}

/// The position of the first player whose actor number is `actor`, among
/// players whose actor numbers were read (`None` where none could be).
pub fn find_actor_index(actors: &Vec<Option<i32>>, actor: i32) -> (r: Option<usize>)
    ensures
        r matches Some(k) ==> k < actors@.len() && actors@[k as int] == Some(actor)
            && forall|j: int| 0 <= j < k ==> actors@[j] != Some(actor),
        r is None ==> forall|j: int| 0 <= j < actors@.len() ==> actors@[j] != Some(actor),
{
    let mut i: usize = 0;
    while i < actors.len()
        invariant
            i <= actors@.len(),
            forall|j: int| 0 <= j < i ==> actors@[j] != Some(actor),
        decreases actors@.len() - i,
    {
        if is_actor(actors[i], actor) {
            return Some(i);
        }
        i = i + 1;
    }
    None
}

impl NetPlayerInfo {
    /// The record of a player from what could be read of it: the actor
    /// number (-1 when unreadable), the local and master flags (false when
    /// unreadable, else whether the byte is nonzero), and the two names.
    pub fn from_parts(
        actor: Option<i32>,
        is_local: Option<u8>,
        is_master: Option<u8>,
        nick: &str,
        uid: &str,
    ) -> (info: NetPlayerInfo)
        ensures
            info.actor_number as int == (match actor {
                Some(a) => a as int,
                None => -1,
            }),
            info.is_local == (match is_local {
                Some(b) => b != 0,
                None => false,
            }),
            info.is_master_client == (match is_master {
                Some(b) => b != 0,
                None => false,
            }),
            info.nick_name@ == name_buffer(nick@),
            info.user_id@ == name_buffer(uid@),
    {
        let actor_number = match actor {
            Some(a) => a,
            None => -1,
        };
        let local = match is_local {
            Some(b) => b != 0,
            None => false,
        };
        let master = match is_master {
            Some(b) => b != 0,
            None => false,
        };
        let mut info = NetPlayerInfo {
            actor_number,
            is_local: local,
            is_master_client: master,
            nick_name: [0u8; 64],
            user_id: [0u8; 64],
        };
        info.set_nick_name(nick);
        info.set_user_id(uid);
        info
    }
}

} // verus!
