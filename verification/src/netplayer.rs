use vstd::prelude::*;
use vstd::slice::slice_subrange;
use vstd::string::*;
use vstd::utf8::*;

verus! {

broadcast use vstd::utf8::encode_utf8_decode_utf8;

/// Index of the first NUL byte of `b` at or after `i`, or `b.len()` if
/// there is none.
pub open spec fn first_nul_from(b: Seq<u8>, i: int) -> int
    decreases b.len() - i,
{
    if i < 0 || i >= b.len() {
        b.len() as int
    } else if b[i] == 0 {
        i
    } else {
        first_nul_from(b, i + 1)
    }
}

/// Length of the NUL-terminated text held in `b`.
pub open spec fn text_end(b: Seq<u8>) -> int {
    first_nul_from(b, 0)
}

/// The text held in a NUL-terminated buffer: the bytes before the first NUL
/// decoded as UTF-8, or the empty text when they are not valid UTF-8.
pub open spec fn buffer_text(b: Seq<u8>) -> Seq<char> {
    let t = b.take(text_end(b));
    if valid_utf8(t) {
        decode_utf8(t)
    } else {
        Seq::empty()
    }
}

/// What a name buffer holds after a text with the UTF-8 encoding `bytes` is
/// stored in it: the first `min(len, 63)` bytes, then NULs up to 64 bytes.
pub open spec fn stored_bytes(bytes: Seq<u8>) -> Seq<u8> {
    let n: int = if bytes.len() < 63 { bytes.len() as int } else { 63 };
    bytes.take(n) + Seq::new((64 - n) as nat, |i: int| 0u8)
}

/// The buffer that holds the text `s`.
pub open spec fn name_buffer(s: Seq<char>) -> Seq<u8> {
    stored_bytes(encode_utf8(s))
}

/// The first NUL at or after `i` is the first NUL of the buffer, when none
/// comes before `i`; and it is a NUL or the end, with no NUL before it.
pub proof fn lemma_first_nul_from(b: Seq<u8>, i: int)
    requires
        0 <= i <= b.len(),
    ensures
        i <= first_nul_from(b, i) <= b.len(),
        forall|j: int| i <= j < first_nul_from(b, i) ==> b[j] != 0,
        first_nul_from(b, i) == b.len() || b[first_nul_from(b, i)] == 0,
    decreases b.len() - i,
{
    if i < b.len() && b[i] != 0 {
        lemma_first_nul_from(b, i + 1);
    }
}

/// A buffer whose first `n` bytes are not NUL and whose byte `n` is NUL
/// (or which ends at `n`) holds a text of `n` bytes.
pub proof fn lemma_text_end_at(b: Seq<u8>, n: int, i: int)
    requires
        0 <= i <= n <= b.len(),
        forall|j: int| 0 <= j < n ==> b[j] != 0,
        n == b.len() || b[n] == 0,
    ensures
        first_nul_from(b, i) == n,
    decreases n - i,
{
    if i < n {
        lemma_text_end_at(b, n, i + 1);
    }
}

/// The UTF-8 encoding of a character has a NUL byte exactly when the
/// character is NUL.
proof fn lemma_scalar_has_nul(c: char)
    ensures
        encode_scalar(c as u32).contains(0u8) <==> c == '\0',
{
    vstd::utf8::char_is_scalar(c);
    let v = c as u32;
    let e = encode_scalar(v);
    if has_width_1_encoding(v) {
        assert(e[0] == leading_byte_width_1(v));
        assert(((v & 0x7F) as u8 == 0) <==> v == 0) by (bit_vector)
            requires
                v <= 0x7F,
        ;
        if v == 0 {
            assert(e[0] == 0u8);
        }
        assert(c == '\0' <==> v == 0);
    } else {
        assert(forall|x: u8| #[trigger] (0x80u8 | x) != 0u8) by (bit_vector);
        assert(forall|x: u8| #[trigger] (0xC0u8 | x) != 0u8) by (bit_vector);
        assert(forall|x: u8| #[trigger] (0xE0u8 | x) != 0u8) by (bit_vector);
        assert(forall|x: u8| #[trigger] (0xF0u8 | x) != 0u8) by (bit_vector);
        assert(!e.contains(0u8));
        assert(c != '\0');
    }
}

/// The UTF-8 encoding of a text has a NUL byte exactly when the text has a
/// NUL character.
pub proof fn lemma_encoding_has_nul(s: Seq<char>)
    ensures
        encode_utf8(s).contains(0u8) <==> s.contains('\0'),
    decreases s.len(),
{
    if s.len() > 0 {
        let head = encode_scalar(s[0] as u32);
        let rest = s.drop_first();
        lemma_scalar_has_nul(s[0]);
        lemma_encoding_has_nul(rest);
        let e = encode_utf8(s);
        assert(e == head + encode_utf8(rest));
        if e.contains(0u8) {
            let j = choose|j: int| 0 <= j < e.len() && e[j] == 0u8;
            if j < head.len() {
                assert(head[j] == 0u8);
                assert(s[0] == '\0');
            } else {
                assert(encode_utf8(rest)[j - head.len()] == 0u8);
                let k = choose|k: int| 0 <= k < rest.len() && rest[k] == '\0';
                assert(s[k + 1] == '\0');
            }
        }
        if s.contains('\0') {
            let k = choose|k: int| 0 <= k < s.len() && s[k] == '\0';
            if k == 0 {
                let j = choose|j: int| 0 <= j < head.len() && head[j] == 0u8;
                assert(e[j] == 0u8);
            } else {
                assert(rest[k - 1] == '\0');
                let er = encode_utf8(rest);
                let j = choose|j: int| 0 <= j < er.len() && er[j] == 0u8;
                assert(e[j + head.len()] == 0u8);
            }
        }
    }
}

/// A stored name buffer is 64 bytes long and always ends with a NUL.
pub proof fn lemma_name_buffer_terminated(s: Seq<char>)
    ensures
        name_buffer(s).len() == 64,
        name_buffer(s)[63] == 0u8,
{
}

/// Storing a text keeps the first 63 bytes of its UTF-8 encoding (all of
/// them when it is shorter) and clears every byte after them.
pub proof fn lemma_name_buffer_layout(s: Seq<char>)
    ensures
        encode_utf8(s).len() <= 63 ==> name_buffer(s).take(encode_utf8(s).len() as int)
            == encode_utf8(s),
        encode_utf8(s).len() > 63 ==> name_buffer(s).take(63) == encode_utf8(s).take(63),
        forall|j: int|
            (if encode_utf8(s).len() <= 63 { encode_utf8(s).len() as int } else { 63 }) <= j < 64
                ==> #[trigger] name_buffer(s)[j] == 0u8,
{
    let e = encode_utf8(s);
    if e.len() <= 63 {
        assert(name_buffer(s).take(e.len() as int) =~= e);
    } else {
        assert(name_buffer(s).take(63) =~= e.take(63));
    }
}

/// A text without NUL characters whose UTF-8 encoding fits in 63 bytes reads
/// back unchanged from the buffer it was stored in.
pub proof fn lemma_stored_name_reads_back(s: Seq<char>)
    requires
        encode_utf8(s).len() <= 63,
        !s.contains('\0'),
    ensures
        buffer_text(name_buffer(s)) == s,
{
    let e = encode_utf8(s);
    let b = name_buffer(s);
    let n = e.len() as int;
    lemma_encoding_has_nul(s);
    assert forall|j: int| 0 <= j < n implies b[j] != 0 by {
        assert(b[j] == e[j]);
        if e[j] == 0u8 {
            assert(e.contains(0u8));
        }
    }
    assert(b[n] == 0u8);
    lemma_text_end_at(b, n, 0);
    assert(b.take(n) =~= e);
    vstd::utf8::encode_utf8_valid_utf8(s);
}

/// `std::str::from_utf8`, with the error reduced to `None`: it succeeds
/// exactly on valid UTF-8, and the text it returns is encoded by the given
/// bytes.
#[verifier::external_body]
fn str_from_utf8<'a>(bytes: &'a [u8]) -> (r: Option<&'a str>)
    ensures
        r is Some <==> valid_utf8(bytes@),
        r matches Some(s) ==> s.spec_bytes() == bytes@,
{
    std::str::from_utf8(bytes).ok()
}

/// Index of the first NUL in `buf`, or 64 when there is none.
fn text_end_index(buf: &[u8; 64]) -> (end: usize)
    ensures
        end as int == text_end(buf@),
        end <= 64,
{
    let mut i: usize = 0;
    while i < 64 && buf[i] != 0
        invariant
            i <= 64,
            buf@.len() == 64,
            first_nul_from(buf@, i as int) == text_end(buf@),
        decreases 64 - i,
    {
        i = i + 1;
    }
    proof {
        lemma_first_nul_from(buf@, i as int);
    }
    i
}

/// The text held in a NUL-terminated buffer (see `buffer_text`).
fn text_of(buf: &[u8; 64]) -> (s: &str)
    ensures
        s@ == buffer_text(buf@),
{
    let end = text_end_index(buf);
    let bytes = slice_subrange(buf.as_slice(), 0, end);
    assert(bytes@ =~= buf@.take(end as int));
    match str_from_utf8(bytes) {
        Some(s) => {
            proof {
                assert(decode_utf8(encode_utf8(s@)) == s@);
            }
            s
        },
        None => {
            let e = "";
            proof {
                reveal_strlit("");
            }
            e
        },
    }
}

/// Stores the UTF-8 bytes of `src` in `dst`, cut to 63 bytes so that the
/// buffer always ends with a NUL, and clears the rest of the buffer.
pub fn copy_str_into(src: &str, dst: &mut [u8; 64])
    ensures
        final(dst)@ == name_buffer(src@),
{
    let bytes = src.as_bytes();
    let len: usize = if bytes.len() < 63 { bytes.len() } else { 63 };
    let ghost target = name_buffer(src@);
    let mut i: usize = 0;
    while i < 64
        invariant
            i <= 64,
            len <= 63,
            len <= bytes@.len(),
            bytes@ == encode_utf8(src@),
            len as int == (if bytes@.len() < 63 { bytes@.len() as int } else { 63 }),
            target == stored_bytes(bytes@),
            target.len() == 64,
            dst@.len() == 64,
            forall|j: int| 0 <= j < i ==> dst@[j] == target[j],
        decreases 64 - i,
    {
        if i < len {
            dst[i] = bytes[i];
        } else {
            dst[i] = 0;
        }
        i = i + 1;
    }
    assert(dst@ =~= target);
}

/// Information about a networked player, laid out for the C interface: the
/// names are NUL-terminated UTF-8 in fixed 64-byte buffers.
#[derive(Clone, Debug)]
pub struct NetPlayerInfo {
    pub actor_number: i32,
    pub is_local: bool,
    pub is_master_client: bool,
    pub nick_name: [u8; 64],
    pub user_id: [u8; 64],
}

impl Default for NetPlayerInfo {
    /// No actor (-1), neither local nor master, empty names.
    fn default() -> (r: Self)
        ensures
            r.actor_number == -1,
            !r.is_local,
            !r.is_master_client,
            r.nick_name@ == Seq::new(64, |i: int| 0u8),
            r.user_id@ == Seq::new(64, |i: int| 0u8),
    {
        let r = NetPlayerInfo {
            actor_number: -1,
            is_local: false,
            is_master_client: false,
            nick_name: [0u8; 64],
            user_id: [0u8; 64],
        };
        assert(r.nick_name@ =~= Seq::new(64, |i: int| 0u8));
        assert(r.user_id@ =~= Seq::new(64, |i: int| 0u8));
        r
    }
}


/// `after` is `before` with the text `t` stored as the nickname: the
/// nickname buffer holds `t` and nothing else changed.
pub open spec fn nick_name_stored(before: NetPlayerInfo, after: NetPlayerInfo, t: Seq<char>) -> bool {
    &&& after.nick_name@ == name_buffer(t)
    &&& after.user_id == before.user_id
    &&& after.actor_number == before.actor_number
    &&& after.is_local == before.is_local
    &&& after.is_master_client == before.is_master_client
}

/// `after` is `before` with the text `t` stored as the user id: the user id
/// buffer holds `t` and nothing else changed.
pub open spec fn user_id_stored(before: NetPlayerInfo, after: NetPlayerInfo, t: Seq<char>) -> bool {
    &&& after.user_id@ == name_buffer(t)
    &&& after.nick_name == before.nick_name
    &&& after.actor_number == before.actor_number
    &&& after.is_local == before.is_local
    &&& after.is_master_client == before.is_master_client
}

/// A user id `s` without NUL characters whose UTF-8 encoding fits in 63
/// bytes still reads back unchanged after any number of nickname stores:
/// `states[0]` holds `s` as its user id, and each `states[k + 1]` is
/// `states[k]` with `nicks[k]` stored as the nickname.
pub proof fn lemma_user_id_survives_nick_name_stores(
    s: Seq<char>,
    nicks: Seq<Seq<char>>,
    states: Seq<NetPlayerInfo>,
)
    requires
        encode_utf8(s).len() <= 63,
        !s.contains('\0'),
        states.len() == nicks.len() + 1,
        states[0].user_id@ == name_buffer(s),
        forall|k: int|
            0 <= k < nicks.len() ==> nick_name_stored(states[k], #[trigger] states[k + 1], nicks[k]),
    ensures
        buffer_text(states[states.len() - 1].user_id@) == s,
{
    assert forall|k: int| 0 <= k < states.len() implies #[trigger] states[k].user_id == states[0].user_id by {
        lemma_user_id_kept(nicks, states, k);
    }
    lemma_stored_name_reads_back(s);
}

proof fn lemma_user_id_kept(nicks: Seq<Seq<char>>, states: Seq<NetPlayerInfo>, k: int)
    requires
        states.len() == nicks.len() + 1,
        0 <= k < states.len(),
        forall|j: int|
            0 <= j < nicks.len() ==> nick_name_stored(states[j], #[trigger] states[j + 1], nicks[j]),
    ensures
        states[k].user_id == states[0].user_id,
    decreases k,
{
    if k > 0 {
        lemma_user_id_kept(nicks, states, k - 1);
        assert(nick_name_stored(states[k - 1], states[(k - 1) + 1], nicks[k - 1]));
    }
}

/// A nickname `s` without NUL characters whose UTF-8 encoding fits in 63
/// bytes still reads back unchanged after any number of user id stores:
/// `states[0]` holds `s` as its nickname, and each `states[k + 1]` is
/// `states[k]` with `ids[k]` stored as the user id.
pub proof fn lemma_nick_name_survives_user_id_stores(
    s: Seq<char>,
    ids: Seq<Seq<char>>,
    states: Seq<NetPlayerInfo>,
)
    requires
        encode_utf8(s).len() <= 63,
        !s.contains('\0'),
        states.len() == ids.len() + 1,
        states[0].nick_name@ == name_buffer(s),
        forall|k: int|
            0 <= k < ids.len() ==> user_id_stored(states[k], #[trigger] states[k + 1], ids[k]),
    ensures
        buffer_text(states[states.len() - 1].nick_name@) == s,
{
    assert forall|k: int| 0 <= k < states.len() implies #[trigger] states[k].nick_name == states[0].nick_name by {
        lemma_nick_name_kept(ids, states, k);
    }
    lemma_stored_name_reads_back(s);
}

proof fn lemma_nick_name_kept(ids: Seq<Seq<char>>, states: Seq<NetPlayerInfo>, k: int)
    requires
        states.len() == ids.len() + 1,
        0 <= k < states.len(),
        forall|j: int|
            0 <= j < ids.len() ==> user_id_stored(states[j], #[trigger] states[j + 1], ids[j]),
    ensures
        states[k].nick_name == states[0].nick_name,
    decreases k,
{
    if k > 0 {
        lemma_nick_name_kept(ids, states, k - 1);
        assert(user_id_stored(states[k - 1], states[(k - 1) + 1], ids[k - 1]));
    }
}

impl NetPlayerInfo {
    /// The player's nickname (empty when the buffer does not hold valid UTF-8).
    pub fn nick_name_str(&self) -> (s: &str)
        ensures
            s@ == buffer_text(self.nick_name@),
    {
        text_of(&self.nick_name)
    }

    /// The player's user id (empty when the buffer does not hold valid UTF-8).
    pub fn user_id_str(&self) -> (s: &str)
        ensures
            s@ == buffer_text(self.user_id@),
    {
        text_of(&self.user_id)
    }

    /// Stores `s` as the nickname (cut to 63 bytes); nothing else changes.
    pub fn set_nick_name(&mut self, s: &str)
        ensures
            nick_name_stored(*old(self), *final(self), s@),
    {
        copy_str_into(s, &mut self.nick_name);
    }

    /// Stores `s` as the user id (cut to 63 bytes); nothing else changes.
    pub fn set_user_id(&mut self, s: &str)
        ensures
            user_id_stored(*old(self), *final(self), s@),
    {
        copy_str_into(s, &mut self.user_id);
    }
}

} // verus!
