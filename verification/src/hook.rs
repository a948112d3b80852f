use vstd::prelude::*;
use vstd::bytes::{spec_u64_from_le_bytes, spec_u64_to_le_bytes, u64_to_le_bytes};

verus! {

/// Number of bytes of the hooked function that the jump overwrites.
pub const PATCH_LEN: usize = 14;

/// Length of the absolute jump itself (`mov rax, imm64; jmp rax`).
pub const JMP_LEN: usize = 12;

/// Machine code of an absolute x86-64 jump to `to`: `48 B8 <to, 8 bytes
/// little-endian> FF E0`, that is `mov rax, to; jmp rax`.
pub open spec fn abs_jmp_bytes(to: u64) -> Seq<u8> {
    seq![0x48u8, 0xB8u8] + spec_u64_to_le_bytes(to) + seq![0xFFu8, 0xE0u8]
}

/// The trampoline of a hook: the original first bytes of the target, a jump
/// back to the target just past them, and two bytes of padding.
pub open spec fn trampoline_bytes(original: Seq<u8>, target: usize) -> Seq<u8> {
    original + abs_jmp_bytes((target + PATCH_LEN) as u64) + seq![0u8, 0u8]
}

/// The jump written at `to` is 12 bytes long and its immediate operand is
/// the address it jumps to.
pub proof fn lemma_jmp_encodes_destination(to: u64)
    ensures
        abs_jmp_bytes(to).len() == JMP_LEN,
        spec_u64_from_le_bytes(abs_jmp_bytes(to).subrange(2, 10)) == to,
        abs_jmp_bytes(to)[0] == 0x48u8,
        abs_jmp_bytes(to)[1] == 0xB8u8,
        abs_jmp_bytes(to)[10] == 0xFFu8,
        abs_jmp_bytes(to)[11] == 0xE0u8,
{
    vstd::bytes::lemma_auto_spec_u64_to_from_le_bytes();
    assert(abs_jmp_bytes(to).subrange(2, 10) =~= spec_u64_to_le_bytes(to));
}

/// A trampoline starts with the original bytes, then a jump whose
/// immediate operand is `target + PATCH_LEN` (the first byte not moved),
/// then two zero bytes.
pub proof fn lemma_trampoline_jumps_back(original: Seq<u8>, target: usize)
    requires
        original.len() == PATCH_LEN,
        target + PATCH_LEN <= usize::MAX,
    ensures
        trampoline_bytes(original, target).len() == 28,
        trampoline_bytes(original, target).subrange(0, 14) == original,
        trampoline_bytes(original, target)[14] == 0x48u8,
        trampoline_bytes(original, target)[15] == 0xB8u8,
        spec_u64_from_le_bytes(trampoline_bytes(original, target).subrange(16, 24)) == target
            + PATCH_LEN,
        trampoline_bytes(original, target)[24] == 0xFFu8,
        trampoline_bytes(original, target)[25] == 0xE0u8,
        trampoline_bytes(original, target)[26] == 0u8,
        trampoline_bytes(original, target)[27] == 0u8,
{
    let t = trampoline_bytes(original, target);
    let back = (target + PATCH_LEN) as u64;
    lemma_jmp_encodes_destination(back);
    assert(t.subrange(0, 14) =~= original);
    assert(t.subrange(16, 24) =~= abs_jmp_bytes(back).subrange(2, 10));
    assert(back == target + PATCH_LEN);
}

/// The bytes of an absolute jump to `to`.
pub fn abs_jmp(to: u64) -> (v: Vec<u8>)
    ensures
        v@ == abs_jmp_bytes(to),
{
    proof {
        vstd::bytes::lemma_auto_spec_u64_to_from_le_bytes();
    }
    let imm = u64_to_le_bytes(to);
    let mut v: Vec<u8> = Vec::new();
    v.push(0x48u8);
    v.push(0xB8u8);
    let mut i: usize = 0;
    while i < 8
        invariant
            i <= 8,
            imm@.len() == 8,
            imm@ == spec_u64_to_le_bytes(to),
            v@ =~= seq![0x48u8, 0xB8u8] + imm@.take(i as int),
        decreases 8 - i,
    {
        v.push(imm[i]);
        i = i + 1;
        assert(v@ =~= seq![0x48u8, 0xB8u8] + imm@.take(i as int));
    }
    v.push(0xFFu8);
    v.push(0xE0u8);
    assert(imm@.take(8) =~= imm@);
    assert(v@ =~= abs_jmp_bytes(to));
    v
}

/// An inline hook on a function at address `target`: the trampoline that
/// runs the function's original first bytes and then jumps back into it.
pub struct Hook {
    pub trampoline: Vec<u8>,
    pub target: usize,
}

impl Hook {
    /// The hook of the function at `target`, whose first `PATCH_LEN` bytes
    /// are `original`.
    pub fn from_original(original: &[u8], target: usize) -> (h: Hook)
        requires
            original@.len() == PATCH_LEN,
            target + PATCH_LEN <= usize::MAX,
        ensures
            h.trampoline@ == trampoline_bytes(original@, target),
            h.trampoline@.len() == 28,
            h.trampoline@.subrange(0, 14) == original@,
            h.trampoline@[14] == 0x48u8 && h.trampoline@[15] == 0xB8u8,
            spec_u64_from_le_bytes(h.trampoline@.subrange(16, 24)) == target + PATCH_LEN,
            h.trampoline@[24] == 0xFFu8 && h.trampoline@[25] == 0xE0u8,
            h.trampoline@[26] == 0u8 && h.trampoline@[27] == 0u8,
            h.target == target,
    {
        proof {
            lemma_trampoline_jumps_back(original@, target);
        }
        let mut t: Vec<u8> = Vec::new();
        let mut i: usize = 0;
        while i < PATCH_LEN
            invariant
                i <= PATCH_LEN,
                original@.len() == PATCH_LEN,
                t@ =~= original@.take(i as int),
            decreases PATCH_LEN - i,
        {
            t.push(original[i]);
            i = i + 1;
            assert(t@ =~= original@.take(i as int));
        }
        let back = (target + PATCH_LEN) as u64;
        let mut jmp = abs_jmp(back);
        t.append(&mut jmp);
        t.push(0u8);
        t.push(0u8);
        assert(original@.take(PATCH_LEN as int) =~= original@);
        assert(t@ =~= trampoline_bytes(original@, target));
        Hook { trampoline: t, target }
    }

    /// The bytes to write over the start of the hooked function so that it
    /// jumps to `dest`.
    pub fn patch_bytes(dest: usize) -> (v: Vec<u8>)
        ensures
            v@ == abs_jmp_bytes(dest as u64),
            v@.len() == 12,
            v@[0] == 0x48u8 && v@[1] == 0xB8u8,
            spec_u64_from_le_bytes(v@.subrange(2, 10)) == dest,
            v@[10] == 0xFFu8 && v@[11] == 0xE0u8,
    {
        proof {
            lemma_jmp_encodes_destination(dest as u64);
        }
        abs_jmp(dest as u64)
    }
}

} // verus!
