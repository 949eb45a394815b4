//! What each x86_64 instruction form encodes to, as sequences of bytes.

use crate::stream::little_endian;
use crate::x86_64::register::{Reg16, Reg32, Reg64, Reg8};
use vstd::prelude::*;

verus! {

/// The REX prefix `0100WRXB`: the fixed pattern `0100` in the high four bits, then one bit
/// each for the 64-bit operand width (`w`), the extension of the source register (`r`), the
/// extension of a memory index (`x`) and the extension of the destination register (`b`).
pub open spec fn rex(w: bool, r: bool, x: bool, b: bool) -> u8 {
    (0x40 + (if w {
        8int
    } else {
        0int
    }) + (if r {
        4int
    } else {
        0int
    }) + (if x {
        2int
    } else {
        0int
    }) + (if b {
        1int
    } else {
        0int
    })) as u8
}

/// The operand byte for register-direct addressing: the mode `11` in the top two bits, the
/// source register's offset in the middle three and the destination register's offset in
/// the low three.
pub open spec fn modrm_direct(src: u8, dest: u8) -> u8
    recommends
        src < 8,
        dest < 8,
{
    (0xc0 + 8 * src + dest) as u8
}

/// The REX prefix of a move between registers that needs no width bit, where one is needed
/// at all: `forced` says that a prefix is needed even with no extension bit set.
pub open spec fn rex_if_needed(forced: bool, r: bool, b: bool) -> Seq<u8> {
    if forced || r || b {
        seq![rex(false, r, false, b)]
    } else {
        Seq::empty()
    }
}

/// Move *r8* to *r/m8*.
///
/// A prefix is needed as soon as either register is an extension register or can only be
/// addressed with one; only extension registers set a bit in it.
pub open spec fn mov_reg8_reg8_bytes(dest: Reg8, src: Reg8) -> Seq<u8> {
    rex_if_needed(
        dest.is_reserved() || src.is_reserved(),
        src.is_extension(),
        dest.is_extension(),
    ) + seq![0x88u8, modrm_direct(src.offset(), dest.offset())]
}

/// Move *r16* to *r/m16*: the operand-size override comes first, before any REX prefix.
pub open spec fn mov_reg16_reg16_bytes(dest: Reg16, src: Reg16) -> Seq<u8> {
    seq![0x66u8] + rex_if_needed(false, src.is_extension(), dest.is_extension())
        + seq![0x89u8, modrm_direct(src.offset(), dest.offset())]
}

/// Move *r32* to *r/m32*.
pub open spec fn mov_reg32_reg32_bytes(dest: Reg32, src: Reg32) -> Seq<u8> {
    rex_if_needed(false, src.is_extension(), dest.is_extension())
        + seq![0x89u8, modrm_direct(src.offset(), dest.offset())]
}

/// Move *r64* to *r/m64*: the prefix is always there, with the width bit set.
pub open spec fn mov_reg64_reg64_bytes(dest: Reg64, src: Reg64) -> Seq<u8> {
    seq![
        rex(true, src.is_extension(), false, dest.is_extension()),
        0x89u8,
        modrm_direct(src.offset(), dest.offset()),
    ]
}

/// Move *imm8* to *r8*: a register that can only be addressed with a prefix gets a bare one.
pub open spec fn mov_reg8_imm8_bytes(dest: Reg8, src: u8) -> Seq<u8> {
    rex_if_needed(dest.is_reserved(), false, dest.is_extension())
        + seq![(0xb0 + dest.offset()) as u8, src]
}

/// Move *imm16* to *r16*.
pub open spec fn mov_reg16_imm16_bytes(dest: Reg16, src: u16) -> Seq<u8> {
    seq![0x66u8] + rex_if_needed(false, false, dest.is_extension())
        + seq![(0xb8 + dest.offset()) as u8] + little_endian(src as nat, 2)
}

/// Move *imm32* to *r32*.
pub open spec fn mov_reg32_imm32_bytes(dest: Reg32, src: u32) -> Seq<u8> {
    rex_if_needed(false, false, dest.is_extension()) + seq![(0xb8 + dest.offset()) as u8]
        + little_endian(src as nat, 4)
}

/// Move *imm32* to *r64*.
pub open spec fn mov_reg64_imm32_bytes(dest: Reg64, src: u32) -> Seq<u8> {
    seq![rex(true, false, false, dest.is_extension()), (0xc7 + dest.offset()) as u8]
        + little_endian(src as nat, 4)
}

/// Move *imm64* to *r64*.
pub open spec fn mov_reg64_imm64_bytes(dest: Reg64, src: u64) -> Seq<u8> {
    seq![rex(true, false, false, dest.is_extension()), (0xb8 + dest.offset()) as u8]
        + little_endian(src as nat, 8)
}

/// Push *r/m16*: the operand-size override comes first, then the prefix that an extension
/// register needs, then the opcode that names the register.
pub open spec fn push_reg16_bytes(reg16: Reg16) -> Seq<u8> {
    seq![0x66u8] + rex_if_needed(false, false, reg16.is_extension())
        + seq![(0x50 + reg16.offset()) as u8]
}

/// Push *r/m64*.
pub open spec fn push_reg64_bytes(reg64: Reg64) -> Seq<u8> {
    rex_if_needed(false, false, reg64.is_extension()) + seq![(0x50 + reg64.offset()) as u8]
}

/// Push *imm8*.
pub open spec fn push_imm8_bytes(imm8: u8) -> Seq<u8> {
    seq![0x6au8, imm8]
}

/// Push *imm16*, extended with zeros to an *imm32*.
pub open spec fn push_imm16_bytes(imm16: u16) -> Seq<u8> {
    seq![0x68u8] + little_endian(imm16 as nat, 4)
}

/// Push *imm32*.
pub open spec fn push_imm32_bytes(imm32: u32) -> Seq<u8> {
    seq![0x68u8] + little_endian(imm32 as nat, 4)
}

/// Push FS.
pub open spec fn push_fs_bytes() -> Seq<u8> {
    seq![0x0fu8, 0xa0u8]
}

/// Push GS.
pub open spec fn push_gs_bytes() -> Seq<u8> {
    seq![0x0fu8, 0xa8u8]
}

/// Near return to calling procedure.
pub open spec fn ret_near_bytes() -> Seq<u8> {
    seq![0xc3u8]
}

/// Far return to calling procedure.
pub open spec fn ret_far_bytes() -> Seq<u8> {
    seq![0xcbu8]
}

/// Near return to calling procedure, popping *imm16* bytes from the stack.
pub open spec fn ret_near_imm16_bytes(imm16: u16) -> Seq<u8> {
    seq![0xc2u8] + little_endian(imm16 as nat, 2)
}

/// Far return to calling procedure, popping *imm16* bytes from the stack.
pub open spec fn ret_far_imm16_bytes(imm16: u16) -> Seq<u8> {
    seq![0xcau8] + little_endian(imm16 as nat, 2)
}

/// The three fields of a register-direct operand byte can be read back from it: the top
/// two bits are `11`, the middle three are the source's offset, the low three the
/// destination's.
pub proof fn lemma_modrm_direct_fields(src: u8, dest: u8)
    requires
        src < 8,
        dest < 8,
    ensures
        modrm_direct(src, dest) >> 6 == 0b11,
        (modrm_direct(src, dest) >> 3) & 0b111 == src,
        modrm_direct(src, dest) & 0b111 == dest,
{
    let m: u8 = modrm_direct(src, dest);
    assert(m >> 6 == 0b11 && (m >> 3) & 0b111 == src && m & 0b111 == dest) by (bit_vector)
        requires
            src < 8,
            dest < 8,
            m == 0xc0 + 8 * src + dest,
    ;
}

/// Whether `bytes` ends in the register-direct operand byte that names `src` as the source
/// and `dest` as the destination.
pub open spec fn ends_in_operand_byte(bytes: Seq<u8>, src: u8, dest: u8) -> bool {
    &&& bytes.len() > 0
    &&& bytes.last() >> 6 == 0b11
    &&& (bytes.last() >> 3) & 0b111 == src
    &&& bytes.last() & 0b111 == dest
}

/// An 8-bit move between registers ends in the operand byte of its two registers, whatever
/// prefix it starts with.
pub proof fn lemma_mov_reg8_reg8_operand_byte(dest: Reg8, src: Reg8)
    ensures
        ends_in_operand_byte(mov_reg8_reg8_bytes(dest, src), src.offset(), dest.offset()),
{
    lemma_modrm_direct_fields(src.offset(), dest.offset());
}

/// A 16-bit move between registers ends in the operand byte of its two registers, whatever
/// prefixes it starts with.
pub proof fn lemma_mov_reg16_reg16_operand_byte(dest: Reg16, src: Reg16)
    ensures
        ends_in_operand_byte(mov_reg16_reg16_bytes(dest, src), src.offset(), dest.offset()),
{
    lemma_modrm_direct_fields(src.offset(), dest.offset());
}

/// A 32-bit move between registers ends in the operand byte of its two registers, whatever
/// prefix it starts with.
pub proof fn lemma_mov_reg32_reg32_operand_byte(dest: Reg32, src: Reg32)
    ensures
        ends_in_operand_byte(mov_reg32_reg32_bytes(dest, src), src.offset(), dest.offset()),
{
    lemma_modrm_direct_fields(src.offset(), dest.offset());
}

/// A 64-bit move between registers ends in the operand byte of its two registers, whatever
/// the extension bits of its prefix.
pub proof fn lemma_mov_reg64_reg64_operand_byte(dest: Reg64, src: Reg64)
    ensures
        ends_in_operand_byte(mov_reg64_reg64_bytes(dest, src), src.offset(), dest.offset()),
{
    lemma_modrm_direct_fields(src.offset(), dest.offset());
}

} // verus!
