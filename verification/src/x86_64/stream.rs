//! Instruction streaming implementation.

use crate::entity::{EntityList, Label, LabelRef};
use crate::product::Product;
use crate::stream::{little_endian, InstructionStream};
use crate::x86_64::encoding::{
    modrm_direct, mov_reg16_imm16_bytes, mov_reg16_reg16_bytes, mov_reg32_imm32_bytes,
    mov_reg32_reg32_bytes, mov_reg64_imm32_bytes, mov_reg64_imm64_bytes, mov_reg64_reg64_bytes,
    mov_reg8_imm8_bytes, mov_reg8_reg8_bytes, push_fs_bytes, push_gs_bytes, push_imm16_bytes,
    push_imm32_bytes, push_imm8_bytes, push_reg16_bytes, push_reg64_bytes, ret_far_bytes,
    ret_far_imm16_bytes, ret_near_bytes, ret_near_imm16_bytes,
};
use crate::x86_64::register::{Reg16, Reg32, Reg64, Reg8};
use vstd::prelude::*;

verus! {

/// The fixed pattern of a REX prefix.
pub const REX: u8 = 0b01000000;

/// The REX bit for a 64-bit operand width.
pub const REX_W: u8 = 0b1000;

/// The REX bit that extends the source register.
pub const REX_R: u8 = 0b100;

/// The REX bit that extends a memory index.
pub const REX_X: u8 = 0b10;

/// The REX bit that extends the destination register.
pub const REX_B: u8 = 0b1;

/// Setting flag bits in the fixed pattern adds them up, as no two of them overlap.
proof fn lemma_rex_flags()
    ensures
        REX | REX_B == 0x41,
        REX | REX_R == 0x44,
        (REX | REX_B) | REX_R == 0x45,
        REX | REX_W == 0x48,
        (REX | REX_W) | REX_B == 0x49,
        (REX | REX_W) | REX_R == 0x4c,
        ((REX | REX_W) | REX_B) | REX_R == 0x4d,
{
    assert(0x40u8 | 0x1 == 0x41 && 0x40u8 | 0x4 == 0x44 && 0x41u8 | 0x4 == 0x45 && 0x40u8 | 0x8
        == 0x48 && 0x48u8 | 0x1 == 0x49 && 0x48u8 | 0x4 == 0x4c && 0x49u8 | 0x4 == 0x4d)
        by (bit_vector);
}

/// Packing the two offsets under the register-direct mode bits gives the operand byte.
proof fn lemma_modrm_packed(src: u8, dest: u8)
    requires
        src < 8,
        dest < 8,
    ensures
        (0b11u8 << 6) | (src << 3) | dest == modrm_direct(src, dest),
{
    assert((0b11u8 << 6) | (src << 3) | dest == 0xc0 + 8 * src + dest) by (bit_vector)
        requires
            src < 8,
            dest < 8,
    ;
}

/// Appends the low `width` bytes of `value` to `bytes`, least significant byte first.
fn append_little_endian(bytes: &mut Vec<u8>, value: u128, width: usize)
    ensures
        final(bytes)@ == old(bytes)@ + little_endian(value as nat, width as nat),
{
    let ghost start = bytes@;
    let mut rest: u128 = value;
    let mut done: usize = 0;
    assert(bytes@ + little_endian(rest as nat, width as nat) =~= start + little_endian(
        value as nat,
        width as nat,
    ));
    while done < width
        invariant
            done <= width,
            bytes@ + little_endian(rest as nat, (width - done) as nat) == start + little_endian(
                value as nat,
                width as nat,
            ),
        decreases width - done,
    {
        let ghost before = bytes@;
        bytes.push((rest % 256) as u8);
        proof {
            let tail = little_endian((rest / 256) as nat, (width - done - 1) as nat);
            assert(before + little_endian(rest as nat, (width - done) as nat) =~= bytes@ + tail);
        }
        rest = rest / 256;
        done += 1;
    }
    assert(bytes@ + little_endian(rest as nat, 0) =~= bytes@);
}

/// An instruction stream for the x86_64 target.
#[allow(non_camel_case_types)]
pub struct x86_64InstructionStream {
    /// The bytes written to the instruction stream.
    bytes: Vec<u8>,
    /// The labels written to the instruction stream.
    labels: EntityList<Label, LabelRef>,
}

impl InstructionStream for x86_64InstructionStream {
    closed spec fn emitted(&self) -> Seq<u8> {
        self.bytes@
    }

    closed spec fn label_states(&self) -> Seq<Label> {
        self.labels@
    }

    /// The target is little-endian.
    open spec fn native_bytes(value: nat, width: nat) -> Seq<u8> {
        little_endian(value, width)
    }

    proof fn native_bytes_len(value: nat, width: nat)
        decreases width,
    {
        if width > 0 {
            Self::native_bytes_len(value / 256, (width - 1) as nat);
        }
    }

    #[inline(always)]
    fn create_label(&mut self) -> (r: LabelRef) {
        self.labels.push(Label::Unattached)
    }

    #[inline(always)]
    fn create_label_attached(&mut self) -> (r: LabelRef) {
        self.labels.push(Label::Attached(self.labels.len()))
    }

    #[inline(always)]
    fn attach_label(&mut self, label: LabelRef) {
        *self.labels.get_mut(label) = Label::Attached(self.labels.len());
    }

    #[inline(always)]
    fn write_byte(&mut self, byte: u8) {
        self.bytes.push(byte);
    }

    #[inline(always)]
    fn write_word(&mut self, word: u16)
        ensures
            final(self).emitted() == old(self).emitted() + little_endian(word as nat, 2),
    {
        append_little_endian(&mut self.bytes, word as u128, 2);
    }

    #[inline(always)]
    fn write_double_word(&mut self, word: u32)
        ensures
            final(self).emitted() == old(self).emitted() + little_endian(word as nat, 4),
    {
        append_little_endian(&mut self.bytes, word as u128, 4);
    }

    #[inline(always)]
    fn write_quad_word(&mut self, word: u64)
        ensures
            final(self).emitted() == old(self).emitted() + little_endian(word as nat, 8),
    {
        append_little_endian(&mut self.bytes, word as u128, 8);
    }

    #[inline(always)]
    fn write_double_quad_word(&mut self, word: u128)
        ensures
            final(self).emitted() == old(self).emitted() + little_endian(word as nat, 16),
    {
        append_little_endian(&mut self.bytes, word, 16);
    }

    #[inline(always)]
    fn finish(self) -> (r: Product) {
        Product::new(self.bytes)
    }
}

impl x86_64InstructionStream {
    /// Creates a new, empty instruction stream.
    #[inline(always)]
    pub fn new() -> (r: Self)
        ensures
            r.emitted() == Seq::<u8>::empty(),
            r.label_states() == Seq::<Label>::empty(),
    {
        Self { bytes: Vec::new(), labels: EntityList::new() }
    }

    /// The labels of the stream, each with its current state.
    pub fn labels(&self) -> (r: &EntityList<Label, LabelRef>)
        ensures
            r@ == self.label_states(),
    {
        &self.labels
    }

    /// Pushes the stack base pointer onto the stack.
    #[inline(always)]
    pub fn intrinsic_push_rbp(&mut self)
        ensures
            final(self).emitted() == old(self).emitted() + push_reg64_bytes(Reg64::Rbp),
            final(self).emitted() == old(self).emitted().push(0x55),
            final(self).label_states() == old(self).label_states(),
    {
        self.push_reg64(Reg64::Rbp);
        assert(self.emitted() =~= old(self).emitted().push(0x55));
    }

    /// Move *r8* to *r/m8*.
    pub fn mov_reg8_reg8(&mut self, dest: Reg8, src: Reg8)
        ensures
            final(self).emitted() == old(self).emitted() + mov_reg8_reg8_bytes(dest, src),
            final(self).label_states() == old(self).label_states(),
    {
        let is_dest_extension = dest.is_extension();
        let is_src_extension = src.is_extension();
        let is_dest_reserved = dest.is_reserved();
        let is_src_reserved = src.is_reserved();
        proof {
            lemma_rex_flags();
            lemma_modrm_packed(src.offset(), dest.offset());
        }

        if is_dest_extension || is_src_extension || is_dest_reserved || is_src_reserved {
            let mut prefix: u8 = REX;

            if is_dest_extension {
                prefix |= REX_B;
            }
            if is_src_extension {
                prefix |= REX_R;
            }

            self.write_byte(prefix);  // REX prefix
        }

        self.write_byte(0x88);  // opcode
        self.write_byte((0b11 << 6) | (src.offset() << 3) | (dest.offset()));  // value MODRM encoded
        assert(self.emitted() =~= old(self).emitted() + mov_reg8_reg8_bytes(dest, src));
    }

    /// Move *r16* to *r/m16*.
    pub fn mov_reg16_reg16(&mut self, dest: Reg16, src: Reg16)
        ensures
            final(self).emitted() == old(self).emitted() + mov_reg16_reg16_bytes(dest, src),
            final(self).label_states() == old(self).label_states(),
    {
        self.write_byte(0x66);

        let is_dest_extension = dest.is_extension();
        let is_src_extension = src.is_extension();
        proof {
            lemma_rex_flags();
            lemma_modrm_packed(src.offset(), dest.offset());
        }
        if is_dest_extension || is_src_extension {
            let mut prefix: u8 = REX;

            if is_dest_extension {
                prefix |= REX_B;
            }
            if is_src_extension {
                prefix |= REX_R;
            }

            self.write_byte(prefix);
        }

        self.write_byte(0x89);
        self.write_byte((0b11 << 6) | (src.offset() << 3) | (dest.offset()));
        assert(self.emitted() =~= old(self).emitted() + mov_reg16_reg16_bytes(dest, src));
    }

    /// Move *r32* to *r/m32*.
    pub fn mov_reg32_reg32(&mut self, dest: Reg32, src: Reg32)
        ensures
            final(self).emitted() == old(self).emitted() + mov_reg32_reg32_bytes(dest, src),
            final(self).label_states() == old(self).label_states(),
    {
        let is_dest_extension = dest.is_extension();
        let is_src_extension = src.is_extension();
        proof {
            lemma_rex_flags();
            lemma_modrm_packed(src.offset(), dest.offset());
        }
        if is_dest_extension || is_src_extension {
            let mut prefix: u8 = REX;

            if is_dest_extension {
                prefix |= REX_B;
            }
            if is_src_extension {
                prefix |= REX_R;
            }

            self.write_byte(prefix);
        }

        self.write_byte(0x89);
        self.write_byte((0b11 << 6) | (src.offset() << 3) | (dest.offset()));
        assert(self.emitted() =~= old(self).emitted() + mov_reg32_reg32_bytes(dest, src));
    }

    /// Move *r64* to *r/m64*.
    pub fn mov_reg64_reg64(&mut self, dest: Reg64, src: Reg64)
        ensures
            final(self).emitted() == old(self).emitted() + mov_reg64_reg64_bytes(dest, src),
            final(self).label_states() == old(self).label_states(),
    {
        let mut prefix: u8 = REX | REX_W;  // REX.W prefix

        if dest.is_extension() {
            prefix |= REX_B;
        }
        if src.is_extension() {
            prefix |= REX_R;
        }
        proof {
            lemma_rex_flags();
            lemma_modrm_packed(src.offset(), dest.offset());
        }

        self.write_byte(prefix);
        self.write_byte(0x89);  // opcode
        self.write_byte((0b11 << 6) | (src.offset() << 3) | (dest.offset()));  // value MODRM encoded
        assert(self.emitted() =~= old(self).emitted() + mov_reg64_reg64_bytes(dest, src));
    }

    /// Move *imm8* to *r8*.
    pub fn mov_reg8_imm8(&mut self, dest: Reg8, src: u8)
        ensures
            final(self).emitted() == old(self).emitted() + mov_reg8_imm8_bytes(dest, src),
            final(self).label_states() == old(self).label_states(),
    {
        proof {
            lemma_rex_flags();
        }
        if dest.is_extension() {
            self.write_byte(REX | REX_B);
        } else if dest.is_reserved() {
            self.write_byte(REX);
        }

        self.write_byte(0xb0 + dest.offset());  // opcode
        self.write_byte(src);
        assert(self.emitted() =~= old(self).emitted() + mov_reg8_imm8_bytes(dest, src));
    }

    /// Move *imm16* to *r16*.
    pub fn mov_reg16_imm16(&mut self, dest: Reg16, src: u16)
        ensures
            final(self).emitted() == old(self).emitted() + mov_reg16_imm16_bytes(dest, src),
            final(self).label_states() == old(self).label_states(),
    {
        self.write_byte(0x66);  // prefix

        proof {
            lemma_rex_flags();
        }
        if dest.is_extension() {
            self.write_byte(REX | REX_B);  // extension prefix
        }

        self.write_byte(0xb8 + dest.offset());  // opcode
        self.write_word(src);
        assert(self.emitted() =~= old(self).emitted() + mov_reg16_imm16_bytes(dest, src));
    }

    /// Move *imm32* to *r32*.
    pub fn mov_reg32_imm32(&mut self, dest: Reg32, src: u32)
        ensures
            final(self).emitted() == old(self).emitted() + mov_reg32_imm32_bytes(dest, src),
            final(self).label_states() == old(self).label_states(),
    {
        proof {
            lemma_rex_flags();
        }
        if dest.is_extension() {
            self.write_byte(REX | REX_B);  // extension prefix
        }

        self.write_byte(0xb8 + dest.offset());  // opcode
        self.write_double_word(src);
        assert(self.emitted() =~= old(self).emitted() + mov_reg32_imm32_bytes(dest, src));
    }

    /// Move *imm32* to *r64*.
    pub fn mov_reg64_imm32(&mut self, dest: Reg64, src: u32)
        ensures
            final(self).emitted() == old(self).emitted() + mov_reg64_imm32_bytes(dest, src),
            final(self).label_states() == old(self).label_states(),
    {
        let mut prefix: u8 = REX | REX_W;  // REX.W prefix

        if dest.is_extension() {
            prefix = prefix | REX_B;
        }
        proof {
            lemma_rex_flags();
        }

        self.write_byte(prefix);
        self.write_byte(0xc7 + dest.offset());  // opcode
        self.write_double_word(src);
        assert(self.emitted() =~= old(self).emitted() + mov_reg64_imm32_bytes(dest, src));
    }

    /// Move *imm64* to *r64*.
    pub fn mov_reg64_imm64(&mut self, dest: Reg64, src: u64)
        ensures
            final(self).emitted() == old(self).emitted() + mov_reg64_imm64_bytes(dest, src),
            final(self).label_states() == old(self).label_states(),
    {
        // REX prefix
        let mut prefix: u8 = REX | REX_W;

        if dest.is_extension() {
            prefix |= REX_B;
        }
        proof {
            lemma_rex_flags();
        }

        self.write_byte(prefix);
        self.write_byte(0xb8 + dest.offset());  // opcode
        self.write_quad_word(src);
        assert(self.emitted() =~= old(self).emitted() + mov_reg64_imm64_bytes(dest, src));
    }

    /// Push *r/m16*.
    pub fn push_reg16(&mut self, reg16: Reg16)
        ensures
            final(self).emitted() == old(self).emitted() + push_reg16_bytes(reg16),
            final(self).label_states() == old(self).label_states(),
    {
        self.write_byte(0x66);  // prefix

        proof {
            lemma_rex_flags();
        }
        if reg16.is_extension() {
            self.write_byte(REX | REX_B);  // extension prefix
        }

        self.write_byte(0x50 + reg16.offset());  // opcode
        assert(self.emitted() =~= old(self).emitted() + push_reg16_bytes(reg16));
    }

    /// Push *r/m64*.
    pub fn push_reg64(&mut self, reg64: Reg64)
        ensures
            final(self).emitted() == old(self).emitted() + push_reg64_bytes(reg64),
            final(self).label_states() == old(self).label_states(),
    {
        if reg64.is_extension() {
            self.write_byte(0x41);  // prefix
        }
        self.write_byte(0x50 + reg64.offset());  // opcode
        assert(self.emitted() =~= old(self).emitted() + push_reg64_bytes(reg64));
    }

    /// Push *imm8*.
    pub fn push_imm8(&mut self, imm8: u8)
        ensures
            final(self).emitted() == old(self).emitted() + push_imm8_bytes(imm8),
            final(self).label_states() == old(self).label_states(),
    {
        self.write_byte(0x6a);
        self.write_byte(imm8);
        assert(self.emitted() =~= old(self).emitted() + push_imm8_bytes(imm8));
    }

    /// Push *imm16*.
    ///
    /// **NOTE:** extends *imm16* into an *imm32*.
    pub fn push_imm16(&mut self, imm16: u16)
        ensures
            final(self).emitted() == old(self).emitted() + push_imm16_bytes(imm16),
            final(self).label_states() == old(self).label_states(),
    {
        self.write_byte(0x68);
        self.write_double_word(imm16 as u32);
        assert(self.emitted() =~= old(self).emitted() + push_imm16_bytes(imm16));
    }

    /// Push *imm32*.
    pub fn push_imm32(&mut self, imm32: u32)
        ensures
            final(self).emitted() == old(self).emitted() + push_imm32_bytes(imm32),
            final(self).label_states() == old(self).label_states(),
    {
        self.write_byte(0x68);
        self.write_double_word(imm32);
        assert(self.emitted() =~= old(self).emitted() + push_imm32_bytes(imm32));
    }

    /// Push FS.
    pub fn push_fs(&mut self)
        ensures
            final(self).emitted() == old(self).emitted() + push_fs_bytes(),
            final(self).label_states() == old(self).label_states(),
    {
        self.write_byte(0x0f);
        self.write_byte(0xa0);
        assert(self.emitted() =~= old(self).emitted() + push_fs_bytes());
    }

    /// Push GS.
    pub fn push_gs(&mut self)
        ensures
            final(self).emitted() == old(self).emitted() + push_gs_bytes(),
            final(self).label_states() == old(self).label_states(),
    {
        self.write_byte(0x0f);
        self.write_byte(0xa8);
        assert(self.emitted() =~= old(self).emitted() + push_gs_bytes());
    }

    /// Near return to calling procedure.
    pub fn ret_near(&mut self)
        ensures
            final(self).emitted() == old(self).emitted() + ret_near_bytes(),
            final(self).label_states() == old(self).label_states(),
    {
        self.write_byte(0xc3);  // opcode
        assert(self.emitted() =~= old(self).emitted() + ret_near_bytes());
    }

    /// Far return to calling procedure.
    pub fn ret_far(&mut self)
        ensures
            final(self).emitted() == old(self).emitted() + ret_far_bytes(),
            final(self).label_states() == old(self).label_states(),
    {
        self.write_byte(0xcb);  // opcode
        assert(self.emitted() =~= old(self).emitted() + ret_far_bytes());
    }

    /// Near return to calling procedure and pop *imm16* bytes from stack.
    pub fn ret_near_imm16(&mut self, imm16: u16)
        ensures
            final(self).emitted() == old(self).emitted() + ret_near_imm16_bytes(imm16),
            final(self).label_states() == old(self).label_states(),
    {
        self.write_byte(0xc2);
        self.write_word(imm16);
        assert(self.emitted() =~= old(self).emitted() + ret_near_imm16_bytes(imm16));
    }

    /// Far return to calling procedure and pop *imm16* bytes from stack.
    pub fn ret_far_imm16(&mut self, imm16: u16)
        ensures
            final(self).emitted() == old(self).emitted() + ret_far_imm16_bytes(imm16),
            final(self).label_states() == old(self).label_states(),
    {
        self.write_byte(0xca);
        self.write_word(imm16);
        assert(self.emitted() =~= old(self).emitted() + ret_far_imm16_bytes(imm16));
    }
}

} // verus!
