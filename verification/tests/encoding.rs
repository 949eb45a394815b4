use asmkit::x86_64::register::{Reg16, Reg32, Reg64, Reg8};
use asmkit::x86_64::stream::{x86_64InstructionStream, REX, REX_B, REX_R, REX_W, REX_X};
use asmkit::InstructionStream;

fn all_reg8() -> Vec<Reg8> {
    vec![
        Reg8::Al,
        Reg8::Bl,
        Reg8::Cl,
        Reg8::Dl,
        Reg8::Sil,
        Reg8::Dil,
        Reg8::Bpl,
        Reg8::Spl,
        Reg8::Ah,
        Reg8::Bh,
        Reg8::Ch,
        Reg8::Dh,
        Reg8::R8b,
        Reg8::R9b,
        Reg8::R10b,
        Reg8::R11b,
        Reg8::R12b,
        Reg8::R13b,
        Reg8::R14b,
        Reg8::R15b,
    ]
}

fn all_reg16() -> Vec<Reg16> {
    vec![
        Reg16::Ax,
        Reg16::Bx,
        Reg16::Cx,
        Reg16::Dx,
        Reg16::Si,
        Reg16::Di,
        Reg16::Bp,
        Reg16::Sp,
        Reg16::R8w,
        Reg16::R9w,
        Reg16::R10w,
        Reg16::R11w,
        Reg16::R12w,
        Reg16::R13w,
        Reg16::R14w,
        Reg16::R15w,
    ]
}

fn all_reg32() -> Vec<Reg32> {
    vec![
        Reg32::Eax,
        Reg32::Ebx,
        Reg32::Ecx,
        Reg32::Edx,
        Reg32::Esi,
        Reg32::Edi,
        Reg32::Ebp,
        Reg32::Esp,
        Reg32::R8d,
        Reg32::R9d,
        Reg32::R10d,
        Reg32::R11d,
        Reg32::R12d,
        Reg32::R13d,
        Reg32::R14d,
        Reg32::R15d,
    ]
}

fn all_reg64() -> Vec<Reg64> {
    vec![
        Reg64::Rax,
        Reg64::Rbx,
        Reg64::Rcx,
        Reg64::Rdx,
        Reg64::Rsi,
        Reg64::Rdi,
        Reg64::Rbp,
        Reg64::Rsp,
        Reg64::R8,
        Reg64::R9,
        Reg64::R10,
        Reg64::R11,
        Reg64::R12,
        Reg64::R13,
        Reg64::R14,
        Reg64::R15,
    ]
}

fn check_operand_byte(bytes: &[u8], src: u8, dest: u8) {
    let last: u8 = *bytes.last().unwrap();
    assert_eq!(last >> 6, 0b11);
    assert_eq!((last >> 3) & 0b111, src);
    assert_eq!(last & 0b111, dest);
}

#[test]
fn rex_constants() {
    assert_eq!(REX, 0x40);
    assert_eq!(REX_W, 0x08);
    assert_eq!(REX_R, 0x04);
    assert_eq!(REX_X, 0x02);
    assert_eq!(REX_B, 0x01);
}

#[test]
fn write_byte_appends_one_byte() {
    let mut s = x86_64InstructionStream::new();
    s.write_byte(0xab);
    s.write_byte(0x00);
    s.write_byte(0xff);
    assert_eq!(s.finish().emit(), vec![0xabu8, 0x00, 0xff]);
}

#[test]
fn write_word_is_little_endian() {
    let mut s = x86_64InstructionStream::new();
    s.write_word(0x1234);
    s.write_word(0x00ff);
    s.write_word(0xffff);
    assert_eq!(s.finish().emit(), vec![0x34u8, 0x12, 0xff, 0x00, 0xff, 0xff]);
}

#[test]
fn write_double_word_is_little_endian() {
    let mut s = x86_64InstructionStream::new();
    s.write_double_word(0x1234_5678);
    s.write_double_word(1);
    assert_eq!(s.finish().emit(), vec![0x78u8, 0x56, 0x34, 0x12, 0x01, 0x00, 0x00, 0x00]);
}

#[test]
fn write_quad_word_is_little_endian() {
    let mut s = x86_64InstructionStream::new();
    s.write_quad_word(0x1122_3344_5566_7788);
    assert_eq!(s.finish().emit(), vec![0x88u8, 0x77, 0x66, 0x55, 0x44, 0x33, 0x22, 0x11]);
    let mut t = x86_64InstructionStream::new();
    t.write_quad_word(u64::MAX);
    assert_eq!(t.finish().emit(), vec![0xffu8; 8]);
}

#[test]
fn write_double_quad_word_is_little_endian() {
    let mut s = x86_64InstructionStream::new();
    s.write_double_quad_word(0x0102_0304_0506_0708_090a_0b0c_0d0e_0f10);
    assert_eq!(
        s.finish().emit(),
        vec![
            0x10u8, 0x0f, 0x0e, 0x0d, 0x0c, 0x0b, 0x0a, 0x09, 0x08, 0x07, 0x06, 0x05, 0x04, 0x03,
            0x02, 0x01
        ]
    );
    let mut t = x86_64InstructionStream::new();
    t.write_double_quad_word(u128::MAX);
    assert_eq!(t.finish().emit(), vec![0xffu8; 16]);
}

#[test]
fn writes_match_std_little_endian() {
    let mut s = x86_64InstructionStream::new();
    s.write_word(0xbeef);
    s.write_double_word(0xdead_beef);
    s.write_quad_word(0x0123_4567_89ab_cdef);
    s.write_double_quad_word(0x0123_4567_89ab_cdef_fedc_ba98_7654_3210);
    let mut expected: Vec<u8> = Vec::new();
    expected.extend_from_slice(&0xbeefu16.to_le_bytes());
    expected.extend_from_slice(&0xdead_beefu32.to_le_bytes());
    expected.extend_from_slice(&0x0123_4567_89ab_cdefu64.to_le_bytes());
    expected.extend_from_slice(&0x0123_4567_89ab_cdef_fedc_ba98_7654_3210u128.to_le_bytes());
    assert_eq!(s.finish().emit(), expected);
}

#[test]
fn mov_reg64_reg64_plain_is_three_bytes() {
    let mut s = x86_64InstructionStream::new();
    s.mov_reg64_reg64(Reg64::Rax, Reg64::Rbx);
    assert_eq!(s.finish().emit(), vec![0x48u8, 0x89, 0xd8]);
}

#[test]
fn mov_reg64_reg64_extension_bits() {
    let mut s = x86_64InstructionStream::new();
    s.mov_reg64_reg64(Reg64::R8, Reg64::R15);
    s.mov_reg64_reg64(Reg64::R9, Reg64::Rcx);
    s.mov_reg64_reg64(Reg64::Rdx, Reg64::R10);
    assert_eq!(
        s.finish().emit(),
        vec![0x4du8, 0x89, 0xf8, 0x49, 0x89, 0xc9, 0x4c, 0x89, 0xd2]
    );
}

#[test]
fn mov_reg8_reg8_without_prefix() {
    let mut s = x86_64InstructionStream::new();
    s.mov_reg8_reg8(Reg8::Al, Reg8::Bl);
    s.mov_reg8_reg8(Reg8::Ah, Reg8::Bh);
    assert_eq!(s.finish().emit(), vec![0x88u8, 0xd8, 0x88, 0xfc]);
}

#[test]
fn mov_reg8_reg8_reserved_gets_bare_prefix() {
    let mut s = x86_64InstructionStream::new();
    s.mov_reg8_reg8(Reg8::Spl, Reg8::Al);
    s.mov_reg8_reg8(Reg8::Al, Reg8::Dil);
    s.mov_reg8_reg8(Reg8::Sil, Reg8::Bpl);
    assert_eq!(
        s.finish().emit(),
        vec![0x40u8, 0x88, 0xc4, 0x40, 0x88, 0xf8, 0x40, 0x88, 0xee]
    );
}

#[test]
fn mov_reg8_reg8_extension_bits() {
    let mut s = x86_64InstructionStream::new();
    s.mov_reg8_reg8(Reg8::R8b, Reg8::Al);
    s.mov_reg8_reg8(Reg8::Al, Reg8::R9b);
    s.mov_reg8_reg8(Reg8::R12b, Reg8::R13b);
    s.mov_reg8_reg8(Reg8::Dil, Reg8::R10b);
    assert_eq!(
        s.finish().emit(),
        vec![
            0x41u8, 0x88, 0xc0, 0x44, 0x88, 0xc8, 0x45, 0x88, 0xec, 0x44, 0x88, 0xd7
        ]
    );
}

#[test]
fn mov_reg16_reg16_override_comes_first() {
    let mut s = x86_64InstructionStream::new();
    s.mov_reg16_reg16(Reg16::Ax, Reg16::Cx);
    s.mov_reg16_reg16(Reg16::R8w, Reg16::Ax);
    s.mov_reg16_reg16(Reg16::Bx, Reg16::R9w);
    s.mov_reg16_reg16(Reg16::R12w, Reg16::R13w);
    assert_eq!(
        s.finish().emit(),
        vec![
            0x66u8, 0x89, 0xc8, 0x66, 0x41, 0x89, 0xc0, 0x66, 0x44, 0x89, 0xcb, 0x66, 0x45, 0x89,
            0xec
        ]
    );
}

#[test]
fn mov_reg32_reg32_prefix_is_conditional() {
    let mut s = x86_64InstructionStream::new();
    s.mov_reg32_reg32(Reg32::Eax, Reg32::Ebx);
    s.mov_reg32_reg32(Reg32::Edi, Reg32::R9d);
    s.mov_reg32_reg32(Reg32::R15d, Reg32::Esp);
    s.mov_reg32_reg32(Reg32::R8d, Reg32::R8d);
    assert_eq!(
        s.finish().emit(),
        vec![0x89u8, 0xd8, 0x44, 0x89, 0xcf, 0x41, 0x89, 0xe7, 0x45, 0x89, 0xc0]
    );
}

#[test]
fn mov_operand_byte_fields_for_every_pair() {
    for dest in all_reg8() {
        for src in all_reg8() {
            let mut s = x86_64InstructionStream::new();
            s.mov_reg8_reg8(dest, src);
            check_operand_byte(&s.finish().emit(), src.offset(), dest.offset());
        }
    }
    for dest in all_reg16() {
        for src in all_reg16() {
            let mut s = x86_64InstructionStream::new();
            s.mov_reg16_reg16(dest, src);
            check_operand_byte(&s.finish().emit(), src.offset(), dest.offset());
        }
    }
    for dest in all_reg32() {
        for src in all_reg32() {
            let mut s = x86_64InstructionStream::new();
            s.mov_reg32_reg32(dest, src);
            check_operand_byte(&s.finish().emit(), src.offset(), dest.offset());
        }
    }
    for dest in all_reg64() {
        for src in all_reg64() {
            let mut s = x86_64InstructionStream::new();
            s.mov_reg64_reg64(dest, src);
            let bytes = s.finish().emit();
            assert_eq!(bytes.len(), 3);
            assert_eq!(bytes[0] & 0xf8, 0x48);
            check_operand_byte(&bytes, src.offset(), dest.offset());
        }
    }
}

#[test]
fn mov_reg8_imm8_plain_is_two_bytes() {
    let mut s = x86_64InstructionStream::new();
    s.mov_reg8_imm8(Reg8::Al, 0x7f);
    assert_eq!(s.finish().emit(), vec![0xb0u8, 0x7f]);
    let mut t = x86_64InstructionStream::new();
    t.mov_reg8_imm8(Reg8::Cl, 1);
    t.mov_reg8_imm8(Reg8::Ah, 2);
    assert_eq!(t.finish().emit(), vec![0xb1u8, 0x01, 0xb4, 0x02]);
}

#[test]
fn mov_reg8_imm8_prefixes() {
    let mut s = x86_64InstructionStream::new();
    s.mov_reg8_imm8(Reg8::Spl, 5);
    s.mov_reg8_imm8(Reg8::R15b, 0xff);
    assert_eq!(s.finish().emit(), vec![0x40u8, 0xb4, 0x05, 0x41, 0xb7, 0xff]);
}

#[test]
fn mov_reg16_imm16_extended_is_five_bytes() {
    let mut s = x86_64InstructionStream::new();
    s.mov_reg16_imm16(Reg16::R9w, 0x1234);
    assert_eq!(s.finish().emit(), vec![0x66u8, 0x41, 0xb9, 0x34, 0x12]);
}

#[test]
fn mov_reg16_imm16_plain() {
    let mut s = x86_64InstructionStream::new();
    s.mov_reg16_imm16(Reg16::Ax, 0xbeef);
    assert_eq!(s.finish().emit(), vec![0x66u8, 0xb8, 0xef, 0xbe]);
}

#[test]
fn mov_reg32_imm32_bytes() {
    let mut s = x86_64InstructionStream::new();
    s.mov_reg32_imm32(Reg32::Eax, 0xdead_beef);
    s.mov_reg32_imm32(Reg32::R10d, 1);
    assert_eq!(
        s.finish().emit(),
        vec![0xb8u8, 0xef, 0xbe, 0xad, 0xde, 0x41, 0xba, 0x01, 0x00, 0x00, 0x00]
    );
}

#[test]
fn mov_reg64_imm32_bytes() {
    let mut s = x86_64InstructionStream::new();
    s.mov_reg64_imm32(Reg64::Rax, 0x1234_5678);
    s.mov_reg64_imm32(Reg64::R9, 1);
    s.mov_reg64_imm32(Reg64::Rdi, 0);
    assert_eq!(
        s.finish().emit(),
        vec![
            0x48u8, 0xc7, 0x78, 0x56, 0x34, 0x12, 0x49, 0xc8, 0x01, 0x00, 0x00, 0x00, 0x48, 0xce,
            0x00, 0x00, 0x00, 0x00
        ]
    );
}

#[test]
fn mov_reg64_imm64_bytes() {
    let mut s = x86_64InstructionStream::new();
    s.mov_reg64_imm64(Reg64::Rax, 0x1122_3344_5566_7788);
    s.mov_reg64_imm64(Reg64::R15, 2);
    assert_eq!(
        s.finish().emit(),
        vec![
            0x48u8, 0xb8, 0x88, 0x77, 0x66, 0x55, 0x44, 0x33, 0x22, 0x11, 0x49, 0xbf, 0x02, 0x00,
            0x00, 0x00, 0x00, 0x00, 0x00, 0x00
        ]
    );
}

#[test]
fn push_reg16_bytes() {
    let mut s = x86_64InstructionStream::new();
    s.push_reg16(Reg16::Ax);
    s.push_reg16(Reg16::R9w);
    s.push_reg16(Reg16::Di);
    assert_eq!(s.finish().emit(), vec![0x66u8, 0x50, 0x66, 0x41, 0x51, 0x66, 0x57]);
}

#[test]
fn push_reg16_tells_extension_registers_apart() {
    let mut s = x86_64InstructionStream::new();
    s.push_reg16(Reg16::Cx);
    let mut t = x86_64InstructionStream::new();
    t.push_reg16(Reg16::R9w);
    let plain = s.finish().emit();
    let extended = t.finish().emit();
    assert_eq!(plain, vec![0x66u8, 0x51]);
    assert_eq!(extended, vec![0x66u8, 0x41, 0x51]);
    assert_ne!(plain, extended);
}

#[test]
fn mov_reg8_reg8_al_from_cl() {
    let mut s = x86_64InstructionStream::new();
    s.mov_reg8_reg8(Reg8::Al, Reg8::Cl);
    assert_eq!(s.finish().emit(), vec![0x88u8, 0xc8]);
}

#[test]
fn push_reg64_bytes() {
    let mut s = x86_64InstructionStream::new();
    s.push_reg64(Reg64::Rbp);
    s.push_reg64(Reg64::R12);
    s.push_reg64(Reg64::Rax);
    assert_eq!(s.finish().emit(), vec![0x55u8, 0x41, 0x54, 0x50]);
}

#[test]
fn intrinsic_push_rbp_is_push_of_rbp() {
    let mut s = x86_64InstructionStream::new();
    s.intrinsic_push_rbp();
    let mut t = x86_64InstructionStream::new();
    t.push_reg64(Reg64::Rbp);
    let bytes = s.finish().emit();
    assert_eq!(bytes, vec![0x55u8]);
    assert_eq!(bytes, t.finish().emit());
}

#[test]
fn push_immediates() {
    let mut s = x86_64InstructionStream::new();
    s.push_imm8(0x10);
    s.push_imm16(0x1234);
    s.push_imm32(0x1234_5678);
    assert_eq!(
        s.finish().emit(),
        vec![0x6au8, 0x10, 0x68, 0x34, 0x12, 0x00, 0x00, 0x68, 0x78, 0x56, 0x34, 0x12]
    );
}

#[test]
fn push_imm16_extends_with_zeros() {
    let mut s = x86_64InstructionStream::new();
    s.push_imm16(0xffff);
    let mut t = x86_64InstructionStream::new();
    t.push_imm32(0x0000_ffff);
    let bytes = s.finish().emit();
    assert_eq!(bytes, vec![0x68u8, 0xff, 0xff, 0x00, 0x00]);
    assert_eq!(bytes, t.finish().emit());
}

#[test]
fn push_segment_registers() {
    let mut s = x86_64InstructionStream::new();
    s.push_fs();
    s.push_gs();
    assert_eq!(s.finish().emit(), vec![0x0fu8, 0xa0, 0x0f, 0xa8]);
}

#[test]
fn ret_near_is_one_byte() {
    let mut s = x86_64InstructionStream::new();
    s.ret_near();
    assert_eq!(s.finish().emit(), vec![0xc3u8]);
}

#[test]
fn ret_far_is_one_byte() {
    let mut s = x86_64InstructionStream::new();
    s.ret_far();
    assert_eq!(s.finish().emit(), vec![0xcbu8]);
}

#[test]
fn ret_with_stack_adjustment() {
    let mut s = x86_64InstructionStream::new();
    s.ret_near_imm16(0x0010);
    s.ret_far_imm16(0x1234);
    assert_eq!(s.finish().emit(), vec![0xc2u8, 0x10, 0x00, 0xca, 0x34, 0x12]);
}

#[test]
fn bytes_come_out_in_call_order() {
    let mut s = x86_64InstructionStream::new();
    s.intrinsic_push_rbp();
    s.mov_reg64_reg64(Reg64::Rbp, Reg64::Rsp);
    s.mov_reg32_imm32(Reg32::Eax, 42);
    s.ret_near();
    assert_eq!(
        s.finish().emit(),
        vec![0x55u8, 0x48, 0x89, 0xe5, 0xb8, 0x2a, 0x00, 0x00, 0x00, 0xc3]
    );
}
