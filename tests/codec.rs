use pollex::arm32::{
    Address, ArmOpcode, Instruction, InstructionCodec, Predicate, Register, Sflag, Shifter, Signed, ThumbOpcode, Unsigned,
};
use pollex::ErrorKind;

const REGISTERS: [Register; 16] = [
    Register::R0,
    Register::R1,
    Register::R2,
    Register::R3,
    Register::R4,
    Register::R5,
    Register::R6,
    Register::R7,
    Register::R8,
    Register::R9,
    Register::R10,
    Register::R11,
    Register::R12,
    Register::Sp,
    Register::Lr,
    Register::Pc,
];

const PREDICATES: [Predicate; 15] = [
    Predicate::Equal,
    Predicate::NotEqual,
    Predicate::HigherOrSame,
    Predicate::Lower,
    Predicate::Minus,
    Predicate::Plus,
    Predicate::Overflow,
    Predicate::NoOverflow,
    Predicate::Higher,
    Predicate::LowerOrSame,
    Predicate::GreaterThanOrEqual,
    Predicate::LessThan,
    Predicate::GreaterThan,
    Predicate::LessThanOrEqual,
    Predicate::Always,
];

fn bare(r: Register) -> Shifter {
    Shifter::from_register(r)
}

fn arm(i: Instruction) -> u32 {
    InstructionCodec::new().encode_arm(i).unwrap().to_u32()
}

fn arm_error(i: Instruction) -> ErrorKind {
    InstructionCodec::new().encode_arm(i).unwrap_err().kind()
}

fn thumb(i: Instruction, cursor: u32) -> (u16, Option<u16>) {
    let (a, b) = InstructionCodec::new_at(cursor).encode_thumb(i).unwrap();
    (a.to_u16(), b.map(|o| o.to_u16()))
}

fn thumb_error(i: Instruction) -> ErrorKind {
    InstructionCodec::new().encode_thumb(i).unwrap_err().kind()
}

#[test]
fn arm_opcode_carries_the_condition() {
    for p in PREDICATES {
        let ops = [
            arm(Instruction::Branch { predicate: p, immediate: 0x100 }),
            arm(Instruction::BranchLink { predicate: p, source: 0x100 }),
            arm(Instruction::BranchExchange { predicate: p, source: Register::Lr }),
            arm(Instruction::SoftwareInterrupt { predicate: p, immediate: 0xFFFF_FFFF }),
            arm(Instruction::Move { predicate: p, destination: Register::Pc, source: Shifter::Immediate(0xFF00_0000), s: Sflag::On }),
        ];
        for op in ops {
            assert_eq!(op >> 28, u32::from(p.value()));
        }
    }
    assert_eq!(arm(Instruction::Breakpoint { immediate: 0xFFFF_FFFF }) >> 28, 0b1110);
    assert_eq!(arm(Instruction::Breakpoint { immediate: 0xFFFF_FFFF }), 0xE12F_FF7F);
}

#[test]
fn arm_branch_offset_field_is_zero() {
    let mut codec = InstructionCodec::new_at(0x0800_0000);
    let b = codec.encode_arm(Instruction::Branch { predicate: Predicate::Equal, immediate: 0x0800_0008 }).unwrap();
    assert_eq!(b.to_u32(), 0x0A00_0000);
    let bl = codec.encode_arm(Instruction::BranchLink { predicate: Predicate::Always, source: 0x0800_000C }).unwrap();
    assert_eq!(bl.to_u32(), 0xEA00_0000);
    assert_eq!(codec.address(), 0x0800_0008);
}

#[test]
fn arm_move_immediates() {
    let mov = |v: u32| Instruction::Move { predicate: Predicate::Always, destination: Register::R0, source: Shifter::Immediate(v), s: Sflag::Off };
    assert_eq!(arm(mov(0xFF)), 0xE3A0_00FF);
    assert_eq!(arm(mov(0x3FC)), 0xE3A0_0FFF);
    assert_eq!(arm(mov(0xFF00_0000)), 0xE3A0_04FF);
    assert_eq!(arm(mov(0x8000_0001)), 0xE3A0_0106);
    assert_eq!(arm_error(mov(0x101)), ErrorKind::IllegalImmediate);
    assert_eq!(arm_error(mov(0x102)), ErrorKind::IllegalImmediate);
    assert_eq!(arm_error(mov(0xFFFF_FFFF)), ErrorKind::IllegalImmediate);
}

#[test]
fn arm_shifter_forms() {
    let mov = |sh: Shifter| Instruction::Move { predicate: Predicate::Always, destination: Register::R0, source: sh, s: Sflag::Off };
    assert_eq!(arm(mov(Shifter::LogicalShiftRightImmediate { source: Register::R1, shift: 32 })), 0xE1A0_0021);
    assert_eq!(arm(mov(Shifter::ArithmeticShiftRightImmediate { source: Register::R1, shift: 32 })), 0xE1A0_0041);
    assert_eq!(arm(mov(Shifter::LogicalShiftRightImmediate { source: Register::R1, shift: 4 })), 0xE1A0_0221);
    assert_eq!(arm(mov(bare(Register::R1))), 0xE1A0_0001);
    assert_eq!(arm(mov(Shifter::LogicalShiftLeftImmediate { source: Register::R1, shift: 31 })), 0xE1A0_0F81);
    assert_eq!(arm(mov(Shifter::RotateRightImmediate { source: Register::R1, shift: 1 })), 0xE1A0_00E1);
    assert_eq!(arm(mov(Shifter::RotateRightExtend { source: Register::R1 })), 0xE1A0_0061);
    assert_eq!(arm(mov(Shifter::LogicalShiftLeftRegister { source: Register::R1, shift: Register::R2 })), 0xE1A0_0211);
    assert_eq!(arm(mov(Shifter::RotateRightRegister { source: Register::R1, shift: Register::R2 })), 0xE1A0_0271);
    assert_eq!(arm_error(mov(Shifter::LogicalShiftLeftImmediate { source: Register::R1, shift: 32 })), ErrorKind::IllegalImmediate);
    assert_eq!(arm_error(mov(Shifter::LogicalShiftRightImmediate { source: Register::R1, shift: 0 })), ErrorKind::IllegalImmediate);
    assert_eq!(arm_error(mov(Shifter::ArithmeticShiftRightImmediate { source: Register::R1, shift: 33 })), ErrorKind::IllegalImmediate);
    assert_eq!(arm_error(mov(Shifter::RotateRightImmediate { source: Register::R1, shift: 0 })), ErrorKind::IllegalImmediate);
    assert_eq!(arm_error(mov(Shifter::RotateRightImmediate { source: Register::R1, shift: 32 })), ErrorKind::IllegalImmediate);
}

#[test]
fn arm_refuses_unsupported_mnemonics() {
    let mut codec = InstructionCodec::new_at(0x40);
    let add = Instruction::Add { predicate: Predicate::Always, destination: Register::R0, base: Register::R1, source: bare(Register::R2), s: Sflag::Off };
    assert_eq!(codec.encode_arm(add).unwrap_err().kind(), ErrorKind::IllegalInstruction);
    assert_eq!(codec.address(), 0x40);
    assert_eq!(add.encode_arm().unwrap_err().kind(), ErrorKind::IllegalInstruction);
    let bx = Instruction::BranchExchange { predicate: Predicate::Always, source: Register::Lr };
    assert_eq!(bx.encode_arm().unwrap(), ArmOpcode::from_u32(0xE12F_FF1E));
}

#[test]
fn thumb_cursor_moves_by_opcode_size() {
    let mut codec = InstructionCodec::new_at(0x100);
    codec.encode_thumb(Instruction::BranchExchange { predicate: Predicate::Always, source: Register::Lr }).unwrap();
    assert_eq!(codec.address(), 0x102);
    codec.encode_thumb(Instruction::BranchLink { predicate: Predicate::Always, source: 0x200 }).unwrap();
    assert_eq!(codec.address(), 0x106);
    let refused = codec.encode_thumb(Instruction::BranchExchange { predicate: Predicate::Equal, source: Register::Lr });
    assert_eq!(refused.unwrap_err().kind(), ErrorKind::IllegalPredicate);
    assert_eq!(codec.address(), 0x106);
    assert_eq!(codec.decode_thumb(ThumbOpcode::from_u16(0)).unwrap_err().kind(), ErrorKind::InvalidOpcode);
    assert_eq!(codec.address(), 0x106);
    codec.decode_thumb(ThumbOpcode::from_u16(0x4770)).unwrap();
    assert_eq!(codec.address(), 0x108);
}

#[test]
fn cursor_wraps_around() {
    let mut codec = InstructionCodec::new_at(0xFFFF_FFFE);
    codec.encode_thumb(Instruction::Breakpoint { immediate: 1 }).unwrap();
    assert_eq!(codec.address(), 0);
    codec.seek_to(0xFFFF_FFFC);
    codec.encode_arm(Instruction::Breakpoint { immediate: 1 }).unwrap();
    assert_eq!(codec.address(), 0);
    codec.skip_bytes(3);
    assert_eq!(codec.address(), 3);
    codec.skip_halfwords(0x8000_0000);
    assert_eq!(codec.address(), 3);
    codec.skip_words(2);
    assert_eq!(codec.address(), 11);
    assert_eq!(InstructionCodec::default().address(), 0);
}

#[test]
fn bare_register_collapses() {
    for r in REGISTERS {
        assert_eq!(bare(r), Shifter::LogicalShiftLeftImmediate { source: r, shift: 0 });
        assert_eq!(bare(r).as_register().unwrap(), r);
    }
    let shifted = Shifter::LogicalShiftLeftImmediate { source: Register::R1, shift: 1 };
    assert_eq!(shifted.as_register().unwrap_err().kind(), ErrorKind::IllegalShifter);
    assert_eq!(Shifter::Immediate(0).as_register().unwrap_err().kind(), ErrorKind::IllegalShifter);
}

#[test]
fn thumb_two_operand_refusals() {
    let and = |p: Predicate, d: Register, b: Register, m: Register, s: Sflag| Instruction::And { predicate: p, destination: d, base: b, source: bare(m), s };
    assert_eq!(thumb(and(Predicate::Always, Register::R1, Register::R1, Register::R2, Sflag::On), 0).0, 0x4011);
    assert_eq!(thumb_error(and(Predicate::Equal, Register::R1, Register::R1, Register::R2, Sflag::On)), ErrorKind::IllegalPredicate);
    assert_eq!(thumb_error(and(Predicate::Always, Register::R1, Register::R3, Register::R2, Sflag::On)), ErrorKind::IllegalRegister);
    assert_eq!(thumb_error(and(Predicate::Always, Register::R8, Register::R8, Register::R2, Sflag::On)), ErrorKind::IllegalRegister);
    assert_eq!(thumb_error(and(Predicate::Always, Register::R1, Register::R1, Register::R9, Sflag::On)), ErrorKind::IllegalRegister);
    assert_eq!(thumb_error(and(Predicate::Always, Register::R1, Register::R1, Register::R2, Sflag::Off)), ErrorKind::IllegalFlag);
    let shifted = Instruction::And { predicate: Predicate::Always, destination: Register::R1, base: Register::R1, source: Shifter::Immediate(1), s: Sflag::On };
    assert_eq!(thumb_error(shifted), ErrorKind::IllegalShifter);
    let mul = Instruction::Multiply { predicate: Predicate::Always, destination: Register::R1, base: Register::R2, source: Register::R3, s: Sflag::On };
    assert_eq!(thumb_error(mul), ErrorKind::IllegalRegister);
}

#[test]
fn thumb_data_processing_opcodes() {
    let op = |i: Instruction| thumb(i, 0).0;
    let (d, m) = (Register::R2, bare(Register::R5));
    let on = Sflag::On;
    let al = Predicate::Always;
    assert_eq!(op(Instruction::AddCarry { predicate: al, destination: d, base: d, source: m, s: on }), 0x416A);
    assert_eq!(op(Instruction::BitClear { predicate: al, destination: d, base: d, source: m, s: on }), 0x43AA);
    assert_eq!(op(Instruction::ExclusiveOr { predicate: al, destination: d, base: d, source: m, s: on }), 0x406A);
    assert_eq!(op(Instruction::InclusiveOr { predicate: al, destination: d, base: d, source: m, s: on }), 0x432A);
    assert_eq!(op(Instruction::SubtractCarry { predicate: al, destination: d, base: d, source: m, s: on }), 0x41AA);
    assert_eq!(op(Instruction::MoveNot { predicate: al, destination: d, source: m, s: on }), 0x43EA);
    assert_eq!(op(Instruction::Multiply { predicate: al, destination: d, base: d, source: Register::R5, s: on }), 0x436A);
    assert_eq!(op(Instruction::Add { predicate: al, destination: Register::R1, base: Register::R2, source: bare(Register::R3), s: on }), 0x18D1);
    assert_eq!(op(Instruction::Subtract { predicate: al, destination: Register::R1, base: Register::R2, source: Shifter::Immediate(7), s: on }), 0x1FD1);
    assert_eq!(op(Instruction::Move { predicate: al, destination: Register::R3, source: Shifter::Immediate(0xAB), s: on }), 0x23AB);
    assert_eq!(op(Instruction::Move { predicate: al, destination: Register::R8, source: bare(Register::R1), s: Sflag::Off }), 0x4648);
    assert_eq!(op(Instruction::Move { predicate: al, destination: Register::R1, source: bare(Register::Pc), s: Sflag::Off }), 0x46B9);
    assert_eq!(op(Instruction::Breakpoint { immediate: 0x12 }), 0xBE12);
    assert_eq!(op(Instruction::SoftwareInterrupt { predicate: al, immediate: 0xAA }), 0xDFAA);
    assert_eq!(op(Instruction::BranchLinkExchange { predicate: al, source: bare(Register::R3) }), 0x4798);
    assert_eq!(thumb_error(Instruction::Breakpoint { immediate: 0x100 }), ErrorKind::IllegalImmediate);
    assert_eq!(
        thumb_error(Instruction::CountLeadingZeroes { predicate: al, destination: Register::R0, source: Register::R1 }),
        ErrorKind::IllegalInstruction,
    );
}

#[test]
fn thumb_shift_moves() {
    let mov = |sh: Shifter| Instruction::Move { predicate: Predicate::Always, destination: Register::R1, source: sh, s: Sflag::On };
    assert_eq!(thumb(mov(Shifter::LogicalShiftRightImmediate { source: Register::R2, shift: 32 }), 0).0, 0x0811);
    assert_eq!(thumb(mov(Shifter::ArithmeticShiftRightImmediate { source: Register::R2, shift: 32 }), 0).0, 0x1011);
    assert_eq!(thumb(mov(Shifter::LogicalShiftLeftImmediate { source: Register::R2, shift: 5 }), 0).0, 0x0151);
    assert_eq!(thumb(mov(Shifter::LogicalShiftRightImmediate { source: Register::R2, shift: 1 }), 0).0, 0x0851);
    assert_eq!(thumb(mov(Shifter::RotateRightRegister { source: Register::R1, shift: Register::R4 }), 0).0, 0x41E1);
    assert_eq!(thumb(mov(Shifter::LogicalShiftLeftRegister { source: Register::R1, shift: Register::R4 }), 0).0, 0x40A1);
    assert_eq!(thumb_error(mov(Shifter::LogicalShiftLeftImmediate { source: Register::R2, shift: 32 })), ErrorKind::IllegalImmediate);
    assert_eq!(thumb_error(mov(Shifter::LogicalShiftRightImmediate { source: Register::R2, shift: 0 })), ErrorKind::IllegalImmediate);
    assert_eq!(thumb_error(mov(Shifter::RotateRightImmediate { source: Register::R2, shift: 3 })), ErrorKind::IllegalShifter);
    assert_eq!(
        thumb_error(mov(Shifter::LogicalShiftLeftRegister { source: Register::R2, shift: Register::R4 })),
        ErrorKind::IllegalRegister,
    );
}

#[test]
fn thumb_decode_then_encode() {
    let opcodes: [u16; 8] = [0xDFAA, 0x4770, 0x4798, 0x18D1, 0x1FD1, 0x1A8B, 0xD0FE, 0xD17F];
    for cursor in [0u32, 0x0800_0000, 0x0800_0002, 0xFFFF_FFFE] {
        for op in opcodes {
            let mut codec = InstructionCodec::new_at(cursor);
            let instruction = codec.decode_thumb(ThumbOpcode::from_u16(op)).unwrap();
            assert_eq!(thumb(instruction, cursor), (op, None));
        }
    }
}

#[test]
fn thumb_decoded_instructions() {
    let mut codec = InstructionCodec::new_at(0x1000);
    assert_eq!(
        codec.decode_thumb(ThumbOpcode::from_u16(0x1C51)).unwrap(),
        Instruction::Add { predicate: Predicate::Always, destination: Register::R1, base: Register::R2, source: Shifter::Immediate(1), s: Sflag::On },
    );
    assert_eq!(
        codec.decode_thumb(ThumbOpcode::from_u16(0xD0FE)).unwrap(),
        Instruction::Branch { predicate: Predicate::Equal, immediate: 0x1002 },
    );
}

#[test]
fn thumb_short_branch_range() {
    let cursor = 0x0800_0000u32;
    for k in -128i64..=127 {
        let target = (cursor as i64 + 4 + 2 * k) as u32;
        let branch = Instruction::Branch { predicate: Predicate::NotEqual, immediate: target };
        let (op, second) = thumb(branch, cursor);
        assert_eq!(second, None);
        let mut codec = InstructionCodec::new_at(cursor);
        assert_eq!(codec.decode_thumb(ThumbOpcode::from_u16(op)).unwrap(), branch);
    }
    for k in [128i64, -129] {
        let target = (cursor as i64 + 4 + 2 * k) as u32;
        let mut codec = InstructionCodec::new_at(cursor);
        let r = codec.encode_thumb(Instruction::Branch { predicate: Predicate::NotEqual, immediate: target });
        assert_eq!(r.unwrap_err().kind(), ErrorKind::IllegalImmediate);
    }
    let odd = Instruction::Branch { predicate: Predicate::NotEqual, immediate: cursor + 5 };
    assert_eq!(InstructionCodec::new_at(cursor).encode_thumb(odd).unwrap_err().kind(), ErrorKind::IllegalImmediate);
}

#[test]
fn thumb_unconditional_branch_range() {
    let cursor = 0x0800_0000u32;
    assert_eq!(thumb(Instruction::Branch { predicate: Predicate::Always, immediate: cursor + 4 + 2046 }, cursor).0, 0xE3FF);
    assert_eq!(thumb(Instruction::Branch { predicate: Predicate::Always, immediate: cursor + 4 - 2048 }, cursor).0, 0xE400);
    let far = Instruction::Branch { predicate: Predicate::Always, immediate: cursor + 4 + 2048 };
    assert_eq!(InstructionCodec::new_at(cursor).encode_thumb(far).unwrap_err().kind(), ErrorKind::IllegalImmediate);
}

#[test]
fn thumb_long_branch_range() {
    let cursor = 0x0800_0000u32;
    for k in [-(1i64 << 21), -1, 0, 1, 0x1234, (1 << 21) - 1] {
        let target = (cursor as i64 + 4 + 2 * k) as u32;
        let (first, second) = thumb(Instruction::BranchLink { predicate: Predicate::Always, source: target }, cursor);
        let second = second.unwrap();
        let v = (u32::from(first & 0x7FF) << 12) | (u32::from(second & 0x7FF) << 1);
        let off = ((v << 9) as i32) >> 9;
        assert_eq!(off as i64, 2 * k);
    }
    for target in [cursor + 5, cursor + 4 + (1 << 22)] {
        let r = InstructionCodec::new_at(cursor).encode_thumb(Instruction::BranchLink { predicate: Predicate::Always, source: target });
        assert_eq!(r.unwrap_err().kind(), ErrorKind::IllegalImmediate);
    }
    assert_eq!(thumb(Instruction::BranchLink { predicate: Predicate::Always, source: cursor }, cursor), (0xF7FF, Some(0xFFFE)));
}

#[test]
fn register_names() {
    assert_eq!(Register::from_str("r0").unwrap(), Register::R0);
    assert_eq!(Register::from_str("A1").unwrap(), Register::R0);
    assert_eq!(Register::from_str("Sb").unwrap(), Register::R9);
    assert_eq!(Register::from_str("v7").unwrap(), Register::R10);
    assert_eq!(Register::from_str("IP").unwrap(), Register::R12);
    assert_eq!(Register::from_str("r13").unwrap(), Register::Sp);
    assert_eq!(Register::from_str("lr").unwrap(), Register::Lr);
    assert_eq!(Register::from_str("R15").unwrap(), Register::Pc);
    for bad in ["r16", "", "r", "x0", "pc ", "v9"] {
        let e = Register::from_str(bad).unwrap_err();
        assert_eq!(e.kind(), ErrorKind::UnknownRegister);
        assert_eq!(e.to_string(), format!("unknown register `{bad}`"));
    }
    assert_eq!(Register::from_u8(15), Some(Register::Pc));
    assert_eq!(Register::from_u8(16), None);
    assert!(Register::R7.is_low() && !Register::R7.is_high());
    assert!(Register::R8.is_high() && !Register::R8.is_low());
}

#[test]
fn instruction_text_parsing() {
    assert_eq!(
        Instruction::from_str("CPY r0, r1").unwrap(),
        Instruction::Move { predicate: Predicate::Always, destination: Register::R0, source: bare(Register::R1), s: Sflag::Off },
    );
    assert_eq!(Instruction::from_str("CPY r0, r1").unwrap().to_string(), "CPY r0, r1");
    assert_eq!(Instruction::from_str("BX lr").unwrap(), Instruction::BranchExchange { predicate: Predicate::Always, source: Register::Lr });
    assert_eq!(Instruction::from_str("NOP").unwrap_err().kind(), ErrorKind::UnknownMnemonic);
}

#[test]
fn operand_and_instruction_text() {
    assert_eq!(Shifter::Immediate(42).to_string(), "#42");
    assert_eq!(Shifter::RotateRightExtend { source: Register::R3 }.to_string(), "r3, RRX");
    assert_eq!(Shifter::ArithmeticShiftRightRegister { source: Register::R1, shift: Register::R2 }.to_string(), "r1, ASR r2");
    assert_eq!(Shifter::LogicalShiftLeftImmediate { source: Register::R1, shift: 4 }.to_string(), "r1, LSL #4");
    let load = Instruction::Load {
        predicate: Predicate::Equal,
        register: Register::R0,
        address: Address::ImmediateOffset { base: Register::Sp, source: -4 },
        b: pollex::arm32::Bflag::On,
        t: pollex::arm32::Tflag::Off,
    };
    assert_eq!(load.to_string(), "LDREQB r0, [sp, #-4]");
    let swap = Instruction::Swap {
        predicate: Predicate::Always,
        register: Register::R1,
        address: Address::ScaledRegisterOffset { base: Register::R2, source: Register::R3, shift: Shifter::LogicalShiftLeftImmediate { source: Register::R3, shift: 2 } },
        b: pollex::arm32::Bflag::Off,
    };
    assert_eq!(swap.to_string(), "SWP r1, [r2, r3, r3, LSL #2]");
    assert_eq!(Instruction::Breakpoint { immediate: 4_294_967_295 }.to_string(), "BKPT #4294967295");
    assert_eq!(Instruction::Branch { predicate: Predicate::Always, immediate: 0 }.to_string(), "B #0");
    let rsb = Instruction::ReverseSubtract { predicate: Predicate::Always, destination: Register::R0, base: Register::R1, source: Shifter::Immediate(1), s: Sflag::Off };
    assert_eq!(rsb.to_string(), "RSB r0, r1, #1");
    let mov = Instruction::Move { predicate: Predicate::Always, destination: Register::R0, source: Shifter::Immediate(1), s: Sflag::Off };
    assert_eq!(mov.to_string(), "MOV r0, #1");
    assert_eq!(pollex::instruction::Register::Ip.name(), "ip");
}

#[test]
fn error_messages() {
    let e = thumb_error(Instruction::And { predicate: Predicate::Always, destination: Register::R1, base: Register::R1, source: bare(Register::R2), s: Sflag::Off });
    assert_eq!(e, ErrorKind::IllegalFlag);
    let err = InstructionCodec::new().decode_thumb(ThumbOpcode::from_u16(0xFFFF)).unwrap_err();
    assert_eq!(err.to_string(), "invalid opcode");
    let flag = InstructionCodec::new()
        .encode_thumb(Instruction::And { predicate: Predicate::Always, destination: Register::R1, base: Register::R1, source: bare(Register::R2), s: Sflag::Off })
        .unwrap_err();
    assert!(flag.to_string().starts_with("illegal flag value: "));
}

#[test]
fn words() {
    let mut s = Signed::new(-1);
    assert_eq!(s.get(), -1);
    assert_eq!(s.as_unsigned().get(), 0xFFFF_FFFF);
    s.set(7);
    assert_eq!(s.get(), 7);
    let mut u = Unsigned::new(0xFFFF_FFFF);
    assert_eq!(u.as_signed().get(), -1);
    assert_eq!(u.offset(2).get(), 1);
    u.set(1);
    assert_eq!(u.offset(-2).get(), 0xFFFF_FFFF);
    assert_eq!(ThumbOpcode::SIZE, 2);
    assert!(ThumbOpcode::from_u16(0x4770) == 0x4770u16);
    assert!(ArmOpcode::from_u32(1) == 1u32);
}

#[test]
fn address_shapes() {
    let scaled = |shift: Shifter| Address::ScaledRegisterOffset { base: Register::R0, source: Register::R1, shift };
    assert!(scaled(Shifter::LogicalShiftLeftImmediate { source: Register::R1, shift: 2 }).is_well_formed());
    assert!(!scaled(Shifter::LogicalShiftLeftRegister { source: Register::R1, shift: Register::R2 }).is_well_formed());
    assert!(!scaled(Shifter::RotateRightExtend { source: Register::R1 }).is_well_formed());
    assert!(Address::RegisterOffset { base: Register::R0, source: Register::R1 }.is_well_formed());
    assert!(Address::ImmediateOffset { base: Register::R0, source: i32::MIN }.is_well_formed());
    let load = Instruction::Store {
        predicate: Predicate::Always,
        register: Register::R0,
        address: Address::ImmediateOffset { base: Register::R0, source: i32::MIN },
        b: pollex::arm32::Bflag::Off,
        t: pollex::arm32::Tflag::On,
    };
    assert_eq!(load.to_string(), "STRT r0, [r0, #-2147483648]");
}

#[test]
fn register_text_parses_through_from_str() {
    assert_eq!("SP".parse::<Register>().unwrap(), Register::Sp);
    assert!("r99".parse::<Register>().is_err());
    for r in REGISTERS {
        assert_eq!(Register::from_str(r.name()).unwrap(), r);
        assert_eq!(Register::from_u8(r.value()), Some(r));
    }
}

#[test]
fn thumb_branches_measure_from_cursor_plus_four() {
    let b = |p: Predicate, target: u32| Instruction::Branch { predicate: p, immediate: target };
    assert_eq!(thumb(b(Predicate::Always, 0x0800_0008), 0x0800_0006).0, 0xE7FF);
    assert_eq!(thumb(b(Predicate::Always, 0x0800_0008), 0x0800_0004).0, 0xE000);
    assert_eq!(thumb(b(Predicate::Equal, 6), 2).0, 0xD000);
    assert_eq!(thumb(Instruction::BranchLink { predicate: Predicate::Always, source: 6 }, 2), (0xF000, Some(0xF800)));
    let far = b(Predicate::Equal, (0x1002u32 + 4).wrapping_sub(258));
    assert_eq!(InstructionCodec::new_at(0x1002).encode_thumb(far).unwrap_err().kind(), ErrorKind::IllegalImmediate);
    let bl = Instruction::BranchLink { predicate: Predicate::Always, source: (0x0100_0002u32 + 4).wrapping_sub(4_194_306) };
    assert_eq!(InstructionCodec::new_at(0x0100_0002).encode_thumb(bl).unwrap_err().kind(), ErrorKind::IllegalImmediate);
    let mut codec = InstructionCodec::new_at(2);
    assert_eq!(codec.decode_thumb(ThumbOpcode::from_u16(0xD000)).unwrap(), b(Predicate::Equal, 6));
}

#[test]
fn error_reasons() {
    let e = Shifter::Immediate(3).as_register().unwrap_err();
    assert_eq!(e.to_string(), "shifter operand not permitted here: cannot collapse to register");
    let null = Instruction::Move {
        predicate: Predicate::Always,
        destination: Register::R0,
        source: Shifter::RotateRightImmediate { source: Register::R1, shift: 0 },
        s: Sflag::Off,
    };
    let e = InstructionCodec::new().encode_arm(null).unwrap_err();
    assert_eq!(e.to_string(), "illegal immediate value: immediate shift cannot be null on arm");
    let clz = Instruction::CountLeadingZeroes { predicate: Predicate::Always, destination: Register::R0, source: Register::R1 };
    let e = InstructionCodec::new().encode_thumb(clz).unwrap_err();
    assert_eq!(e.to_string(), "illegal instruction: not supported on thumb");
}

#[test]
fn word_arithmetic() {
    let s = Signed::new(i32::MAX);
    assert_eq!(s.wrapping_add(1).get(), i32::MIN);
    assert_eq!(Signed::new(i32::MIN).wrapping_sub(1).get(), i32::MAX);
    assert_eq!(Signed::new(0x10000).wrapping_mul(0x10000).get(), 0);
    assert_eq!(Signed::new(-7).wrapping_mul(3).get(), -21);
    assert_eq!(Signed::new(-7).wrapping_div(2).get(), -3);
    assert_eq!(Signed::new(7).wrapping_div(-2).get(), -3);
    assert_eq!(Signed::new(-7).wrapping_div(-2).get(), 3);
    assert_eq!(Signed::new(i32::MIN).wrapping_div(-1).get(), i32::MIN);
    assert_eq!(Signed::new(5).wrapping_add_word(Signed::new(-6)).get(), -1);
    assert_eq!(Signed::new(5).wrapping_sub_word(Signed::new(6)).get(), -1);
    assert_eq!(Signed::new(5).wrapping_mul_word(Signed::new(-6)).get(), -30);
    assert_eq!(Signed::new(30).wrapping_div_word(Signed::new(-6)).get(), -5);
    let u = Unsigned::new(u32::MAX);
    assert_eq!(u.wrapping_add(2).get(), 1);
    assert_eq!(Unsigned::new(1).wrapping_sub(2).get(), u32::MAX);
    assert_eq!(Unsigned::new(0x10000).wrapping_mul(0x10001).get(), 0x10000);
    assert_eq!(Unsigned::new(7).wrapping_div(2).get(), 3);
    assert_eq!(Unsigned::new(7).wrapping_add_word(Unsigned::new(1)).get(), 8);
    assert_eq!(Unsigned::new(7).wrapping_sub_word(Unsigned::new(8)).get(), u32::MAX);
    assert_eq!(Unsigned::new(7).wrapping_mul_word(Unsigned::new(3)).get(), 21);
    assert_eq!(Unsigned::new(21).wrapping_div_word(Unsigned::new(3)).get(), 7);
}

#[test]
fn word_comparison_and_text() {
    assert!(Signed::new(-1) == -1);
    assert!(Signed::new(-1) < 0);
    assert!(Signed::new(3) > 2);
    assert!(Unsigned::new(3) == 3u32);
    assert!(Unsigned::new(3) < 4u32);
    assert!(Unsigned::new(3) >= 3u32);
    assert_eq!(Signed::new(5).to_string(), "#+5");
    assert_eq!(Signed::new(0).to_string(), "#+0");
    assert_eq!(Signed::new(i32::MIN).to_string(), "#-2147483648");
    assert_eq!(Unsigned::new(42).to_string(), "#42");
}
