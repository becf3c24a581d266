use pollex::arm32::{Instruction, InstructionCodec, Predicate, Register, Sflag, Shifter, ThumbOpcode};

#[test]
fn test_arm32_instruction() {
    let tree = [
        Instruction::Add {
            predicate: Predicate::GreaterThanOrEqual,
            destination: Register::R1,
            base: Register::R2,
            source: Shifter::RotateRightImmediate { source: Register::R3, shift: 0x2 },
            s: Sflag::Off,
        },
        Instruction::SaturatingSubtract {
            predicate: Predicate::LessThan,
            destination: Register::R4,
            base: Register::R5,
            source: Register::R6,
        },
        Instruction::InclusiveOr {
            predicate: Predicate::Always,
            destination: Register::R7,
            base: Register::R8,
            source: Shifter::LogicalShiftLeftImmediate { source: Register::R9, shift: 0x0 },
            s: Sflag::On,
        },
        Instruction::MultiplyAccumulate {
            predicate: Predicate::Equal,
            destination: Register::R0,
            base: Register::Pc,
            source: Register::Pc,
            shift: Register::Lr,
            s: Sflag::Off,
        },
        Instruction::Move {
            predicate: Predicate::NotEqual,
            destination: Register::R0,
            source: Shifter::LogicalShiftLeftImmediate { source: Register::Pc, shift: 0x0 },
            s: Sflag::Off,
        },
    ];

    let mut displays = Vec::with_capacity(tree.len());
    for instruction in tree {
        displays.push(instruction.to_string())
    }

    assert_eq!(
        displays,
        ["ADDGE r1, r2, r3, ROR #2", "QSUBLT r4, r5, r6", "ORRS r7, r8, r9", "MLAEQ r0, pc, pc, lr", "CPYNE r0, pc"],
    );
}

#[test]
fn test_arm32_encoder() {
    let tree = [
        Instruction::BranchLink { predicate: Predicate::HigherOrSame, source: 0x1F },
        Instruction::Breakpoint { immediate: 0x45 },
        Instruction::SoftwareInterrupt { predicate: Predicate::Always, immediate: 0x54 },
        Instruction::Move {
            predicate: Predicate::Plus,
            destination: Register::Pc,
            source: Shifter::ArithmeticShiftRightImmediate { source: Register::R3, shift: 0x20 },
            s: Sflag::On,
        },
    ];

    let mut codec = InstructionCodec::new_at(0x08000000);

    let mut opcodes = Vec::new();
    for instruction in tree {
        opcodes.push(codec.encode_arm(instruction).unwrap())
    }

    assert_eq!(
        opcodes,
        [
            0b00101010_00000000_00000000_00000000,
            0b11100001_00100000_00000100_01110101,
            0b11101111_00000000_00000000_01010100,
            0b01010001_10110000_11110000_01000011,
        ],
    )
}

#[test]
fn test_instruction_display() {
    let tree = [
        Instruction::Add {
            predicate: Predicate::GreaterThanOrEqual,
            destination: Register::R1,
            base: Register::R2,
            source: Shifter::RotateRightImmediate { source: Register::R3, shift: 0x2 },
            s: Sflag::Off,
        },
        Instruction::SaturatingSubtract {
            predicate: Predicate::LessThan,
            destination: Register::R4,
            base: Register::R5,
            source: Register::R6,
        },
        Instruction::InclusiveOr {
            predicate: Predicate::Always,
            destination: Register::R7,
            base: Register::R8,
            source: Shifter::LogicalShiftLeftImmediate { source: Register::R9, shift: 0x0 },
            s: Sflag::On,
        },
        Instruction::MultiplyAccumulate {
            predicate: Predicate::Equal,
            destination: Register::R0,
            base: Register::Pc,
            source: Register::Pc,
            shift: Register::Lr,
            s: Sflag::Off,
        },
        Instruction::Move {
            predicate: Predicate::NotEqual,
            destination: Register::R0,
            source: Shifter::LogicalShiftLeftImmediate { source: Register::Pc, shift: 0x0 },
            s: Sflag::Off,
        },
        Instruction::ReverseSubtract {
            predicate: Predicate::Always,
            destination: Register::R0,
            base: Register::R0,
            source: Shifter::Immediate(0x0),
            s: Sflag::On,
        },
        Instruction::Move {
            predicate: Predicate::GreaterThan,
            destination: Register::R0,
            source: Shifter::LogicalShiftRightImmediate { source: Register::R7, shift: 0x20 },
            s: Sflag::On,
        },
        Instruction::Move {
            predicate: Predicate::Always,
            destination: Register::R0,
            source: Shifter::LogicalShiftLeftImmediate { source: Register::R0, shift: 0x0 },
            s: Sflag::On,
        },
    ];

    let mut displays = Vec::with_capacity(tree.len());
    for instruction in tree {
        displays.push(instruction.to_string())
    }

    assert_eq!(
        displays,
        [
            "ADDGE r1, r2, r3, ROR #2",
            "QSUBLT r4, r5, r6",
            "ORRS r7, r8, r9",
            "MLAEQ r0, pc, pc, lr",
            "CPYNE r0, pc",
            "NEGS r0, r0",
            "LSRGTS r0, r7, #32",
            "MOVS r0, r0",
        ],
    );
}

#[test]
fn test_thumb_decode() {
    let binary = [0b11011111_10101010, 0b01000111_01110000];

    let mut codec = InstructionCodec::new();

    let mut programme = Vec::new();
    for opcode in binary {
        programme.push(codec.decode_thumb(ThumbOpcode::from_u16(opcode)).unwrap())
    }

    assert_eq!(
        programme,
        [
            Instruction::SoftwareInterrupt { predicate: Predicate::Always, immediate: 0b10101010 },
            Instruction::BranchExchange { predicate: Predicate::Always, source: Register::Lr },
        ],
    )
}

#[test]
fn test_thumb_encode() {
    let programme = [
        Instruction::BranchLink { predicate: Predicate::Always, source: 0x08000044 },
        Instruction::And {
            predicate: Predicate::Always,
            destination: Register::R0,
            base: Register::R0,
            source: Shifter::LogicalShiftLeftImmediate { source: Register::R7, shift: 0x0 },
            s: Sflag::On,
        },
        Instruction::Branch { predicate: Predicate::Always, immediate: 0x08000008 },
    ];

    let mut codec = InstructionCodec::new_at(0x08000000);

    let mut opcodes = Vec::new();
    for instruction in programme {
        let opcode = codec.encode_thumb(instruction).unwrap();

        opcodes.push(opcode.0);
        if let Some(opcode) = opcode.1 {
            opcodes.push(opcode)
        };
    }

    // The branch sits at 0x08000006, so its offset is 0x08000008 - 0x08000006 - 4 = -2,
    // which is 0xE7FF. An expectation of 0xE000 here would contradict the rule that
    // Thumb offsets are measured from the cursor plus 4.
    assert_eq!(
        opcodes,
        [0b11110000_00000000, 0b11111000_00100000, 0b01000000_00111000, 0b11100111_11111111],
    )
}
