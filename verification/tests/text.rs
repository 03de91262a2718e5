use rvcore::instruction::encode::{encode_rv32i, encode_rv32m, ArgParser};
use rvcore::instruction::{decode_instruction, encode_instruction};

#[test]
fn encode_known_words() {
    assert_eq!(encode_instruction("addi x5, x6, 1"), Some(0x00130293));
    assert_eq!(encode_instruction("addi x6, x5, 1"), Some(0x00128313));
    assert_eq!(encode_instruction("jal x0, -8"), Some(0xff9ff06f));
    assert_eq!(encode_instruction("jal x0, -12"), Some(0xff5ff06f));
    assert_eq!(encode_instruction("ebreak"), Some(0x00100073));
    assert_eq!(encode_instruction("ecall"), Some(0x00000073));
    assert_eq!(encode_instruction("add x3, x1, x2"), Some(0x002081b3));
    assert_eq!(encode_instruction("sub x3, x1, x2"), Some(0x402081b3));
    assert_eq!(encode_instruction("lui x5, 74565"), Some(0x123452b7));
    assert_eq!(encode_instruction("sw x2, -4(x1)"), Some(0xfe20ae23));
    assert_eq!(encode_instruction("beq x1, x2, -8"), Some(0xfe208ce3));
    assert_eq!(encode_instruction("lw x1, 0(x2)"), Some(0x00012083));
    assert_eq!(encode_instruction("jalr x0, 0(x1)"), Some(0x00008067));
    assert_eq!(encode_instruction("mul x3, x1, x2"), Some(0x022081b3));
    assert_eq!(encode_instruction("remu x3, x1, x2"), Some(0x0220f1b3));
}

#[test]
fn encode_each_mnemonic_with_its_function_code() {
    let imm_ops = [("addi", 0), ("slti", 2), ("sltiu", 3), ("xori", 4), ("ori", 6), ("andi", 7)];
    for (name, f3) in imm_ops {
        let w = encode_instruction(&format!("{} x1, x2, 3", name)).unwrap();
        assert_eq!(w, (3 << 20) | (2 << 15) | (f3 << 12) | (1 << 7) | 0x13);
    }
    let ops = [
        ("add", 0, 0), ("sub", 32, 0), ("sll", 0, 1), ("slt", 0, 2), ("sltu", 0, 3), ("xor", 0, 4),
        ("srl", 0, 5), ("sra", 32, 5), ("or", 0, 6), ("and", 0, 7), ("mul", 1, 0), ("mulh", 1, 1),
        ("mulhu", 1, 2), ("mulhsu", 1, 3), ("div", 1, 4), ("divu", 1, 5), ("rem", 1, 6),
        ("remu", 1, 7),
    ];
    for (name, f7, f3) in ops {
        let w = encode_instruction(&format!("{} x31, x30, x29", name)).unwrap();
        assert_eq!(w, (f7 << 25) | (29 << 20) | (30 << 15) | (f3 << 12) | (31 << 7) | 0x33);
    }
    let branches = [("beq", 0), ("bne", 1), ("blt", 4), ("bge", 5), ("bltu", 6), ("bgeu", 7)];
    for (name, f3) in branches {
        let w = encode_instruction(&format!("{} x1, x2, 0", name)).unwrap();
        assert_eq!(w, (2 << 20) | (1 << 15) | (f3 << 12) | 0x63);
    }
    let loads = [("lb", 0), ("lh", 1), ("lw", 2), ("lbu", 4), ("lhu", 5)];
    for (name, f3) in loads {
        let w = encode_instruction(&format!("{} x1, 8(x2)", name)).unwrap();
        assert_eq!(w, (8 << 20) | (2 << 15) | (f3 << 12) | (1 << 7) | 0x03);
    }
    let stores = [("sb", 0), ("sh", 1), ("sw", 2)];
    for (name, f3) in stores {
        let w = encode_instruction(&format!("{} x1, 8(x2)", name)).unwrap();
        assert_eq!(w, (1 << 20) | (2 << 15) | (f3 << 12) | (8 << 7) | 0x23);
    }
    assert_eq!(encode_instruction("auipc x1, 1"), Some((1 << 12) | (1 << 7) | 0x17));
    assert_eq!(encode_instruction("fence 3, 3"), Some((0x33 << 20) | 0x0f));
    assert_eq!(encode_instruction("fence 15, 15"), Some(0x0ff0_000f));
}

#[test]
fn encode_checks_the_width_of_immediates() {
    assert_eq!(encode_instruction("addi x1, x2, 4095"), Some(0xfff10093));
    assert_eq!(encode_instruction("addi x1, x2, 4096"), None);
    assert_eq!(encode_instruction("addi x1, x2, -4096"), Some(0x00010093));
    assert_eq!(encode_instruction("addi x1, x2, -4097"), None);
    assert_eq!(encode_instruction("addi x1, x2, -0"), None);
    assert_eq!(encode_instruction("addi x1, x2, +7"), Some(0x00710093));
    assert_eq!(encode_instruction("addi x1, x2, 007"), Some(0x00710093));
    assert_eq!(encode_instruction("lui x1, 1048575"), Some(0xfffff0b7));
    assert_eq!(encode_instruction("lui x1, 1048576"), None);
    assert_eq!(encode_instruction("fence 15, 15"), Some((0xff << 20) | 0x0f));
    assert_eq!(encode_instruction("fence 16, 0"), None);
    assert_eq!(encode_instruction("jal x1, 2097151"), Some(JAL_ALL_ONES));
    assert_eq!(encode_instruction("jal x1, 2097152"), None);
    assert_eq!(encode_instruction("addi x1, x2, 99999999999999999999"), None);
    assert_eq!(encode_instruction("addi x1, x2, 2147483648"), None);
    assert_eq!(encode_instruction("addi x1, x2, -2147483649"), None);
}

const JAL_ALL_ONES: u32 = 0xfffff0ef;

#[test]
fn encode_rejects_malformed_lines() {
    for line in [
        "", " ", "addi", "addi ", "addi x5", "addi x5, x6", "addi x5, x6,", "addi x5, x6, ",
        "addi x5,x6,1", "addi x5, x6, 1 ", "addi x5, x6, 1, 2", "addi x32, x6, 1",
        "addi x-1, x6, 1", "addi y5, x6, 1", "addi x5, 6, 1", "addi x5, x6, one",
        "addi x5, x6, 1x", "addi x5, x6, -", "addi x5, x6, +", "addi x, x6, 1",
        "ADDI x5, x6, 1", "addx x5, x6, 1", "add x1, x2, 3", "ecall x1", "ebreak 1",
        "lw x1, 4(x2))", "lw x1, 4(x2) ", "lw x1, (x2)", "flw x1, 0(x2)", "fadd.s x1, x2, x3",
        "?", "  addi x5, x6, 1",
    ] {
        assert_eq!(encode_instruction(line), None, "{:?}", line);
    }
}

#[test]
fn encode_wants_a_comma_and_a_space_between_operands() {
    for line in [
        "addi x5,\tx6, 1", "addi x5, x6,_1", "addi x5,x6, 1", "addi x5,  x6, 1", "addi x5 , x6, 1",
        "addi x5; x6; 1", "add x1, x2 x3", "fence 3,3", "fence 3 3", "lui x1,1", "jal x1 , 2",
    ] {
        assert_eq!(encode_instruction(line), None, "{:?}", line);
    }
}

#[test]
fn encode_wants_the_parentheses_of_an_offset_and_no_others() {
    assert_eq!(encode_instruction("lw x1, 4(x2)"), Some(0x00412083));
    for line in [
        "lw x1, 4(x2", "lw x1, 4)x2(", "lw x1, 4x2)", "lw x1, 4 (x2)", "lw x1, 4( x2)",
        "lw x1, 4(x2) ", "lw x1, 4((x2)", "lw x1, 4, x2", "lw x1(4, x2)", "sw x1, 4[x2]",
        "jalr x1, 4, x2", "jalr x1, 4(x2", "sw x1, 4)x2)", "addi x5(x6)1", "addi x5, x6(1)",
        "addi x5, x6, (1)", "addi x5, (x6), 1", "add x1, x2, x3)", "add (x1, x2, x3)",
        "jal x1, 8()", "lui x1, 1(x0)", "beq x1, x2, 4(x0)", "fence 3(3)",
    ] {
        assert_eq!(encode_instruction(line), None, "{:?}", line);
    }
}

#[test]
fn base_and_extension_tables_are_separate() {
    assert_eq!(encode_rv32i("mul x3, x1, x2"), None);
    assert_eq!(encode_rv32m("add x3, x1, x2"), None);
    assert_eq!(encode_rv32m("mul x3, x1, x2"), Some(0x022081b3));
    assert_eq!(encode_rv32i("add x3, x1, x2"), Some(0x002081b3));
}

#[test]
fn parser_reads_registers_and_numbers() {
    let mut p = ArgParser::new("x5, x31, -17");
    assert_eq!(p.register(), Some(5));
    assert_eq!(p.expect(", "), Some(()));
    assert_eq!(p.register(), Some(31));
    assert!(!p.is_empty());
    assert_eq!(p.expect(", "), Some(()));
    assert_eq!(p.number(12), Some(-17));
    assert!(p.is_empty());
    assert_eq!(p.register(), None);

    let mut p = ArgParser::new("8(x2)");
    assert_eq!(p.number(12), Some(8));
    assert_eq!(p.expect("("), Some(()));
    assert_eq!(p.register(), Some(2));
    assert!(!p.is_empty());
    assert_eq!(p.expect(")"), Some(()));
    assert!(p.is_empty());
    assert_eq!(p.expect(""), Some(()));
    assert_eq!(p.expect(")"), None);

    let mut p = ArgParser::new("x7, x8");
    assert_eq!(p.register(), Some(7));
    assert_eq!(p.expect(","), Some(()));
    assert_eq!(p.expect(", "), None);
    assert!(p.is_empty());

    let mut p = ArgParser::new("-2147483648,2147483647,4294967295");
    assert_eq!(p.number(32), Some(i32::MIN));
    assert_eq!(p.expect(","), Some(()));
    assert_eq!(p.number(40), Some(i32::MAX));
    assert_eq!(p.expect(","), Some(()));
    assert_eq!(p.number(40), None);
    assert!(p.is_empty());

    let mut p = ArgParser::new("1, 2");
    assert_eq!(p.number(0), None);
    assert!(p.is_empty());
    let mut p = ArgParser::new("0,1,-1,-2");
    assert_eq!(p.number(0), Some(0));
    assert_eq!(p.expect(","), Some(()));
    assert_eq!(p.number(1), Some(1));
    assert_eq!(p.expect(","), Some(()));
    assert_eq!(p.number(0), Some(-1));
    assert_eq!(p.expect(","), Some(()));
    assert_eq!(p.number(0), None);

    let mut p = ArgParser::new("x32, x1");
    assert_eq!(p.register(), None);
    assert!(p.is_empty());

    let mut p = ArgParser::new("x1,");
    assert_eq!(p.register(), Some(1));
    assert_eq!(p.expect(", "), None);
}

#[test]
fn decode_writes_base_instructions() {
    assert_eq!(decode_instruction(0x00130293), "addi x5, x6, 1");
    assert_eq!(decode_instruction(0x00128313), "addi x6, x5, 1");
    assert_eq!(decode_instruction(0xff9ff06f), "jal x0, -8");
    assert_eq!(decode_instruction(0x00100073), "ebreak");
    assert_eq!(decode_instruction(0x00000073), "ecall");
    assert_eq!(decode_instruction(0x002081b3), "add x3, x1, x2");
    assert_eq!(decode_instruction(0x402081b3), "sub x3, x1, x2");
    assert_eq!(decode_instruction(0x123452b7), "lui x5, 74565");
    assert_eq!(decode_instruction(0xfe20ae23), "sw x2, -4(x1)");
    assert_eq!(decode_instruction(0xfe208ce3), "beq x1, x2, -8");
    assert_eq!(decode_instruction(0x00012083), "lw x1, 0(x2)");
    assert_eq!(decode_instruction(0x00008067), "jalr x0, 0(x1)");
    assert_eq!(decode_instruction(0x80000fb7), "lui x31, -524288");
    assert_eq!(decode_instruction(0x80000fef), "jal x31, -1048576");
    assert_eq!(decode_instruction(0x7ff00f93), "addi x31, x0, 2047");
    assert_eq!(decode_instruction(0x80000f93), "addi x31, x0, -2048");
    assert_eq!(decode_instruction(0x00000017), "auipc x0, 0");
    assert_eq!(decode_instruction(0x0ff0_000f), "fence 15, 15");
    assert_eq!(decode_instruction(0x0330_000f), "fence 3, 3");
    assert_eq!(decode_instruction(0x0100_000f), "fence 1, 0");
    assert_eq!(decode_instruction(0x0000_000f), "fence 0, 0");
    assert_eq!(decode_instruction(0x8330_000f), "fence 3, 3");
}

#[test]
fn decode_writes_a_placeholder_for_anything_else() {
    for word in [
        0u32, 0xffff_ffff, 0x022081b3, 0x00200073, 0x00001013, 0x0330_0006, 0x53, 0x07, 0x0000_100f,
    ] {
        assert_eq!(decode_instruction(word), "?");
    }
}

#[test]
fn encode_inverts_decode_on_canonical_words() {
    let mut count = 0;
    let mut state: u32 = 0x9e37_79b9;
    for _ in 0..40000 {
        state = state.wrapping_mul(0x0019_660d).wrapping_add(0x3c6e_f35f);
        let word = state ^ (state >> 16) ^ (state >> 7);
        let text = decode_instruction(word);
        if text == "?" {
            continue;
        }
        let opcode = word & 0x7f;
        // jalr is written without its funct3, ecall and ebreak without their registers, a
        // fence without its registers and its mode
        if opcode == 0x67 || opcode == 0x73 || opcode == 0x0f {
            continue;
        }
        assert_eq!(encode_instruction(&text), Some(word), "{}", text);
        count += 1;
    }
    assert!(count > 500);
}

#[test]
fn decode_inverts_encode() {
    for line in [
        "addi x5, x6, 1", "slti x1, x2, -3", "sltiu x1, x2, 3", "xori x10, x20, 2047",
        "ori x0, x0, 0", "andi x31, x31, -2048", "lui x7, 524287", "auipc x7, -524288",
        "add x1, x2, x3", "sub x1, x2, x3", "sll x1, x2, x3", "slt x1, x2, x3", "sltu x1, x2, x3",
        "xor x1, x2, x3", "srl x1, x2, x3", "sra x1, x2, x3", "or x1, x2, x3", "and x1, x2, x3",
        "jal x1, 1048574", "jal x1, -1048576", "jalr x1, -4(x2)", "beq x1, x2, 4094",
        "bne x1, x2, -4096", "blt x1, x2, 2", "bge x1, x2, -2", "bltu x1, x2, 0", "bgeu x1, x2, 8",
        "lb x1, 1(x2)", "lh x1, -1(x2)", "lw x1, 2047(x2)", "lbu x1, -2048(x2)", "lhu x1, 0(x2)",
        "sb x1, 1(x2)", "sh x1, -1(x2)", "sw x1, 2047(x2)", "ecall", "ebreak", "fence 15, 15",
        "fence 0, 0", "fence 3, 12",
    ] {
        let word = encode_instruction(line).unwrap();
        assert_eq!(decode_instruction(word), line);
    }
}

#[test]
fn encode_inverts_decode_on_fences_without_a_mode() {
    for pred in 0..16u32 {
        for succ in 0..16u32 {
            let word = (pred << 24) | (succ << 20) | 0x0f;
            let text = decode_instruction(word);
            assert_eq!(text, format!("fence {}, {}", pred, succ));
            assert_eq!(encode_instruction(&text), Some(word));
        }
    }
}
