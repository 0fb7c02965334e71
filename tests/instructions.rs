use lc3::engine::{input_prompt, InputNeed, Status};
use lc3::instr::{decode, Instr, Operand};
use lc3::machine::{Machine, FLAG_N, FLAG_P, FLAG_Z, KBDR, KBSR};

fn machine_with(words: &[u16]) -> Machine {
    let mut m = Machine::new();
    for (i, w) in words.iter().enumerate() {
        m.mwrite(0x3000 + i as u16, *w);
    }
    m
}

fn step(m: &mut Machine, key: Option<u8>) -> (Status, Vec<u8>) {
    let mut out = Vec::new();
    let st = m.step(key, &mut out);
    (st, out)
}

#[test]
fn decode_each_form() {
    assert_eq!(decode(0x0403), Instr::Br { mask: 2, offset: 3 });
    assert_eq!(decode(0x12BF), Instr::Add { dr: 1, sr1: 2, src: Operand::Imm(0xFFFF) });
    assert_eq!(decode(0x1642), Instr::Add { dr: 3, sr1: 1, src: Operand::Reg(2) });
    assert_eq!(decode(0x2405), Instr::Ld { dr: 2, offset: 5 });
    assert_eq!(decode(0x37FE), Instr::St { sr: 3, offset: 0xFFFE });
    assert_eq!(decode(0x4804), Instr::Jsr { offset: 4 });
    assert_eq!(decode(0x40C0), Instr::Jsrr { base: 3 });
    assert_eq!(decode(0x5283), Instr::And { dr: 1, sr1: 2, src: Operand::Reg(3) });
    assert_eq!(decode(0x63BF), Instr::Ldr { dr: 1, base: 6, offset: 0xFFFF });
    assert_eq!(decode(0x7383), Instr::Str { sr: 1, base: 6, offset: 3 });
    assert_eq!(decode(0x997F), Instr::Not { dr: 4, sr: 5 });
    assert_eq!(decode(0xA001), Instr::Ldi { dr: 0, offset: 1 });
    assert_eq!(decode(0xB201), Instr::Sti { sr: 1, offset: 1 });
    assert_eq!(decode(0xC1C0), Instr::Jmp { base: 7 });
    assert_eq!(decode(0xE1FF), Instr::Lea { dr: 0, offset: 0xFFFF });
    assert_eq!(decode(0xF025), Instr::Trap { vector: 0x25 });
    assert_eq!(decode(0x8000), Instr::Reserved);
    assert_eq!(decode(0xD000), Instr::Reserved);
}

#[test]
fn add_immediate_sets_flags() {
    let mut m = machine_with(&[0x12BF]);
    m.reg[2] = 0;
    assert_eq!(step(&mut m, None), (Status::Running, vec![]));
    assert_eq!(m.reg[1], 0xFFFF);
    assert_eq!(m.cc, FLAG_N);
    assert_eq!(m.pc, 0x3001);
}

#[test]
fn add_registers_wraps() {
    let mut m = machine_with(&[0x1642]);
    m.reg[1] = 0xFFFF;
    m.reg[2] = 1;
    step(&mut m, None);
    assert_eq!(m.reg[3], 0);
    assert_eq!(m.cc, FLAG_Z);
}

#[test]
fn and_forms() {
    let mut m = machine_with(&[0x5283, 0x5020]);
    m.reg[0] = 0x1234;
    m.reg[2] = 0x0F0F;
    m.reg[3] = 0x00FF;
    step(&mut m, None);
    assert_eq!(m.reg[1], 0x000F);
    assert_eq!(m.cc, FLAG_P);
    step(&mut m, None);
    assert_eq!(m.reg[0], 0);
    assert_eq!(m.cc, FLAG_Z);
}

#[test]
fn not_complements() {
    let mut m = machine_with(&[0x997F]);
    m.reg[5] = 0x00FF;
    step(&mut m, None);
    assert_eq!(m.reg[4], 0xFF00);
    assert_eq!(m.cc, FLAG_N);
}

#[test]
fn load_relative_to_next_word() {
    let mut m = machine_with(&[0x2405]);
    m.mwrite(0x3006, 42);
    step(&mut m, None);
    assert_eq!(m.reg[2], 42);
    assert_eq!(m.cc, FLAG_P);
}

#[test]
fn store_relative_to_next_word() {
    let mut m = machine_with(&[0x37FE]);
    m.reg[3] = 0xABCD;
    m.cc = FLAG_Z;
    step(&mut m, None);
    assert_eq!(m.mem[0x2FFF], 0xABCD);
    assert_eq!(m.cc, FLAG_Z);
}

#[test]
fn load_and_store_through_base_register() {
    let mut m = machine_with(&[0x63BF, 0x7383]);
    m.reg[6] = 0x4001;
    m.mwrite(0x4000, 0x8001);
    step(&mut m, None);
    assert_eq!(m.reg[1], 0x8001);
    assert_eq!(m.cc, FLAG_N);
    step(&mut m, None);
    assert_eq!(m.mem[0x4004], 0x8001);
}

#[test]
fn store_indirect_writes_through_pointer() {
    let mut m = machine_with(&[0xB201, 0, 0x5000]);
    m.reg[1] = 99;
    step(&mut m, None);
    assert_eq!(m.mem[0x5000], 99);
}

#[test]
fn lea_computes_address() {
    let mut m = machine_with(&[0xE1FF]);
    step(&mut m, None);
    assert_eq!(m.reg[0], 0x3000);
    assert_eq!(m.cc, FLAG_P);
}

#[test]
fn branch_taken_and_not_taken() {
    let mut m = machine_with(&[0x0A03]);
    m.cc = FLAG_P;
    step(&mut m, None);
    assert_eq!(m.pc, 0x3004);
    let mut m = machine_with(&[0x0A03]);
    m.cc = FLAG_Z;
    step(&mut m, None);
    assert_eq!(m.pc, 0x3001);
}

#[test]
fn branch_backwards() {
    let mut m = machine_with(&[0x0FFF]);
    m.cc = FLAG_N;
    step(&mut m, None);
    assert_eq!(m.pc, 0x3000);
}

#[test]
fn branch_before_any_flag_is_not_taken() {
    let mut m = machine_with(&[0x0FFF]);
    step(&mut m, None);
    assert_eq!(m.pc, 0x3001);
}

#[test]
fn jump_through_register() {
    let mut m = machine_with(&[0xC080]);
    m.reg[2] = 0x1234;
    step(&mut m, None);
    assert_eq!(m.pc, 0x1234);
}

#[test]
fn call_through_register() {
    let mut m = machine_with(&[0x40C0]);
    m.reg[3] = 0x5000;
    step(&mut m, None);
    assert_eq!(m.reg[7], 0x3001);
    assert_eq!(m.pc, 0x5000);
}

#[test]
fn program_counter_wraps_at_last_address() {
    let mut m = Machine::new();
    m.pc = 0xFFFF;
    m.mwrite(0xFFFF, 0x1021);
    step(&mut m, None);
    assert_eq!(m.pc, 0);
    assert_eq!(m.reg[0], 1);
}

#[test]
fn trap_read_char() {
    let mut m = machine_with(&[0xF020]);
    m.cc = FLAG_N;
    assert_eq!(m.input_need(), InputNeed::Char);
    assert_eq!(step(&mut m, Some(b'q')), (Status::Running, vec![]));
    assert_eq!(m.reg[0], b'q' as u16);
    assert_eq!(m.cc, FLAG_N);
}

#[test]
fn trap_read_char_on_closed_input() {
    let mut m = machine_with(&[0xF020]);
    assert_eq!(step(&mut m, None), (Status::InputClosed, vec![]));
}

#[test]
fn trap_read_char_echoed() {
    let mut m = machine_with(&[0xF023]);
    assert_eq!(m.input_need(), InputNeed::EchoedChar);
    assert_eq!(step(&mut m, Some(b'z')), (Status::Running, vec![b'z']));
    assert_eq!(m.reg[0], b'z' as u16);
    assert_eq!(input_prompt(), "Enter a character: ");
}

#[test]
fn trap_write_char_low_byte() {
    let mut m = machine_with(&[0xF021]);
    m.reg[0] = 0x1241;
    assert_eq!(step(&mut m, None), (Status::Running, vec![0x41]));
}

#[test]
fn trap_write_string_stops_at_zero() {
    let mut m = machine_with(&[0xF022]);
    m.reg[0] = 0x4000;
    m.mwrite(0x4000, 0x0148);
    m.mwrite(0x4001, 0x0069);
    m.mwrite(0x4002, 0x0100);
    m.mwrite(0x4003, 0x0041);
    assert_eq!(step(&mut m, None), (Status::Running, b"Hi".to_vec()));
    assert_eq!(m.pc, 0x3001);
}

#[test]
fn trap_write_string_ends_at_last_address() {
    let mut m = machine_with(&[0xF022]);
    m.reg[0] = 0xFFFF;
    m.mwrite(0xFFFF, 0x0041);
    assert_eq!(step(&mut m, None), (Status::Running, b"A".to_vec()));
}

#[test]
fn trap_write_packed_string() {
    let mut m = machine_with(&[0xF024, 0xF024]);
    m.reg[0] = 0x4000;
    m.mwrite(0x4000, 0x6162);
    m.mwrite(0x4001, 0x6300);
    m.mwrite(0x4002, 0x6465);
    assert_eq!(step(&mut m, None), (Status::Running, b"abc".to_vec()));
    m.reg[0] = 0x4002;
    m.mwrite(0x4003, 0x0066);
    assert_eq!(step(&mut m, None), (Status::Running, b"de".to_vec()));
}

#[test]
fn trap_halt() {
    let mut m = machine_with(&[0xF025]);
    assert_eq!(step(&mut m, None), (Status::Halted, vec![]));
}

#[test]
fn unknown_trap_does_nothing() {
    let mut m = machine_with(&[0xF0FF]);
    m.reg[0] = 5;
    assert_eq!(m.input_need(), InputNeed::Nothing);
    assert_eq!(step(&mut m, None), (Status::Running, vec![]));
    assert_eq!(m.reg[0], 5);
    assert_eq!(m.pc, 0x3001);
}

#[test]
fn reserved_opcodes_are_fatal() {
    let mut m = machine_with(&[0x8000]);
    assert_eq!(step(&mut m, None), (Status::IllegalOpcode, vec![]));
    let mut m = machine_with(&[0xD123]);
    assert_eq!(step(&mut m, None), (Status::IllegalOpcode, vec![]));
}

#[test]
fn load_from_status_register_polls() {
    let mut m = machine_with(&[0xA001, 0, KBSR]);
    assert_eq!(m.input_need(), InputNeed::Poll);
    step(&mut m, Some(b'k'));
    assert_eq!(m.reg[0], 0x8000);
    assert_eq!(m.mem[KBDR as usize], b'k' as u16);
    assert_eq!(m.cc, FLAG_N);
}

#[test]
fn load_from_status_register_without_byte() {
    let mut m = Machine::new();
    m.reg[6] = KBSR;
    m.mwrite(0x3000, 0x6180);
    assert_eq!(m.input_need(), InputNeed::Poll);
    step(&mut m, None);
    assert_eq!(m.reg[0], 0);
    assert_eq!(m.cc, FLAG_Z);
}

#[test]
fn plain_load_needs_no_input() {
    let m = machine_with(&[0x2405]);
    assert_eq!(m.input_need(), InputNeed::Nothing);
}
