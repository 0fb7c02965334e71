use lc3::engine::Status;
use lc3::machine::{Machine, FLAG_Z};

fn image(origin: u16, words: &[u16]) -> Vec<u8> {
    let mut bytes = origin.to_be_bytes().to_vec();
    for w in words {
        bytes.extend_from_slice(&w.to_be_bytes());
    }
    bytes
}

fn run_image(bytes: &[u8], input: &[u8]) -> (Status, usize, Vec<u8>, Machine) {
    let mut m = Machine::new();
    let origin = m.load_image(&bytes.to_vec()).unwrap();
    assert_eq!(m.pc, origin);
    let mut out = Vec::new();
    let (st, used) = m.run(&input.to_vec(), 1000, &mut out);
    (st, used, out, m)
}

#[test]
fn lea_then_write_char_then_halt() {
    let (st, _, out, m) = run_image(&image(0x3000, &[0xE000, 0xF021, 0xF025]), &[]);
    assert_eq!(st, Status::Halted);
    assert_eq!(out, vec![0x01]);
    assert_eq!(m.reg[0], 0x3001);
}

#[test]
fn write_string_then_go_on() {
    let words = [0xE003, 0xF022, 0x1262, 0xF025, 0x0048, 0x0069, 0x0021, 0x0000];
    let (st, _, out, m) = run_image(&image(0x3000, &words), &[]);
    assert_eq!(st, Status::Halted);
    assert_eq!(out, b"Hi!".to_vec());
    assert_eq!(m.reg[1], 2);
}

#[test]
fn reserved_first_instruction_stops() {
    for op in [0x8000u16, 0xD000] {
        let (st, _, out, m) = run_image(&image(0x3000, &[op, 0xF021, 0xF025]), &[]);
        assert_eq!(st, Status::IllegalOpcode);
        assert!(out.is_empty());
        assert_eq!(m.pc, 0x3001);
    }
}

#[test]
fn store_then_load_round_trip() {
    let mut m = Machine::new();
    m.mwrite(0x3000, 0x3602);
    m.mwrite(0x3001, 0x2401);
    m.reg[3] = 0x5A5A;
    let mut out = Vec::new();
    m.step(None, &mut out);
    m.step(None, &mut out);
    assert_eq!(m.mem[0x3003], 0x5A5A);
    assert_eq!(m.reg[2], 0x5A5A);
}

#[test]
fn load_indirect_round_trip() {
    let mut m = Machine::new();
    m.mwrite(0x3000, 0xA404);
    m.mwrite(0x3005, 0x4100);
    m.mwrite(0x4100, 0x0777);
    let mut out = Vec::new();
    m.step(None, &mut out);
    assert_eq!(m.reg[2], 0x0777);
}

#[test]
fn branch_on_zero_mask() {
    let mut m = Machine::new();
    m.cc = FLAG_Z;
    m.mwrite(0x3000, 0x05F0);
    let mut out = Vec::new();
    m.step(None, &mut out);
    assert_eq!(m.pc, 0x3001u16.wrapping_add(0xFFF0));
    let mut m = Machine::new();
    m.cc = FLAG_Z;
    m.mwrite(0x3000, 0x0A10);
    m.step(None, &mut out);
    assert_eq!(m.pc, 0x3001);
}

#[test]
fn call_and_return() {
    let words = [0x4803, 0xF025, 0, 0, 0x1021, 0xC1C0];
    let mut m = Machine::new();
    m.load_image(&image(0x3000, &words)).unwrap();
    let mut out = Vec::new();
    m.step(None, &mut out);
    assert_eq!(m.reg[7], 0x3001);
    assert_eq!(m.pc, 0x3004);
    m.step(None, &mut out);
    m.step(None, &mut out);
    assert_eq!(m.pc, 0x3001);
    assert_eq!(m.step(None, &mut out), Status::Halted);
    assert_eq!(m.reg[0], 1);
}

#[test]
fn run_consumes_scripted_input() {
    let words = [0xF020, 0xF021, 0xF023, 0xF025];
    let (st, used, out, m) = run_image(&image(0x3000, &words), b"xyz");
    assert_eq!(st, Status::Halted);
    assert_eq!(used, 2);
    assert_eq!(out, b"xy".to_vec());
    assert_eq!(m.reg[0], b'y' as u16);
}

#[test]
fn run_reports_closed_input() {
    let (st, used, out, _) = run_image(&image(0x3000, &[0xF020, 0xF025]), &[]);
    assert_eq!(st, Status::InputClosed);
    assert_eq!(used, 0);
    assert!(out.is_empty());
}

#[test]
fn run_stops_at_step_budget() {
    let mut m = Machine::new();
    m.mwrite(0x3000, 0x0FFF);
    m.cc = FLAG_Z;
    let mut out = Vec::new();
    let (st, used) = m.run(&vec![], 10, &mut out);
    assert_eq!(st, Status::Running);
    assert_eq!(used, 0);
    assert_eq!(m.pc, 0x3000);
}

#[test]
fn run_polls_keyboard_from_script() {
    let words = [0xA001, 0xF025, 0xFE00];
    let (st, used, _, m) = run_image(&image(0x3000, &words), b"k");
    assert_eq!(st, Status::Halted);
    assert_eq!(used, 1);
    assert_eq!(m.reg[0], 0x8000);
    assert_eq!(m.mem[0xFE02], b'k' as u16);
}
