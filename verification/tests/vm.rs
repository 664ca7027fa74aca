use virtual_machine::machine::{Machine, MachineError};
use virtual_machine::sink::{Sink, VecSink};

/// A sink that refuses every write.
struct RefusingSink;

impl Sink for RefusingSink {
    // The ghost model of the sink is never evaluated at run time.
    fn contents(&self) -> vstd::seq::Seq<u8> {
        panic!()
    }

    fn write_bytes(&mut self, _bytes: &[u8]) -> bool {
        false
    }
}

#[test]
fn new_copies_image_and_zero_fills() {
    let img = [1u8, 2, 3];
    let m = Machine::new(&img);
    assert_eq!(m.memory().len(), 4096);
    assert_eq!(m.memory()[0], 1);
    assert_eq!(m.memory()[1], 2);
    assert_eq!(m.memory()[2], 3);
    assert!(m.memory()[3..].iter().all(|&b| b == 0));
    assert_eq!(m.regs(), &[0u32; 16][..]);
}

#[test]
fn set_reg_updates_register() {
    let mut m = Machine::new(&[]);
    assert!(m.set_reg(5, 42).is_ok());
    assert_eq!(m.regs()[5], 42);
}

#[test]
fn set_reg_rejects_out_of_range_index() {
    let mut m = Machine::new(&[]);
    assert_eq!(m.set_reg(16, 1), Err(MachineError::InvalidRegisterAccess));
    assert_eq!(m.regs(), &[0u32; 16][..]);
}

#[test]
fn loadimm_sign_extends_negative_immediate() {
    let img = [4u8, 1, 0xFF, 0xFF, 7];
    let mut m = Machine::new(&img);
    let mut sink = VecSink::new();
    assert!(m.run_on(&mut sink).is_ok());
    assert_eq!(m.regs()[1], 0xFFFF_FFFF);
}

#[test]
fn loadimm_keeps_positive_immediate() {
    let img = [4u8, 1, 0x01, 0x00, 7];
    let mut m = Machine::new(&img);
    let mut sink = VecSink::new();
    assert!(m.run_on(&mut sink).is_ok());
    assert_eq!(m.regs()[1], 1);
}

#[test]
fn sub_wraps_below_zero() {
    let img = [5u8, 3, 1, 2, 7];
    let mut m = Machine::new(&img);
    m.set_reg(1, 0).unwrap();
    m.set_reg(2, 1).unwrap();
    let mut sink = VecSink::new();
    assert!(m.run_on(&mut sink).is_ok());
    assert_eq!(m.regs()[3], 0xFFFF_FFFF);
}

#[test]
fn sub_wraps_back_to_one() {
    let img = [5u8, 3, 1, 2, 7];
    let mut m = Machine::new(&img);
    m.set_reg(1, 0).unwrap();
    m.set_reg(2, 0xFFFF_FFFF).unwrap();
    let mut sink = VecSink::new();
    assert!(m.run_on(&mut sink).is_ok());
    assert_eq!(m.regs()[3], 1);
}

#[test]
fn store_then_load_round_trips() {
    // store mem[r1] <- r2, then load r4 <- mem[r1], then exit.
    let img = [2u8, 1, 2, 3, 4, 1, 7];
    let mut m = Machine::new(&img);
    m.set_reg(1, 100).unwrap();
    m.set_reg(2, 0xDEAD_BEEF).unwrap();
    let mut sink = VecSink::new();
    assert!(m.run_on(&mut sink).is_ok());
    assert_eq!(m.regs()[4], 0xDEAD_BEEF);
    assert_eq!(&m.memory()[100..104], &[0xEF, 0xBE, 0xAD, 0xDE][..]);
}

#[test]
fn move_if_zero_condition_leaves_destination() {
    let img = [1u8, 2, 3, 4, 7];
    let mut m = Machine::new(&img);
    m.set_reg(3, 77).unwrap();
    m.set_reg(4, 0).unwrap();
    let mut sink = VecSink::new();
    assert!(m.run_on(&mut sink).is_ok());
    assert_eq!(m.regs()[2], 0);
}

#[test]
fn move_if_nonzero_condition_copies_source() {
    let img = [1u8, 2, 3, 4, 7];
    let mut m = Machine::new(&img);
    m.set_reg(3, 77).unwrap();
    m.set_reg(4, 1).unwrap();
    let mut sink = VecSink::new();
    assert!(m.run_on(&mut sink).is_ok());
    assert_eq!(m.regs()[2], 77);
}

#[test]
fn opcode_zero_is_invalid_and_leaves_ip() {
    let img = [0u8];
    let mut m = Machine::new(&img);
    let mut sink = VecSink::new();
    assert_eq!(m.step_on(&mut sink), Err(MachineError::InvalidInstruction));
    assert_eq!(m.regs()[0], 0);
}

#[test]
fn opcode_nine_is_invalid_and_leaves_ip() {
    let img = [9u8];
    let mut m = Machine::new(&img);
    let mut sink = VecSink::new();
    assert_eq!(m.step_on(&mut sink), Err(MachineError::InvalidInstruction));
    assert_eq!(m.regs()[0], 0);
}

#[test]
fn opcode_at_last_cell_with_operands_fails() {
    let mut img = vec![0u8; 4096];
    img[4095] = 6;
    let mut m = Machine::new(&img);
    m.set_reg(0, 4095).unwrap();
    let mut sink = VecSink::new();
    assert_eq!(m.step_on(&mut sink), Err(MachineError::InvalidMemoryAccess));
    assert_eq!(m.regs()[0], 4095);
}

#[test]
fn ip_beyond_capacity_fails() {
    let mut m = Machine::new(&[7u8]);
    m.set_reg(0, 4096).unwrap();
    let mut sink = VecSink::new();
    assert_eq!(m.step_on(&mut sink), Err(MachineError::InvalidMemoryAccess));
}

#[test]
fn register_operand_sixteen_fails() {
    let img = [6u8, 16];
    let mut m = Machine::new(&img);
    let mut sink = VecSink::new();
    assert_eq!(m.step_on(&mut sink), Err(MachineError::InvalidRegisterAccess));
    assert_eq!(m.regs()[0], 0);
}

#[test]
fn load_from_out_of_range_address_fails_after_advance() {
    let img = [3u8, 1, 2];
    let mut m = Machine::new(&img);
    m.set_reg(2, 4093).unwrap();
    let mut sink = VecSink::new();
    assert_eq!(m.step_on(&mut sink), Err(MachineError::InvalidMemoryAccess));
    // The instruction pointer had already advanced when the data address
    // was rejected.
    assert_eq!(m.regs()[0], 3);
}

#[test]
fn store_to_out_of_range_address_fails_after_advance() {
    let img = [2u8, 1, 2];
    let mut m = Machine::new(&img);
    m.set_reg(1, 4093).unwrap();
    let mut sink = VecSink::new();
    assert_eq!(m.step_on(&mut sink), Err(MachineError::InvalidMemoryAccess));
    assert_eq!(m.regs()[0], 3);
}

#[test]
fn scenario_prints_letter_then_halts() {
    // loadimm r1, 'A'; out r1; exit
    let img = [4u8, 1, 65, 0, 6, 1, 7];
    let mut m = Machine::new(&img);
    let mut sink = VecSink::new();
    assert!(m.run_on(&mut sink).is_ok());
    assert_eq!(sink.bytes(), &[0x41u8][..]);
}

#[test]
fn scenario_prints_difference_in_decimal() {
    // loadimm r1, 5; loadimm r2, 3; sub r3, r1, r2; out_number r3; exit
    let img = [4u8, 1, 5, 0, 4, 2, 3, 0, 5, 3, 1, 2, 8, 3, 7];
    let mut m = Machine::new(&img);
    let mut sink = VecSink::new();
    assert!(m.run_on(&mut sink).is_ok());
    assert_eq!(sink.bytes(), b"2".as_slice());
}

#[test]
fn scenario_bare_exit_halts_immediately() {
    let img = [7u8];
    let mut m = Machine::new(&img);
    let mut sink = VecSink::new();
    assert!(m.run_on(&mut sink).is_ok());
    assert_eq!(sink.bytes(), &[][..]);
    assert_eq!(m.regs()[0], 1);
    assert!(m.regs()[1..].iter().all(|&r| r == 0));
}

#[test]
fn loadimm_into_register_zero_repoints_execution() {
    // loadimm r0, 6: the instruction pointer itself is overwritten, so
    // execution resumes at address 6, where an exit sits.
    let img = [4u8, 0, 6, 0, 0, 0, 7];
    let mut m = Machine::new(&img);
    let mut sink = VecSink::new();
    assert!(m.run_on(&mut sink).is_ok());
    assert_eq!(m.regs()[0], 7);
}

#[test]
fn out_encodes_high_bytes_as_utf8() {
    // loadimm r1, 0xFF; out r1; exit
    let img = [4u8, 1, 0xFF, 0, 6, 1, 7];
    let mut m = Machine::new(&img);
    let mut sink = VecSink::new();
    assert!(m.run_on(&mut sink).is_ok());
    assert_eq!(sink.bytes(), &[0xC3u8, 0xBF][..]);
}

#[test]
fn out_number_prints_negative_numbers() {
    let img = [8u8, 1, 7];
    let mut m = Machine::new(&img);
    m.set_reg(1, 0xFFFF_FFFF).unwrap();
    let mut sink = VecSink::new();
    assert!(m.run_on(&mut sink).is_ok());
    assert_eq!(sink.bytes(), b"-1".as_slice());
}

#[test]
fn out_number_prints_smallest_number() {
    let img = [8u8, 1, 7];
    let mut m = Machine::new(&img);
    m.set_reg(1, 0x8000_0000).unwrap();
    let mut sink = VecSink::new();
    assert!(m.run_on(&mut sink).is_ok());
    assert_eq!(sink.bytes(), b"-2147483648".as_slice());
}

#[test]
fn failing_sink_surfaces_io_error() {
    let img = [6u8, 1, 7];
    let mut m = Machine::new(&img);
    let mut sink = RefusingSink;
    assert_eq!(m.step_on(&mut sink), Err(MachineError::IOError));
    // The instruction pointer had already advanced before the write.
    assert_eq!(m.regs()[0], 2);
}

#[test]
fn vec_sink_collects_all_writes() {
    let mut sink = VecSink::new();
    assert!(sink.write_bytes(&[1u8, 2]));
    assert!(sink.write_bytes(&[3u8]));
    assert_eq!(sink.bytes(), &[1u8, 2, 3][..]);
}
