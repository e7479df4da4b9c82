use sharp_core::cpu::SharpCpu;
use sharp_core::regfile::Register::{
    A, AF, B, BC, C, CARRY_F, DE, H, HALF_CARRY_F, HL, L, NEGATIVE_F, PC, SP, ZERO_F,
};

#[test]
fn multi_byte_opcode() {
    let mut cpu = SharpCpu::default();

    // Load register B with data.
    let mut opcode = 0x06;
    let mut data = [0xAB];
    let mut num_data_bytes = 1;
    let mut num_cycles = cpu.execute(opcode, &data, num_data_bytes);
    assert_eq!(num_cycles, 4);
    assert_eq!(cpu.regfile.get_8reg(B), 0xAB);

    // Load register C with the contents of register B.
    opcode = 0x48;
    data = [0];
    num_data_bytes = 1;
    num_cycles = cpu.execute(opcode, &data, num_data_bytes);
    assert_eq!(num_cycles, 4);
    assert_eq!(cpu.regfile.get_8reg(C), 0xAB);
    assert_eq!(cpu.regfile.get_8reg(B), 0xAB);
}

#[test]
fn reg_to_mem() {
    let mut cpu = SharpCpu::default();

    // Load register B with data.
    let mut num_cycles = cpu.execute(0x06, &[0xAB], 1);
    assert_eq!(num_cycles, 4);
    assert_eq!(cpu.regfile.get_8reg(B), 0xAB);
    // Load address 0x00AB with register B.
    cpu.execute(0x36, &[0xAB], 1);
    assert_eq!(cpu.regfile.get_16reg(HL), 0x00AB);
    assert_eq!(cpu.regfile.get_8reg(L), 0xAB);
    assert_eq!(cpu.regfile.get_8reg(H), 0x00);

    num_cycles = cpu.execute(0x70, &[0], 1);
    assert_eq!(num_cycles, 4);
    assert_eq!(cpu.memory.read(0x00AB), 0xAB);

    // Load register C with the contents of address 0x00AB.
    num_cycles = cpu.execute(0x4E, &[0], 0);
    assert_eq!(num_cycles, 4);
    assert_eq!(cpu.regfile.get_8reg(C), 0xAB);
}

fn snapshot(cpu: &SharpCpu) -> Vec<u16> {
    let mut s: Vec<u16> = [AF, BC, DE, HL, SP, PC].iter().map(|&r| cpu.regfile.get_16reg(r)).collect();
    for addr in [0x0000u16, 0x0001, 0x00AB, 0xC000, 0xFFFF] {
        s.push(cpu.memory.read(addr) as u16);
    }
    s
}

#[test]
fn nop_changes_nothing() {
    let mut cpu = SharpCpu::default();
    cpu.regfile.set_16reg(BC, 0x1234);
    cpu.regfile.set_16reg(SP, 0xFFFE);
    cpu.regfile.set_flag(CARRY_F, true);
    cpu.memory.write(0xC000, 0x77);
    let before = snapshot(&cpu);
    for _ in 0..10 {
        assert_eq!(cpu.execute(0x00, &[], 0), 0);
        assert_eq!(snapshot(&cpu), before);
    }
}

#[test]
fn push_and_pop_every_pair() {
    let pairs = [(0xC5u8, 0xC1u8, BC), (0xD5, 0xD1, DE), (0xE5, 0xE1, HL), (0xF5, 0xF1, AF)];
    for &(push, pop, rr) in &pairs {
        let mut cpu = SharpCpu::default();
        cpu.regfile.set_16reg(SP, 0xD000);
        cpu.regfile.set_16reg(rr, 0x12F0);
        assert_eq!(cpu.execute(push, &[], 0), 16);
        assert_eq!(cpu.regfile.get_16reg(SP), 0xCFFE);
        assert_eq!(cpu.memory.read(0xCFFF), 0x12);
        assert_eq!(cpu.memory.read(0xCFFE), 0xF0);
        cpu.regfile.set_16reg(rr, 0x0000);
        assert_eq!(cpu.execute(pop, &[], 0), 12);
        assert_eq!(cpu.regfile.get_16reg(rr), 0x12F0);
        assert_eq!(cpu.regfile.get_16reg(SP), 0xD000);
    }
}

#[test]
fn pop_af_clears_low_nibble_of_f() {
    let mut cpu = SharpCpu::default();
    cpu.regfile.set_16reg(SP, 0xC000);
    cpu.memory.write(0xC000, 0xFF);
    cpu.memory.write(0xC001, 0x3C);
    assert_eq!(cpu.execute(0xF1, &[], 0), 12);
    assert_eq!(cpu.regfile.get_16reg(AF), 0x3CF0);
    assert_eq!(cpu.regfile.get_16reg(SP), 0xC002);
}

#[test]
fn add_sets_flags() {
    let mut cpu = SharpCpu::default();
    cpu.regfile.set_8reg(A, 0x3A);
    cpu.regfile.set_8reg(B, 0xC6);
    cpu.regfile.set_flag(NEGATIVE_F, true);
    assert_eq!(cpu.execute(0x80, &[], 0), 4);
    assert_eq!(cpu.regfile.get_8reg(A), 0x00);
    assert!(cpu.regfile.get_flag(ZERO_F));
    assert!(!cpu.regfile.get_flag(NEGATIVE_F));
    assert!(cpu.regfile.get_flag(HALF_CARRY_F));
    assert!(cpu.regfile.get_flag(CARRY_F));

    cpu.regfile.set_8reg(A, 0x0F);
    cpu.regfile.set_16reg(HL, 0xC000);
    cpu.memory.write(0xC000, 0x01);
    assert_eq!(cpu.execute(0x86, &[], 0), 8);
    assert_eq!(cpu.regfile.get_8reg(A), 0x10);
    assert!(!cpu.regfile.get_flag(ZERO_F));
    assert!(cpu.regfile.get_flag(HALF_CARRY_F));
    assert!(!cpu.regfile.get_flag(CARRY_F));
}

#[test]
fn load_sixteen_bit_immediates() {
    let regs = [(0x01u8, BC), (0x11, DE), (0x21, HL), (0x31, SP)];
    for &(op, rr) in &regs {
        let mut cpu = SharpCpu::default();
        assert_eq!(cpu.execute(op, &[0x34, 0x12], 2), 12);
        assert_eq!(cpu.regfile.get_16reg(rr), 0x1234);
    }
}

#[test]
fn high_page_loads() {
    let mut cpu = SharpCpu::default();
    cpu.regfile.set_8reg(A, 0x55);
    assert_eq!(cpu.execute(0xE0, &[0x80], 1), 12);
    assert_eq!(cpu.memory.read(0xFF80), 0x55);
    cpu.regfile.set_8reg(A, 0x00);
    cpu.regfile.set_8reg(C, 0x80);
    assert_eq!(cpu.execute(0xF2, &[], 0), 8);
    assert_eq!(cpu.regfile.get_8reg(A), 0x55);
    cpu.regfile.set_8reg(A, 0x66);
    assert_eq!(cpu.execute(0xE2, &[], 0), 8);
    assert_eq!(cpu.memory.read(0xFF80), 0x66);
    cpu.regfile.set_8reg(A, 0x00);
    assert_eq!(cpu.execute(0xF0, &[0x80], 1), 12);
    assert_eq!(cpu.regfile.get_8reg(A), 0x66);
}

#[test]
fn absolute_address_loads() {
    let mut cpu = SharpCpu::default();
    cpu.regfile.set_8reg(A, 0x99);
    assert_eq!(cpu.execute(0xEA, &[0x10, 0xC0], 2), 16);
    assert_eq!(cpu.memory.read(0xC010), 0x99);
    cpu.regfile.set_8reg(A, 0x00);
    assert_eq!(cpu.execute(0xFA, &[0x10, 0xC0], 2), 16);
    assert_eq!(cpu.regfile.get_8reg(A), 0x99);
    cpu.regfile.set_16reg(SP, 0xBEEF);
    assert_eq!(cpu.execute(0x08, &[0x00, 0xC0], 2), 20);
    assert_eq!(cpu.memory.read(0xC000), 0xEF);
    assert_eq!(cpu.memory.read(0xC001), 0xBE);
}

#[test]
fn indirect_pair_loads() {
    let mut cpu = SharpCpu::default();
    cpu.regfile.set_8reg(A, 0x21);
    cpu.regfile.set_16reg(BC, 0xC100);
    cpu.regfile.set_16reg(DE, 0xC200);
    assert_eq!(cpu.execute(0x02, &[], 0), 8);
    assert_eq!(cpu.execute(0x12, &[], 0), 8);
    assert_eq!(cpu.memory.read(0xC100), 0x21);
    assert_eq!(cpu.memory.read(0xC200), 0x21);
    cpu.memory.write(0xC100, 0x31);
    cpu.memory.write(0xC200, 0x32);
    assert_eq!(cpu.execute(0x0A, &[], 0), 8);
    assert_eq!(cpu.regfile.get_8reg(A), 0x31);
    assert_eq!(cpu.execute(0x1A, &[], 0), 8);
    assert_eq!(cpu.regfile.get_8reg(A), 0x32);
}

#[test]
fn auto_indexing_through_hl() {
    let mut cpu = SharpCpu::default();
    cpu.regfile.set_16reg(HL, 0xC000);
    cpu.regfile.set_8reg(A, 7);
    assert_eq!(cpu.execute(0x22, &[], 0), 8);
    assert_eq!(cpu.memory.read(0xC000), 7);
    assert_eq!(cpu.regfile.get_16reg(HL), 0xC001);
    cpu.memory.write(0xC001, 9);
    assert_eq!(cpu.execute(0x3A, &[], 0), 8);
    assert_eq!(cpu.regfile.get_8reg(A), 9);
    assert_eq!(cpu.regfile.get_16reg(HL), 0xC000);
    cpu.regfile.set_8reg(A, 5);
    assert_eq!(cpu.execute(0x32, &[], 0), 8);
    assert_eq!(cpu.memory.read(0xC000), 5);
    assert_eq!(cpu.regfile.get_16reg(HL), 0xBFFF);
    cpu.memory.write(0xBFFF, 4);
    assert_eq!(cpu.execute(0x2A, &[], 0), 8);
    assert_eq!(cpu.regfile.get_8reg(A), 4);
    assert_eq!(cpu.regfile.get_16reg(HL), 0xC000);
}

#[test]
fn stack_relative_load_and_transfer() {
    let mut cpu = SharpCpu::default();
    cpu.regfile.set_16reg(SP, 0xFFF8);
    assert_eq!(cpu.execute(0xF8, &[0x08], 1), 12);
    assert_eq!(cpu.regfile.get_16reg(HL), 0x0000);
    assert!(!cpu.regfile.get_flag(ZERO_F));
    assert!(!cpu.regfile.get_flag(NEGATIVE_F));
    assert!(cpu.regfile.get_flag(HALF_CARRY_F));
    assert!(cpu.regfile.get_flag(CARRY_F));
    cpu.regfile.set_16reg(SP, 0x1000);
    assert_eq!(cpu.execute(0xF8, &[0xFE], 1), 12);
    assert_eq!(cpu.regfile.get_16reg(HL), 0x0FFE);
    assert!(!cpu.regfile.get_flag(HALF_CARRY_F));
    assert!(!cpu.regfile.get_flag(CARRY_F));
    assert_eq!(cpu.execute(0xF9, &[], 0), 8);
    assert_eq!(cpu.regfile.get_16reg(SP), 0x0FFE);
}

#[test]
fn unmodeled_opcodes_do_nothing() {
    let mut cpu = SharpCpu::default();
    cpu.regfile.set_16reg(HL, 0xC000);
    let before = snapshot(&cpu);
    for op in [0xC3u8, 0x76, 0xCB, 0x41] {
        assert_eq!(cpu.execute(op, &[0, 0], 2), 0);
        assert_eq!(snapshot(&cpu), before);
    }
}

#[test]
fn fetch_then_decode() {
    let mut cpu = SharpCpu::default();
    cpu.memory.write(0x0000, 0x3E);
    assert_eq!(cpu.fetch(), 0x3E);
    assert_eq!(cpu.regfile.get_16reg(PC), 0x0001);
    assert_eq!(cpu.decode(), (0x3E, 1));
    assert_eq!(SharpCpu::immediate_count(0xFA), 2);
    assert_eq!(SharpCpu::immediate_count(0x80), 0);
}

#[test]
fn step_runs_a_program() {
    let mut cpu = SharpCpu::default();
    let program = [0x06u8, 0x42, 0x01, 0x34, 0x12, 0x00];
    for (i, &b) in program.iter().enumerate() {
        cpu.memory.write(i as u16, b);
    }
    assert_eq!(cpu.step(), 4);
    assert_eq!(cpu.regfile.get_8reg(B), 0x42);
    assert_eq!(cpu.regfile.get_16reg(PC), 2);
    assert_eq!(cpu.step(), 12);
    assert_eq!(cpu.regfile.get_16reg(BC), 0x1234);
    assert_eq!(cpu.regfile.get_16reg(PC), 5);
    assert_eq!(cpu.step(), 0);
    assert_eq!(cpu.regfile.get_16reg(PC), 6);
}
