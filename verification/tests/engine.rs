//! The engine, the stack and the memory bus, exercised instruction by
//! instruction.

use emu6502::address::{make_address, split_address, xextend};
use emu6502::cpu::CPU;
use emu6502::memory::MEMORY;

#[test]
fn test_cpu_jmp() {
    let mut cpu = CPU::new();
    let mut mem = MEMORY::new();

    mem.set_byte(0x0000, 0x4C);
    mem.set_byte(0x0001, 0xAA);
    mem.set_byte(0x0002, 0x55);

    cpu.execute(&mut mem);

    assert_eq!(cpu.prgmctr, 0xAA55);
}

#[test]
fn test_cpu_register_reset() {
    let mut cpu = CPU::new();
    cpu.x = 0x50;
    cpu.reset();
    assert_eq!(cpu.x, 0x00);
}
#[test]
fn test_cpu_status_reset() {
    let mut cpu = CPU::new();
    cpu.status.v = true;
    cpu.reset();
    assert_eq!(cpu.status.v, false);
}
#[test]
fn test_cpu_complete_reset() {
    let mut cpu = CPU::new();
    cpu.x = 0x50;
    cpu.reset();
    assert_eq!(cpu.x, 0x00);
    cpu.status.v = true;
    cpu.reset();
    assert_eq!(cpu.status.v, false);
}

#[test]
fn test_memory_reset() {
    let mut memory = MEMORY::new();
    memory.data[0] = 0x40;
    memory.reset();
    assert_eq!(memory.data[0], 0x00);
}
#[test]
fn test_mem_read_at_address() {
    let mut memory = MEMORY::new();
    memory.data[0] = 0x40;
    assert_eq!(memory.get_byte(0x0000), 0x40);
}
#[test]
fn test_mem_write_to_address() {
    let mut memory = MEMORY::new();
    memory.data[0] = 0x40;
    memory.set_byte(0x0000, 0x1A);
    assert_eq!(memory.data[0], 0x1A);
}

#[test]
fn test_mem_get_addr_from_bitwidth() {
    let mut memory = MEMORY::new();
    memory.data[1] = 0x10;
    assert_eq!(memory.get_byte(0x0001), 0x10);
    assert_eq!(memory.get_byte(0x01), 0x10);
    assert_eq!(memory.get_byte(0x1), 0x10);
    //assert_eq!(memory.data[0x0010], 0x10);
}

#[test]
fn test_fn_xextend_addr() {
    assert_eq!(xextend(0xAA), 0x00AA);
}

#[test]
fn test_cpu_lda_immediate() {
    let mut memory = MEMORY::new();
    let mut cpu = CPU::new();
    memory.data[0] = 0xA9;
    memory.data[1] = 0x11;
    cpu.execute(&mut memory);
    assert_eq!(cpu.acc, 0x11);
}
#[test]
fn test_cpu_lda_absolute() {
    let mut memory = MEMORY::new();
    let mut cpu = CPU::new();
    memory.data[0] = 0xAD;
    memory.data[1] = 0xFF;
    memory.data[2] = 0xFF;
    memory.data[0xFFFF] = 0x11;
    cpu.execute(&mut memory);
    assert_eq!(cpu.acc, 0x11);
}

#[test]
fn test_cpu_lda_absoluteX() {
    let mut memory = MEMORY::new();
    let mut cpu = CPU::new();
    cpu.x = 0x11;
    memory.data[0] = 0xBD;
    memory.data[1] = 0xAA;
    memory.data[2] = 0xAA;
    let offset = 0xAAAA + cpu.x as u16;
    memory.set_byte(offset, 0x11);

    cpu.execute(&mut memory);
    assert_eq!(memory.get_byte(offset), 0x11);
}

#[test]
fn test_cpu_lda_absoluteY() {
    let mut memory = MEMORY::new();
    let mut cpu = CPU::new();
    cpu.y = 0x11;
    memory.data[0] = 0xB9;
    memory.data[1] = 0xAA;
    memory.data[2] = 0xAA; //
    let offset = 0xAAAA + cpu.y as u16;
    memory.set_byte(offset, 0x11);

    cpu.execute(&mut memory);
    assert_eq!(memory.get_byte(offset), 0x11);
}

#[test]
fn test_cpu_lda_zeropage() {
    let mut memory = MEMORY::new();
    let mut cpu = CPU::new();
    memory.set_byte(0x00FF, 0x32);
    memory.data[0] = 0xA5;
    memory.data[1] = 0xFF;
    cpu.execute(&mut memory);
    assert_eq!(cpu.acc, 0x32);
}
#[test]
fn test_cpu_lda_zeropageX() {
    let mut memory = MEMORY::new();
    let mut cpu = CPU::new();
    memory.data[0] = 0xB5;
    memory.data[1] = 0x20;
    cpu.x = 0x11;
    memory.set_byte(0x0020 + cpu.x as u16, 0x33);
    cpu.execute(&mut memory);
    assert_eq!(cpu.acc, 0x33);
}

#[test]
fn test_cpu_lda_zeropage_indirectX() {
    // The pointer is the operand plus X, here 0x42. The address is read
    // from the pointer and its successor: 0x81 and 0x00, so 0x8100.

    let mut memory = MEMORY::new();
    let mut cpu = CPU::new();
    memory.set_byte(0x0000, 0xA1); // lda (zp, x)
    memory.set_byte(0x0001, 0x42); // operand1
    memory.set_byte(0x0042, 0x81); // operand1 byte
    memory.set_byte(0x0002, 0x16); // operand2
    memory.set_byte(0x0016, 0x08); // operand2 byte
    memory.set_byte(0x8108, 0x55);
    cpu.execute(&mut memory);
    assert_eq!(cpu.acc, 0x00);
    assert_eq!(cpu.prgmctr, 0x0002);
    cpu.execute(&mut memory);
    assert_eq!(cpu.prgmctr, 0x0002);
}

#[test]
fn test_cpu_lda_zeropageY() {
    let mut memory = MEMORY::new();
    let mut cpu = CPU::new();

    memory.set_byte(0x0000, 0xB1); // lda (zp), y
    memory.set_byte(0x0001, 0x42); // operand1
    memory.set_byte(0x0042, 0x81); // operand1 byte
    memory.set_byte(0x0002, 0x16); // operand2
    memory.set_byte(0x0016, 0x08); // operand2 byte
    memory.set_byte(0x8108, 0x55);

    cpu.execute(&mut memory);
    assert_eq!(cpu.acc, 0x00);
    assert_eq!(cpu.prgmctr, 0x0002);
    cpu.execute(&mut memory);
    assert_eq!(cpu.prgmctr, 0x0002);
}

#[test]
fn test_fn_make_address() {
    let operand1: u8 = 0xAA;
    let operand2: u8 = 0xFF;
    assert_eq!(make_address(operand1, operand2), 0xAAFF);
}

#[test]
fn test_fn_split_address() {
    let address: u16 = 0xFFAA;
    assert_eq!(split_address(address), (0xFF, 0xAA));
}

#[test]
fn test_cpu_pha() {
    let mut memory = MEMORY::new();
    let mut cpu = CPU::new();
    cpu.acc = 0x11;
    memory.set_byte(0x0000, 0x48);
    cpu.execute(&mut memory);
    assert_eq!(memory.get_byte(0x01FF), 0x11);
}
#[test]
fn test_util_push() {
    let mut memory = MEMORY::new();
    let mut cpu = CPU::new();
    cpu.push(&mut memory, 0xFF);
    assert_eq!(memory.get_byte(0x01FF), 0xFF);
}
#[test]
fn test_util_pull() {
    let mut memory = MEMORY::new();
    let mut cpu = CPU::new();
    cpu.push(&mut memory, 0xFF);
    let value: u8 = cpu.pull(&mut memory);
    assert_eq!(value, 0xFF);
}
#[test]
fn test_cpu_pla() {
    let mut memory = MEMORY::new();
    let mut cpu = CPU::new();

    cpu.push(&mut memory, 0x55);
    let value: u8 = cpu.pla(&mut memory);
    assert_eq!(value, cpu.acc);
}

#[test]
fn test_cpu_stack_descent() {
    let mut memory = MEMORY::new();
    let mut cpu = CPU::new();
    cpu.push(&mut memory, 0x55);
    assert_eq!(memory.get_byte(0x01FF), 0x55);

    cpu.push(&mut memory, 0x66);
    assert_eq!(memory.get_byte(0x01FE), 0x66);

    cpu.push(&mut memory, 0x77);
    assert_eq!(memory.get_byte(0x01FD), 0x77);

    cpu.push(&mut memory, 0x88);
    assert_eq!(memory.get_byte(0x01FC), 0x88);
}
#[test]
fn test_cpu_stack_ascent() {
    let mut memory = MEMORY::new();
    let mut cpu = CPU::new();
    cpu.push(&mut memory, 0x55);
    cpu.push(&mut memory, 0x66);
    cpu.push(&mut memory, 0x77);
    cpu.push(&mut memory, 0x88);

    assert_eq!(cpu.pull(&mut memory), 0x88);
    assert_eq!(cpu.pull(&mut memory), 0x77);
    assert_eq!(cpu.pull(&mut memory), 0x66);
    assert_eq!(cpu.pull(&mut memory), 0x55);
}

#[test]
fn test_cpu_tsx() {
    let mut memory = MEMORY::new();
    let mut cpu = CPU::new();
    cpu.stkptr = 0x55;
    memory.set_byte(0x0000, 0xBA);
    cpu.execute(&mut memory);
    assert_eq!(cpu.x, 0x55);
}

#[test]
fn test_cpu_prgm_counter() {
    let mut memory = MEMORY::new();
    let mut cpu = CPU::new();
    memory.set_byte(0x0000, 0xEA);
    cpu.execute(&mut memory);
    assert_eq!(cpu.prgmctr, 0x0001);
}
#[test]
fn test_status_register() {
    let mut cpu = CPU::new();

    cpu.status.n = true;
    cpu.status.c = true;

    let status: u8 = cpu.status.to_byte();
    assert_eq!(status, 0x81);
}

#[test]
fn test_cpu_php() {
    let mut memory = MEMORY::new();
    let mut cpu = CPU::new();
    memory.set_byte(0x0000, 0x08);
    memory.set_byte(0x0001, 0x81);
    cpu.execute(&mut memory);
    assert_eq!(cpu.status.n, false);
    assert_eq!(cpu.status.c, false);
    assert_eq!(memory.get_byte(0x01FF), 0x00);
    assert_eq!(cpu.stkptr, 0x01FE);
    assert_eq!(cpu.prgmctr, 0x0001);
}
#[test]
fn test_cpu_plp() {
    let mut memory = MEMORY::new();
    let mut cpu = CPU::new();
    cpu.status.n = true;
    cpu.status.c = true;
    memory.set_byte(0x0000, 0x28);
    cpu.execute(&mut memory);
    assert_eq!(cpu.status.to_byte(), 0x00);
    assert_eq!(cpu.stkptr, 0x0100);
    assert_eq!(cpu.prgmctr, 0x0001);
}

#[test]
fn test_cpu_tax() {
    let mut memory = MEMORY::new();
    let mut cpu = CPU::new();
    cpu.acc = 0x55;
    memory.set_byte(0x0000, 0xAA);
    cpu.execute(&mut memory);
    assert_eq!(cpu.x, 0x55);
}
#[test]
fn test_cpu_txa() {
    let mut memory = MEMORY::new();
    let mut cpu = CPU::new();
    cpu.x = 0x55;
    memory.set_byte(0x0000, 0x8A);
    cpu.execute(&mut memory);
    assert_eq!(cpu.acc, 0x55);
}
#[test]
fn test_cpu_tay() {
    let mut memory = MEMORY::new();
    let mut cpu = CPU::new();
    cpu.acc = 0x55;
    memory.set_byte(0x0000, 0xA8);
    cpu.execute(&mut memory);
    assert_eq!(cpu.y, 0x55);
}
#[test]
fn test_cpu_tya() {
    let mut memory = MEMORY::new();
    let mut cpu = CPU::new();
    cpu.y = 0x55;
    memory.set_byte(0x0000, 0x98);
    cpu.execute(&mut memory);
    assert_eq!(cpu.acc, 0x55);
}
#[test]
fn test_cpu_inx() {
    let mut memory = MEMORY::new();
    let mut cpu = CPU::new();
    cpu.x = 0x55;
    memory.set_byte(0x0000, 0xE8);
    cpu.execute(&mut memory);
    assert_eq!(cpu.x, 0x56);
}
#[test]
fn test_cpu_iny() {
    let mut memory = MEMORY::new();
    let mut cpu = CPU::new();
    cpu.y = 0x55;
    memory.set_byte(0x0000, 0xC8);
    cpu.execute(&mut memory);
    assert_eq!(cpu.y, 0x56);
}
#[test]
fn test_cpu_dex() {
    let mut memory = MEMORY::new();
    let mut cpu = CPU::new();
    cpu.x = 0x55;
    memory.set_byte(0x0000, 0xCA);
    cpu.execute(&mut memory);
    assert_eq!(cpu.x, 0x54);
}
#[test]
fn test_cpu_dey() {
    let mut memory = MEMORY::new();
    let mut cpu = CPU::new();
    cpu.y = 0x55;
    memory.set_byte(0x0000, 0x88);
    cpu.execute(&mut memory);
    assert_eq!(cpu.y, 0x54);
}

// test the cpu so it resets the stack pointer
#[test]
fn test_cpu_brk() {
    let mut memory = MEMORY::new();
    let mut cpu = CPU::new();
    memory.set_byte(0x0000, 0x00);
    cpu.execute(&mut memory);
    assert_eq!(cpu.prgmctr, 0x01);
}
#[test]
fn test_cpu_stx() {
    let mut memory = MEMORY::new();
    let mut cpu = CPU::new();

    memory.set_byte(0x0000, 0x86);
    cpu.x = 0xAA;
    cpu.execute(&mut memory);

    assert_eq!(memory.get_byte(0x0000), 0xAA);
}

#[test]
fn test_cpu_sty() {
    let mut memory = MEMORY::new();
    let mut cpu = CPU::new();

    memory.set_byte(0x0000, 0x84);
    cpu.y = 0xFF;
    cpu.execute(&mut memory);

    assert_eq!(memory.get_byte(0x0000), 0xFF);
}

#[test]
fn test_cpu_sta() {
    let mut memory = MEMORY::new();
    let mut cpu = CPU::new();
    memory.set_byte(0x0000, 0x85);
    cpu.acc = 0x14;
    cpu.execute(&mut memory);
    assert_eq!(memory.get_byte(0x0000), 0x14);
}
