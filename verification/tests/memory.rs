//! The memory bus: single cells, runs, reset and images.

use emu6502::memory::{MemoryError, ADDRESS_HIGH, ADDRESS_LOW, MEMORY, MEMORY_RANGE};

#[test]
fn new_memory_is_zero_everywhere() {
    let memory = MEMORY::new();
    assert_eq!(memory.data.len(), MEMORY_RANGE);
    assert!(memory.data.iter().all(|&cell| cell == 0));
    assert_eq!(memory.get_byte(ADDRESS_LOW), 0);
    assert_eq!(memory.get_byte(ADDRESS_HIGH), 0);
}

#[test]
fn default_memory_is_zero_everywhere() {
    let memory = MEMORY::default();
    assert!(memory.data.iter().all(|&cell| cell == 0));
}

#[test]
fn set_byte_then_get_byte_reads_it_back() {
    let mut memory = MEMORY::new();
    for &(address, value) in &[(0x0000u16, 0x01u8), (0x00FF, 0x7F), (0x0100, 0x80), (0xFFFF, 0xFF)] {
        memory.set_byte(address, value);
        assert_eq!(memory.get_byte(address), value);
    }
}

#[test]
fn set_byte_leaves_other_cells_alone() {
    let mut memory = MEMORY::new();
    memory.set_byte(0x1233, 0x11);
    memory.set_byte(0x1235, 0x33);
    memory.set_byte(0x1234, 0x22);
    assert_eq!(memory.get_byte(0x1233), 0x11);
    assert_eq!(memory.get_byte(0x1234), 0x22);
    assert_eq!(memory.get_byte(0x1235), 0x33);
    assert_eq!(memory.data.iter().filter(|&&cell| cell != 0).count(), 3);
}

#[test]
fn set_byte_overwrites() {
    let mut memory = MEMORY::new();
    memory.set_byte(0x4000, 0xAA);
    memory.set_byte(0x4000, 0x55);
    assert_eq!(memory.get_byte(0x4000), 0x55);
}

#[test]
fn set_bytes_writes_a_run() {
    let mut memory = MEMORY::new();
    memory.set_byte(0x0FFF, 0xEE);
    memory.set_byte(0x1003, 0xEE);
    assert_eq!(memory.set_bytes(0x1000, &[0x10, 0x20, 0x30]), Ok(()));
    assert_eq!(memory.get_byte(0x0FFF), 0xEE);
    assert_eq!(memory.get_byte(0x1000), 0x10);
    assert_eq!(memory.get_byte(0x1001), 0x20);
    assert_eq!(memory.get_byte(0x1002), 0x30);
    assert_eq!(memory.get_byte(0x1003), 0xEE);
}

#[test]
fn set_bytes_accepts_an_empty_run() {
    let mut memory = MEMORY::new();
    memory.set_byte(0xFFFF, 0x77);
    assert_eq!(memory.set_bytes(0xFFFF, &[]), Ok(()));
    assert_eq!(memory.get_byte(0xFFFF), 0x77);
}

#[test]
fn set_bytes_may_end_at_the_last_cell() {
    let mut memory = MEMORY::new();
    assert_eq!(memory.set_bytes(0xFFFE, &[0xAB, 0xCD]), Ok(()));
    assert_eq!(memory.get_byte(0xFFFE), 0xAB);
    assert_eq!(memory.get_byte(0xFFFF), 0xCD);
}

#[test]
fn set_bytes_may_fill_the_whole_memory() {
    let mut memory = MEMORY::new();
    let run = vec![0x5A; 65536];
    assert_eq!(memory.set_bytes(0x0000, &run), Ok(()));
    assert!(memory.data.iter().all(|&cell| cell == 0x5A));
}

#[test]
fn set_bytes_refuses_a_run_past_the_end() {
    let mut memory = MEMORY::new();
    memory.set_byte(0xFFFF, 0x77);
    assert_eq!(
        memory.set_bytes(0xFFFF, &[0x01, 0x02]),
        Err(MemoryError::OutOfRange { start: 0xFFFF, len: 2 })
    );
    assert_eq!(memory.get_byte(0xFFFF), 0x77);
    assert_eq!(memory.get_byte(0x0000), 0x00);
}

#[test]
fn set_bytes_refuses_a_run_longer_than_the_memory() {
    let mut memory = MEMORY::new();
    let run = vec![0xFF; 65537];
    assert_eq!(
        memory.set_bytes(0x0000, &run),
        Err(MemoryError::OutOfRange { start: 0, len: 65537 })
    );
    assert!(memory.data.iter().all(|&cell| cell == 0));
}

#[test]
fn reset_zeroes_every_cell() {
    let mut memory = MEMORY::new();
    memory.set_byte(0x0000, 0x01);
    memory.set_byte(0x8000, 0x02);
    memory.set_byte(0xFFFF, 0x03);
    memory.reset();
    assert!(memory.data.iter().all(|&cell| cell == 0));
}

#[test]
fn reset_twice_is_reset_once() {
    let mut once = MEMORY::new();
    once.set_byte(0x1234, 0x56);
    once.reset();
    let mut twice = MEMORY::new();
    twice.set_byte(0x1234, 0x56);
    twice.reset();
    twice.reset();
    assert_eq!(once.data, twice.data);
}

#[test]
fn save_gives_the_raw_image() {
    let mut memory = MEMORY::new();
    memory.set_byte(0x0000, 0x11);
    memory.set_byte(0x0001, 0x22);
    memory.set_byte(0xFFFF, 0x33);
    let image = memory.save();
    assert_eq!(image.len(), 65536);
    assert_eq!(image[0], 0x11);
    assert_eq!(image[1], 0x22);
    assert_eq!(image[2], 0x00);
    assert_eq!(image[65535], 0x33);
    assert_eq!(&image[..], &memory.data[..]);
}

#[test]
fn saved_image_loads_into_a_fresh_memory_unchanged() {
    let mut memory = MEMORY::new();
    let bytes = [
        0x11, 0x22, 0x33, 0x44, 0x55, 0x66, 0x77, 0x88, 0x99, 0xAA, 0xBB, 0xCC, 0xDD, 0xEE, 0xFF,
    ];
    for (offset, &byte) in bytes.iter().enumerate() {
        memory.data[offset] = byte;
    }
    memory.data[0xFFFF] = 0x42;
    let image = memory.save();

    let mut memory2 = MEMORY::new();
    assert_eq!(memory2.load(&image), Ok(()));
    assert_eq!(memory.data, memory2.data);
}

#[test]
fn load_replaces_all_former_contents() {
    let mut memory = MEMORY::new();
    memory.set_byte(0x2000, 0x99);
    let image = vec![0x00; 65536];
    assert_eq!(memory.load(&image), Ok(()));
    assert_eq!(memory.get_byte(0x2000), 0x00);
}

#[test]
fn load_refuses_a_truncated_image() {
    let mut memory = MEMORY::new();
    memory.set_byte(0x0000, 0x99);
    let image = vec![0xFF; 65535];
    assert_eq!(memory.load(&image), Err(MemoryError::TruncatedImage { len: 65535 }));
    assert_eq!(memory.get_byte(0x0000), 0x99);
    assert_eq!(memory.get_byte(0x0001), 0x00);
}

#[test]
fn load_refuses_an_empty_image() {
    let mut memory = MEMORY::new();
    assert_eq!(memory.load(&[]), Err(MemoryError::TruncatedImage { len: 0 }));
}

#[test]
fn load_reads_only_the_first_65536_bytes() {
    let mut image = vec![0x01; 65536];
    image.push(0xFF);
    image.push(0xFF);
    let mut memory = MEMORY::new();
    assert_eq!(memory.load(&image), Ok(()));
    assert!(memory.data.iter().all(|&cell| cell == 0x01));
}
