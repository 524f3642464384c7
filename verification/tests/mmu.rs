use gameboy::gb::bus::Bus;
use gameboy::gb::cartridge::Cartridge;
use gameboy::gb::mmu::Mmu;

fn marked_cartridge() -> Cartridge {
    let mut image = vec![0x00u8; 1 << 15];
    image[0x0000] = 0xC3;
    image[0x0100] = 0x31;
    image[0x7FFF] = 0x7F;
    Cartridge::new(image)
}

#[test]
fn new_mmu_reads_zero_everywhere() {
    let mmu = Mmu::new();
    for addr in [0x0000u16, 0x7FFF, 0x8000, 0xA000, 0xBFFF, 0xC000, 0xE000, 0xFDFF, 0xFE00, 0xFFFF]
    {
        assert_eq!(mmu.read8(addr), 0x00);
    }
    let bytes = mmu.dump();
    assert_eq!(bytes.len(), 65536);
    assert!(bytes.iter().all(|b| *b == 0));
}

#[test]
fn echo_reads_work_ram() {
    let mut mmu = Mmu::new();
    mmu.write8(0xC123, 0xAB);
    assert_eq!(mmu.read8(0xE123), 0xAB);
    assert_eq!(mmu.read8(0xC123), 0xAB);
}

#[test]
fn echo_writes_work_ram() {
    let mut mmu = Mmu::new();
    mmu.write8(0xE123, 0xCD);
    assert_eq!(mmu.read8(0xC123), 0xCD);
    assert_eq!(mmu.read8(0xE123), 0xCD);
    let bytes = mmu.dump();
    assert_eq!(bytes[0xC123], 0xCD);
    assert_eq!(bytes[0xE123], 0x00);
}

#[test]
fn echo_equals_work_ram_after_any_write() {
    let mut mmu = Mmu::new();
    let writes: [(u16, u8); 8] = [
        (0xC000, 0x01),
        (0xE000, 0x02),
        (0xDDFF, 0x03),
        (0xFDFF, 0x04),
        (0xD000, 0x05),
        (0xF000, 0x06),
        (0x8000, 0x07),
        (0xFFFF, 0x08),
    ];
    for (addr, v) in writes {
        mmu.write8(addr, v);
        for a in [0xE000u16, 0xE123, 0xF000, 0xFDFF] {
            assert_eq!(mmu.read8(a), mmu.read8(a - 0x2000));
        }
    }
    assert_eq!(mmu.read8(0xC000), 0x02);
    assert_eq!(mmu.read8(0xDDFF), 0x04);
    assert_eq!(mmu.read8(0xD000), 0x06);
}

#[test]
fn echo_ends_at_fdff() {
    let mut mmu = Mmu::new();
    mmu.write8(0xFDFF, 0x11);
    assert_eq!(mmu.read8(0xDDFF), 0x11);
    mmu.write8(0xFE00, 0x22);
    assert_eq!(mmu.read8(0xDE00), 0x00);
    assert_eq!(mmu.read8(0xFE00), 0x22);
    mmu.write8(0xDE00, 0x33);
    assert_eq!(mmu.read8(0xFE00), 0x22);
    mmu.write8(0xDFFF, 0x44);
    assert_eq!(mmu.read8(0xDFFF), 0x44);
    assert_eq!(mmu.read8(0xFFFF), 0x00);
}

#[test]
fn rom_window_reads_the_cartridge() {
    let mut mmu = Mmu::new();
    mmu.load_cartridge(marked_cartridge());
    assert_eq!(mmu.read8(0x0000), 0xC3);
    assert_eq!(mmu.read8(0x0100), 0x31);
    assert_eq!(mmu.read8(0x7FFF), 0x7F);
    assert_eq!(mmu.read8(0x0001), 0x00);
    assert_eq!(mmu.read16(0x00FF), 0x3100);
}

#[test]
fn rom_window_takes_no_writes() {
    let mut mmu = Mmu::new();
    mmu.load_cartridge(marked_cartridge());
    mmu.write8(0x0000, 0xFF);
    mmu.write8(0x4000, 0xFF);
    assert_eq!(mmu.read8(0x0000), 0xC3);
    assert_eq!(mmu.read8(0x4000), 0x00);
    assert!(mmu.dump().iter().all(|b| *b == 0));
}

#[test]
fn external_ram_window_goes_to_the_cartridge() {
    let mut mmu = Mmu::new();
    mmu.write8(0xA000, 0x12);
    mmu.write8(0xBFFF, 0x34);
    assert_eq!(mmu.read8(0xA000), 0x12);
    assert_eq!(mmu.read8(0xBFFF), 0x34);
    let bytes = mmu.dump();
    assert_eq!(bytes[0xA000], 0x00);
    assert_eq!(bytes[0xBFFF], 0x00);
    mmu.load_cartridge(marked_cartridge());
    assert_eq!(mmu.read8(0xA000), 0x00);
    assert_eq!(mmu.read8(0xBFFF), 0x00);
}

#[test]
fn ram_regions_go_to_the_array() {
    let mut mmu = Mmu::new();
    let cells: [(u16, u8); 6] = [
        (0x8000, 0x01),
        (0x9FFF, 0x02),
        (0xC000, 0x03),
        (0xDFFF, 0x04),
        (0xFE00, 0x05),
        (0xFFFF, 0x06),
    ];
    for (addr, v) in cells {
        mmu.write8(addr, v);
    }
    let bytes = mmu.dump();
    for (addr, v) in cells {
        assert_eq!(mmu.read8(addr), v);
        assert_eq!(bytes[addr as usize], v);
    }
}

#[test]
fn load_cartridge_keeps_the_ram() {
    let mut mmu = Mmu::new();
    mmu.write8(0xC000, 0x77);
    mmu.load_cartridge(marked_cartridge());
    assert_eq!(mmu.read8(0xC000), 0x77);
    assert_eq!(mmu.read8(0x0000), 0xC3);
}

#[test]
fn mmu_words_are_little_endian() {
    let mut mmu = Mmu::new();
    mmu.write16(0xC000, 0x1234);
    assert_eq!(mmu.read8(0xC000), 0x34);
    assert_eq!(mmu.read8(0xC001), 0x12);
    assert_eq!(mmu.read16(0xC000), 0x1234);
    assert_eq!(mmu.read16(0xE000), 0x1234);
}

#[test]
fn mmu_word_written_is_word_read_outside_the_rom() {
    for addr in
        [0x8000u16, 0x9FFE, 0x9FFF, 0xA000, 0xBFFF, 0xC000, 0xDFFF, 0xE000, 0xFDFF, 0xFE00, 0xFFFE]
    {
        for v in [0x0000u16, 0x00FF, 0xFF00, 0xBEEF, 0xFFFF] {
            let mut mmu = Mmu::new();
            mmu.write16(addr, v);
            assert_eq!(mmu.read16(addr), v);
        }
    }
}

#[test]
fn mmu_word_at_the_last_address_loses_its_high_byte_to_the_rom() {
    let mut mmu = Mmu::new();
    mmu.load_cartridge(marked_cartridge());
    mmu.write16(0xFFFF, 0xABCD);
    assert_eq!(mmu.read8(0xFFFF), 0xCD);
    assert_eq!(mmu.read8(0x0000), 0xC3);
    assert_eq!(mmu.read16(0xFFFF), 0xC3CD);
}

#[test]
fn mmu_word_across_the_echo_border() {
    let mut mmu = Mmu::new();
    mmu.write16(0xDFFF, 0xA1B2);
    assert_eq!(mmu.read8(0xDFFF), 0xB2);
    assert_eq!(mmu.read8(0xC000), 0xA1);
    assert_eq!(mmu.read8(0xE000), 0xA1);
    mmu.write16(0xFDFF, 0xC3D4);
    assert_eq!(mmu.read8(0xDDFF), 0xD4);
    assert_eq!(mmu.read8(0xFE00), 0xC3);
}

#[test]
fn load_writes_the_bytes_in_a_row() {
    let mut mmu = Mmu::new();
    mmu.load(0xC100, vec![0x01, 0x02, 0x03, 0x04]);
    assert_eq!(mmu.read8(0xC100), 0x01);
    assert_eq!(mmu.read8(0xC101), 0x02);
    assert_eq!(mmu.read8(0xC102), 0x03);
    assert_eq!(mmu.read8(0xC103), 0x04);
    assert_eq!(mmu.read8(0xC104), 0x00);
    assert_eq!(mmu.read8(0xC0FF), 0x00);
}

#[test]
fn load_of_nothing_changes_nothing() {
    let mut mmu = Mmu::new();
    mmu.write8(0xC000, 0x55);
    mmu.load(0xC000, vec![]);
    assert_eq!(mmu.read8(0xC000), 0x55);
}

#[test]
fn load_wraps_at_the_last_address() {
    let mut mmu = Mmu::new();
    mmu.load_cartridge(marked_cartridge());
    mmu.load(0xFFFE, vec![0x0A, 0x0B, 0x0C]);
    assert_eq!(mmu.read8(0xFFFE), 0x0A);
    assert_eq!(mmu.read8(0xFFFF), 0x0B);
    assert_eq!(mmu.read8(0x0000), 0xC3);
}

#[test]
fn load_goes_through_the_bus() {
    let mut mmu = Mmu::new();
    mmu.load(0x9FFF, vec![0x01, 0x02]);
    assert_eq!(mmu.read8(0x9FFF), 0x01);
    assert_eq!(mmu.read8(0xA000), 0x02);
    assert_eq!(mmu.dump()[0xA000], 0x00);
    mmu.load(0xE000, vec![0x03]);
    assert_eq!(mmu.read8(0xC000), 0x03);
}

#[test]
fn load_of_the_same_cell_twice_keeps_the_later_byte() {
    let mut mmu = Mmu::new();
    let mut data = vec![0x11u8; 1 << 16];
    data.push(0x22);
    mmu.load(0xC000, data);
    assert_eq!(mmu.read8(0xC000), 0x22);
    assert_eq!(mmu.read8(0xC001), 0x11);
}

#[test]
fn boot_leaves_the_hardware_defaults() {
    let mut mmu = Mmu::new();
    mmu.simulate_bootloader();
    assert_eq!(mmu.read8(0xFF40), 0x91);
    assert_eq!(mmu.read8(0xFF47), 0xFC);
    assert_eq!(mmu.read8(0xFF50), 0x01);
}

#[test]
fn boot_leaves_every_byte_of_the_table() {
    let table: [(u16, u8); 32] = [
        (0xFF05, 0x00),
        (0xFF06, 0x00),
        (0xFF07, 0x00),
        (0xFF10, 0x80),
        (0xFF11, 0xBF),
        (0xFF12, 0xF3),
        (0xFF14, 0xBF),
        (0xFF16, 0x3F),
        (0xFF17, 0x00),
        (0xFF19, 0xBF),
        (0xFF1A, 0x7F),
        (0xFF1B, 0xFF),
        (0xFF1C, 0x9F),
        (0xFF1E, 0xBF),
        (0xFF20, 0xFF),
        (0xFF21, 0x00),
        (0xFF22, 0x00),
        (0xFF23, 0xBF),
        (0xFF24, 0x77),
        (0xFF25, 0xF3),
        (0xFF26, 0xF1),
        (0xFF40, 0x91),
        (0xFF42, 0x00),
        (0xFF43, 0x00),
        (0xFF45, 0x00),
        (0xFF47, 0xFC),
        (0xFF48, 0xFF),
        (0xFF49, 0xFF),
        (0xFF4A, 0x00),
        (0xFF4B, 0x00),
        (0xFFFF, 0x00),
        (0xFF50, 0x01),
    ];
    let mut mmu = Mmu::new();
    mmu.simulate_bootloader();
    for (addr, v) in table {
        assert_eq!(mmu.read8(addr), v);
    }
    let bytes = mmu.dump();
    for (i, b) in bytes.iter().enumerate() {
        let listed = table.iter().find(|(addr, _)| *addr as usize == i);
        match listed {
            Some((_, v)) => assert_eq!(b, v),
            None => assert_eq!(*b, 0x00),
        }
    }
}

#[test]
fn boot_zeroes_the_ram_first() {
    let mut mmu = Mmu::new();
    mmu.write8(0xC000, 0x99);
    mmu.write8(0xFF44, 0x90);
    mmu.write8(0xFF40, 0x00);
    mmu.simulate_bootloader();
    assert_eq!(mmu.read8(0xC000), 0x00);
    assert_eq!(mmu.read8(0xFF44), 0x00);
    assert_eq!(mmu.read8(0xFF40), 0x91);
}

#[test]
fn boot_keeps_the_cartridge() {
    let mut mmu = Mmu::new();
    mmu.load_cartridge(marked_cartridge());
    mmu.write8(0xA000, 0x42);
    mmu.simulate_bootloader();
    assert_eq!(mmu.read8(0x0000), 0xC3);
    assert_eq!(mmu.read8(0xA000), 0x42);
}

#[test]
fn dump_is_the_ram_array() {
    let mut mmu = Mmu::new();
    mmu.write8(0x8000, 0x01);
    mmu.write8(0xE000, 0x02);
    mmu.write8(0x0000, 0x03);
    mmu.write8(0xA000, 0x04);
    let bytes = mmu.dump();
    assert_eq!(bytes.len(), 65536);
    assert_eq!(bytes[0x8000], 0x01);
    assert_eq!(bytes[0xC000], 0x02);
    assert_eq!(bytes.iter().filter(|b| **b != 0).count(), 2);
}
