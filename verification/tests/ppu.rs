use gameboy::gb::bus::Bus;
use gameboy::gb::mmu::Mmu;
use gameboy::gb::ppu::register::{LCDStatus, Register};
use gameboy::gb::ppu::Mode;
use gameboy::gb::ram::Ram;

const REGISTERS: [(Register, u16); 12] = [
    (Register::LCDC, 0xFF40),
    (Register::STAT, 0xFF41),
    (Register::SCY, 0xFF42),
    (Register::SCX, 0xFF43),
    (Register::LY, 0xFF44),
    (Register::LYC, 0xFF45),
    (Register::DMA, 0xFF46),
    (Register::BGP, 0xFF47),
    (Register::OBP0, 0xFF48),
    (Register::OBP1, 0xFF49),
    (Register::WY, 0xFF4A),
    (Register::WX, 0xFF4B),
];

const MODES: [(Mode, u8); 4] =
    [(Mode::HBlank, 0), (Mode::VBlank, 1), (Mode::OAMRead, 2), (Mode::VRAMRead, 3)];

#[test]
fn registers_have_their_addresses() {
    for (r, addr) in REGISTERS {
        assert_eq!(r.address(), addr);
    }
}

#[test]
fn register_write_goes_to_its_address() {
    for (i, (r, addr)) in REGISTERS.iter().enumerate() {
        let mut ram = Ram::new(vec![0x00; 1 << 16]);
        r.write(&mut ram, 0x40 + i as u8);
        let bytes = ram.dump();
        assert_eq!(bytes[*addr as usize], 0x40 + i as u8);
        assert_eq!(bytes.iter().filter(|b| **b != 0).count(), 1);
    }
}

#[test]
fn register_read_comes_from_its_address() {
    let mut ram = Ram::new(vec![0x00; 1 << 16]);
    for (i, (_, addr)) in REGISTERS.iter().enumerate() {
        ram.write8(*addr, 0x10 + i as u8);
    }
    for (i, (r, _)) in REGISTERS.iter().enumerate() {
        assert_eq!(r.read(&mut ram), 0x10 + i as u8);
    }
}

#[test]
fn register_read_changes_nothing() {
    let mut ram = Ram::new(vec![0x00; 1 << 16]);
    ram.write8(0xFF41, 0x85);
    let before = ram.dump();
    assert_eq!(Register::STAT.read(&mut ram), 0x85);
    assert_eq!(ram.dump(), before);
}

#[test]
fn registers_work_through_the_mmu() {
    let mut mmu = Mmu::new();
    mmu.simulate_bootloader();
    assert_eq!(Register::LCDC.read(&mut mmu), 0x91);
    assert_eq!(Register::BGP.read(&mut mmu), 0xFC);
    assert_eq!(Register::OBP0.read(&mut mmu), 0xFF);
    assert_eq!(Register::LY.read(&mut mmu), 0x00);
    Register::LY.write(&mut mmu, 0x90);
    assert_eq!(mmu.read8(0xFF44), 0x90);
    assert_eq!(Register::LY.read(&mut mmu), 0x90);
}

#[test]
fn status_keeps_its_byte() {
    for v in 0..=255u8 {
        assert_eq!(LCDStatus::new(v).raw(), v);
    }
}

#[test]
fn status_mode_is_bits_one_and_zero() {
    assert!(LCDStatus::new(0b0000_0000).mode() == Mode::HBlank);
    assert!(LCDStatus::new(0b0000_0001).mode() == Mode::VBlank);
    assert!(LCDStatus::new(0b0000_0010).mode() == Mode::OAMRead);
    assert!(LCDStatus::new(0b0000_0011).mode() == Mode::VRAMRead);
    assert!(LCDStatus::new(0b1111_1100).mode() == Mode::HBlank);
    assert!(LCDStatus::new(0b1111_1101).mode() == Mode::VBlank);
    assert!(LCDStatus::new(0b1111_1110).mode() == Mode::OAMRead);
    assert!(LCDStatus::new(0b1111_1111).mode() == Mode::VRAMRead);
}

#[test]
fn status_mode_of_every_byte() {
    for v in 0..=255u8 {
        let expected = MODES[(v % 4) as usize].0;
        assert!(LCDStatus::new(v).mode() == expected);
    }
}

#[test]
fn set_mode_then_mode_gives_the_mode() {
    for v in 0..=255u8 {
        for (mode, bits) in MODES {
            let mut stat = LCDStatus::new(v);
            stat.set_mode(mode);
            assert!(stat.mode() == mode);
            assert_eq!(stat.raw(), (v & 0xFC) | bits);
        }
    }
}

#[test]
fn set_mode_exact_bytes() {
    let mut stat = LCDStatus::new(0b1010_0111);
    stat.set_mode(Mode::HBlank);
    assert_eq!(stat.raw(), 0b1010_0100);
    stat.set_mode(Mode::VRAMRead);
    assert_eq!(stat.raw(), 0b1010_0111);
    stat.set_mode(Mode::VBlank);
    assert_eq!(stat.raw(), 0b1010_0101);
    stat.set_mode(Mode::OAMRead);
    assert_eq!(stat.raw(), 0b1010_0110);
}

#[test]
fn set_lyc_coincidence_sets_bit_two() {
    for v in 0..=255u8 {
        let mut stat = LCDStatus::new(v);
        stat.set_lyc_coincidence(true);
        assert_eq!(stat.raw(), v | 0b0000_0100);
        let mut stat = LCDStatus::new(v);
        stat.set_lyc_coincidence(false);
        assert_eq!(stat.raw(), v & 0b1111_1011);
    }
}

#[test]
fn set_lyc_coincidence_exact_bytes() {
    let mut stat = LCDStatus::new(0b0000_0000);
    stat.set_lyc_coincidence(true);
    assert_eq!(stat.raw(), 0b0000_0100);
    stat.set_lyc_coincidence(true);
    assert_eq!(stat.raw(), 0b0000_0100);
    stat.set_lyc_coincidence(false);
    assert_eq!(stat.raw(), 0b0000_0000);
    let mut stat = LCDStatus::new(0b1111_1111);
    stat.set_lyc_coincidence(false);
    assert_eq!(stat.raw(), 0b1111_1011);
}

#[test]
fn interrupt_enables_are_bits_three_to_six() {
    let none = LCDStatus::new(0b1000_0111);
    assert!(!none.is_hblank_interrupt_enabled());
    assert!(!none.is_vblank_interrupt_enabled());
    assert!(!none.is_oam_interrupt_enabled());
    assert!(!none.is_lyc_coincidence_interrupt_enabled());

    let hblank = LCDStatus::new(0b0000_1000);
    assert!(hblank.is_hblank_interrupt_enabled());
    assert!(!hblank.is_vblank_interrupt_enabled());
    assert!(!hblank.is_oam_interrupt_enabled());
    assert!(!hblank.is_lyc_coincidence_interrupt_enabled());

    let vblank = LCDStatus::new(0b0001_0000);
    assert!(!vblank.is_hblank_interrupt_enabled());
    assert!(vblank.is_vblank_interrupt_enabled());
    assert!(!vblank.is_oam_interrupt_enabled());
    assert!(!vblank.is_lyc_coincidence_interrupt_enabled());

    let oam = LCDStatus::new(0b0010_0000);
    assert!(!oam.is_hblank_interrupt_enabled());
    assert!(!oam.is_vblank_interrupt_enabled());
    assert!(oam.is_oam_interrupt_enabled());
    assert!(!oam.is_lyc_coincidence_interrupt_enabled());

    let lyc = LCDStatus::new(0b0100_0000);
    assert!(!lyc.is_hblank_interrupt_enabled());
    assert!(!lyc.is_vblank_interrupt_enabled());
    assert!(!lyc.is_oam_interrupt_enabled());
    assert!(lyc.is_lyc_coincidence_interrupt_enabled());

    let all = LCDStatus::new(0b0111_1000);
    assert!(all.is_hblank_interrupt_enabled());
    assert!(all.is_vblank_interrupt_enabled());
    assert!(all.is_oam_interrupt_enabled());
    assert!(all.is_lyc_coincidence_interrupt_enabled());
}

#[test]
fn setters_keep_the_interrupt_enables() {
    for v in 0..=255u8 {
        let mut stat = LCDStatus::new(v);
        stat.set_mode(Mode::OAMRead);
        stat.set_lyc_coincidence(v % 2 == 0);
        assert_eq!(stat.raw() & 0b1111_1000, v & 0b1111_1000);
        assert_eq!(stat.is_hblank_interrupt_enabled(), v & 0x08 != 0);
        assert_eq!(stat.is_vblank_interrupt_enabled(), v & 0x10 != 0);
        assert_eq!(stat.is_oam_interrupt_enabled(), v & 0x20 != 0);
        assert_eq!(stat.is_lyc_coincidence_interrupt_enabled(), v & 0x40 != 0);
    }
}

#[test]
fn status_round_trips_through_the_bus() {
    let mut mmu = Mmu::new();
    let mut stat = LCDStatus::new(0b0100_1000);
    stat.set_mode(Mode::VBlank);
    stat.set_lyc_coincidence(true);
    Register::STAT.write(&mut mmu, stat.raw());
    let back = LCDStatus::new(Register::STAT.read(&mut mmu));
    assert_eq!(back.raw(), 0b0100_1101);
    assert!(back.mode() == Mode::VBlank);
    assert!(back.is_hblank_interrupt_enabled());
    assert!(back.is_lyc_coincidence_interrupt_enabled());
}
