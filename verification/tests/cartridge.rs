use gameboy::gb::cartridge::{Cartridge, EXTERNAL_RAM_BASE, EXTERNAL_RAM_SIZE, ROM_SIZE};

fn counting_image(len: usize) -> Vec<u8> {
    let mut image = Vec::new();
    for i in 0..len {
        image.push((i % 251) as u8);
    }
    image
}

#[test]
fn cartridge_windows_have_their_sizes() {
    assert_eq!(ROM_SIZE, 0x8000);
    assert_eq!(EXTERNAL_RAM_SIZE, 0x2000);
    assert_eq!(EXTERNAL_RAM_BASE, 0xA000);
}

#[test]
fn cartridge_reads_its_image() {
    let cart = Cartridge::new(counting_image(0x8000));
    assert_eq!(cart.read(0x0000), 0);
    assert_eq!(cart.read(0x0001), 1);
    assert_eq!(cart.read(0x00FB), 0);
    assert_eq!(cart.read(0x4000), (0x4000 % 251) as u8);
    assert_eq!(cart.read(0x7FFF), (0x7FFF % 251) as u8);
}

#[test]
fn cartridge_with_a_short_image_reads_zero_beyond_it() {
    let cart = Cartridge::new(vec![0xAA, 0xBB]);
    assert_eq!(cart.read(0x0000), 0xAA);
    assert_eq!(cart.read(0x0001), 0xBB);
    assert_eq!(cart.read(0x0002), 0x00);
    assert_eq!(cart.read(0x7FFF), 0x00);
}

#[test]
fn cartridge_shows_the_first_32_kib_of_a_long_image() {
    let mut image = vec![0x11u8; 0x10000];
    image[0x7FFF] = 0x22;
    image[0x8000] = 0x33;
    let cart = Cartridge::new(image);
    assert_eq!(cart.read(0x7FFF), 0x22);
    assert_eq!(cart.read(0x0000), 0x11);
}

#[test]
fn cartridge_rom_takes_no_writes() {
    let mut cart = Cartridge::new(counting_image(0x8000));
    cart.write(0x0000, 0xFF);
    cart.write(0x2000, 0xFF);
    cart.write(0x7FFF, 0xFF);
    assert_eq!(cart.read(0x0000), 0);
    assert_eq!(cart.read(0x2000), (0x2000 % 251) as u8);
    assert_eq!(cart.read(0x7FFF), (0x7FFF % 251) as u8);
}

#[test]
fn cartridge_external_ram_starts_at_zero() {
    let cart = Cartridge::new(counting_image(0x8000));
    assert_eq!(cart.read(0xA000), 0x00);
    assert_eq!(cart.read(0xB123), 0x00);
    assert_eq!(cart.read(0xBFFF), 0x00);
}

#[test]
fn cartridge_external_ram_keeps_what_is_written() {
    let mut cart = Cartridge::new(vec![0x00; 1 << 15]);
    cart.write(0xA000, 0x12);
    cart.write(0xBFFF, 0x34);
    cart.write(0xB000, 0x56);
    assert_eq!(cart.read(0xA000), 0x12);
    assert_eq!(cart.read(0xBFFF), 0x34);
    assert_eq!(cart.read(0xB000), 0x56);
    assert_eq!(cart.read(0xA001), 0x00);
}

#[test]
fn cartridge_writes_to_external_ram_leave_the_rom() {
    let mut cart = Cartridge::new(counting_image(0x8000));
    cart.write(0xA000, 0xFF);
    assert_eq!(cart.read(0x0000), 0);
    assert_eq!(cart.read(0x2000), (0x2000 % 251) as u8);
}
