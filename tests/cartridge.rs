use nes_emu::cartridge::prg_from_ines;

fn image(banks: u8, flags6: u8, body: usize) -> Vec<u8> {
    let mut v = vec![0x4E, 0x45, 0x53, 0x1A, banks, 1, flags6, 0, 0, 0, 0, 0, 0, 0, 0, 0];
    v.extend((0..body).map(|i| (i % 199) as u8));
    v
}

#[test]
fn one_bank_image() {
    let prg = prg_from_ines(&image(1, 0, 0x4000 + 0x2000)).unwrap();
    assert_eq!(prg.len(), 0x4000);
    assert_eq!(prg[0], 0);
    assert_eq!(prg[0x3FFF], (0x3FFF % 199) as u8);
}

#[test]
fn two_banks_after_trainer() {
    let prg = prg_from_ines(&image(2, 0x04, 512 + 0x8000)).unwrap();
    assert_eq!(prg.len(), 0x8000);
    assert_eq!(prg[0], (512 % 199) as u8);
}

#[test]
fn rejects_bad_images() {
    assert!(prg_from_ines(&vec![0x4E, 0x45, 0x53]).is_none());
    let mut bad = image(1, 0, 0x4000);
    bad[3] = 0x00;
    assert!(prg_from_ines(&bad).is_none());
    assert!(prg_from_ines(&image(3, 0, 0xC000)).is_none());
    assert!(prg_from_ines(&image(2, 0, 0x7FFF)).is_none());
}
