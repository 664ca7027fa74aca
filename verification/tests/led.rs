use virtual_machine::led::{gamma_correct, Color, Image};

#[test]
fn it_works() {
    let result = virtual_machine::led::add(2, 2);
    assert_eq!(result, 4);
}

#[test]
fn gamma_correct_matches_table_entries() {
    assert_eq!(gamma_correct(0), 0x00);
    assert_eq!(gamma_correct(1), 0x01);
    assert_eq!(gamma_correct(16), 0x03);
    assert_eq!(gamma_correct(100), 0x35);
    assert_eq!(gamma_correct(128), 0x50);
    assert_eq!(gamma_correct(200), 0xAA);
    assert_eq!(gamma_correct(255), 0xFF);
}

#[test]
fn color_gamma_correct_applies_per_channel() {
    let c = Color { r: 0, g: 128, b: 255 };
    let g = c.gamma_correct();
    assert_eq!(g, Color { r: 0x00, g: 0x50, b: 0xFF });
}

#[test]
fn new_solid_fills_every_pixel() {
    let red = Color { r: 255, g: 0, b: 0 };
    let img = Image::new_solid(red);
    for row in 0..8usize {
        let r = img.row(row);
        assert_eq!(r.len(), 8);
        assert!(r.iter().all(|&c| c == red));
    }
}
