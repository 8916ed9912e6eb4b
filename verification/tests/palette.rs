use kicad_sch_ui::palette::CanvasPalette;

/// HSL lightness of a `0xRRGGBB` colour.
fn lightness(hex: u32) -> f64 {
    let channels = [(hex >> 16) & 0xff, (hex >> 8) & 0xff, hex & 0xff];
    let max = *channels.iter().max().unwrap() as f64 / 255.0;
    let min = *channels.iter().min().unwrap() as f64 / 255.0;
    (max + min) / 2.0
}

#[test]
fn the_two_canvas_palettes_differ_in_lightness_where_it_matters() {
    let dark = CanvasPalette::dark();
    let light = CanvasPalette::light();
    assert!(lightness(dark.background) < 0.2);
    assert!(lightness(light.background) > 0.9);
    assert!((lightness(dark.text) - lightness(dark.background)).abs() > 0.4);
    assert!((lightness(light.text) - lightness(light.background)).abs() > 0.4);
}

#[test]
fn palette_follows_the_mode() {
    assert_eq!(CanvasPalette::for_mode(true), CanvasPalette::dark());
    assert_eq!(CanvasPalette::for_mode(false), CanvasPalette::light());
}

#[test]
fn wires_and_junctions_share_a_colour() {
    for palette in [CanvasPalette::dark(), CanvasPalette::light()] {
        assert_eq!(palette.wire, palette.junction);
        assert_eq!(palette.pin, palette.no_connect);
    }
    assert_eq!(CanvasPalette::dark().background, 0x0f1318);
    assert_eq!(CanvasPalette::light().crosshair, 0xa8b2bd);
}
