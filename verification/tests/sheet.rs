use devpet::sheet::{palette_color, render_sheet, render_sheet_for};
use devpet::sprites::{byte_concepts, Sprite32, BODY, CORE, INK, SPRITE_PIXELS, TRANSPARENT};

#[test]
fn sheet_contains_one_group_and_label_per_sprite() {
    let sheet = render_sheet();
    assert_eq!(sheet.matches("class=\"byte-sprite\"").count(), 10);
    assert_eq!(sheet.matches("class=\"sprite-label\"").count(), 10);
    for sprite in byte_concepts() {
        assert!(sheet.contains(sprite.id));
        assert!(sheet.contains(sprite.name));
    }
}

#[test]
fn palette_colors() {
    assert_eq!(palette_color(INK), "#19281e");
    assert_eq!(palette_color(BODY), "#96aa6b");
    assert_eq!(palette_color(CORE), "#527834");
    assert_eq!(palette_color(TRANSPARENT), "none");
}

#[test]
fn sheet_frame_and_size() {
    let sheet = render_sheet();
    assert!(sheet.starts_with(
        "<svg xmlns=\"http://www.w3.org/2000/svg\" width=\"1200\" height=\"554\" viewBox=\"0 0 1200 554\" shape-rendering=\"crispEdges\">\n"
    ));
    assert!(sheet.ends_with("  </g>\n</svg>\n"));
    assert!(sheet.contains("  <g id=\"core-byte\" class=\"byte-sprite\">\n"));
    assert!(sheet.contains(
        "    <rect x=\"968\" y=\"308\" width=\"224\" height=\"238\" rx=\"8\" fill=\"#d4deaa\" stroke=\"#94a66f\" stroke-width=\"2\"/>\n"
    ));
}

#[test]
fn runs_become_single_rectangles() {
    let mut pixels = [TRANSPARENT; SPRITE_PIXELS];
    for x in 3..7 {
        pixels[2 * 32 + x] = INK;
    }
    pixels[2 * 32 + 7] = CORE;
    let sprite = Sprite32 { id: "runs", name: "RUNS", description: "", pixels };
    let sheet = render_sheet_for(&vec![sprite]);
    assert_eq!(sheet.matches("fill=\"#19281e\"/>").count(), 1);
    assert!(sheet.contains(
        "    <rect x=\"42\" y=\"80\" width=\"24\" height=\"6\" fill=\"#19281e\"/>\n"
    ));
    assert!(sheet.contains(
        "    <rect x=\"66\" y=\"80\" width=\"6\" height=\"6\" fill=\"#527834\"/>\n"
    ));
    assert!(sheet.contains(
        "    <text class=\"sprite-label\" x=\"120\" y=\"283\" text-anchor=\"middle\" fill=\"#19281e\" font-family=\"ui-monospace, monospace\" font-size=\"15\" font-weight=\"700\">RUNS</text>\n"
    ));
    assert!(sheet.contains(
        "    <text x=\"120\" y=\"301\" text-anchor=\"middle\" fill=\"#52634a\" font-family=\"ui-monospace, monospace\" font-size=\"11\">runs</text>\n"
    ));
    assert!(sheet.contains("height=\"304\""));
}

#[test]
fn numbers_are_written_in_decimal() {
    let sprite = Sprite32 { id: "one", name: "ONE", description: "", pixels: {
        let mut p = [TRANSPARENT; SPRITE_PIXELS];
        p[0] = BODY;
        p
    } };
    let sheet = render_sheet_for(&vec![sprite]);
    assert!(sheet.contains("    <rect x=\"24\" y=\"68\" width=\"6\" height=\"6\" fill=\"#96aa6b\"/>\n"));
    assert!(sheet.contains("    <rect x=\"8\" y=\"58\" width=\"224\" height=\"238\" rx=\"8\""));
}
