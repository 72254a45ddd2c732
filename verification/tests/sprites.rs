use devpet::sprites::{
    bot_byte, byte_concepts, occupied_bounds, orb_byte, Sprite32, SpriteBounds, CORE, INK,
    PALETTE_SIZE, SPRITE_HEIGHT, SPRITE_PIXELS, SPRITE_WIDTH, TRANSPARENT,
};
use std::collections::HashSet;

#[test]
fn catalog_contains_the_ten_byte_concepts() {
    assert_eq!(byte_concepts().len(), 10);
}

#[test]
fn identifiers_and_names_are_unique() {
    let catalog = byte_concepts();
    let ids: HashSet<_> = catalog.iter().map(|sprite| sprite.id).collect();
    let names: HashSet<_> = catalog.iter().map(|sprite| sprite.name).collect();
    assert_eq!(ids.len(), catalog.len());
    assert_eq!(names.len(), catalog.len());
}

#[test]
fn every_pixel_uses_the_indexed_palette() {
    for sprite in byte_concepts() {
        assert!(
            sprite.pixels.iter().all(|pixel| *pixel < PALETTE_SIZE),
            "{} contains an invalid palette index",
            sprite.id
        );
    }
}

#[test]
fn every_sprite_has_art_and_clear_padding() {
    for sprite in &byte_concepts() {
        let bounds = occupied_bounds(sprite).expect("sprite must contain visible pixels");
        assert!(bounds.min_x > 0, "{} touches the left edge", sprite.id);
        assert!(bounds.min_y > 0, "{} touches the top edge", sprite.id);
        assert!(
            bounds.max_x < SPRITE_WIDTH - 1,
            "{} touches the right edge",
            sprite.id
        );
        assert!(
            bounds.max_y < SPRITE_HEIGHT - 1,
            "{} touches the bottom edge",
            sprite.id
        );
    }
}

#[test]
fn every_concept_has_a_distinct_bitmap() {
    let catalog = byte_concepts();
    for (index, sprite) in catalog.iter().enumerate() {
        for other in catalog.iter().skip(index + 1) {
            assert_ne!(
                sprite.pixels, other.pixels,
                "{} duplicates {}",
                sprite.id, other.id
            );
        }
    }
}

#[test]
fn canonical_orb_byte_has_a_core() {
    assert!(orb_byte().pixels.contains(&CORE));
}

#[test]
fn catalog_order_and_labels() {
    let ids: Vec<&str> = byte_concepts().iter().map(|s| s.id).collect();
    assert_eq!(
        ids,
        [
            "orb-byte",
            "pixel-byte",
            "terminal-byte",
            "bit-byte",
            "crt-byte",
            "bug-byte",
            "slime-byte",
            "bot-byte",
            "ghost-byte",
            "core-byte"
        ]
    );
    assert_eq!(byte_concepts()[9].name, "10 CORE BYTE");
    assert_eq!(orb_byte().name, "01 ORB BYTE");
}

#[test]
fn pixel_reads_row_major() {
    let orb = orb_byte();
    assert_eq!(orb.pixel(16, 22), CORE);
    assert_eq!(orb.pixels[22 * SPRITE_WIDTH + 16], CORE);
    assert_eq!(orb.pixel(0, 0), TRANSPARENT);
    assert_eq!(orb.pixel(25, 21), INK);
}

#[test]
fn orb_bounds_are_exact() {
    assert_eq!(
        occupied_bounds(&orb_byte()),
        Some(SpriteBounds { min_x: 3, min_y: 2, max_x: 29, max_y: 28 })
    );
}

#[test]
fn bot_antenna_keeps_top_padding() {
    assert_eq!(
        occupied_bounds(&bot_byte()),
        Some(SpriteBounds { min_x: 2, min_y: 1, max_x: 29, max_y: 30 })
    );
}

#[test]
fn empty_sprite_has_no_bounds() {
    let blank = Sprite32 {
        id: "blank",
        name: "BLANK",
        description: "",
        pixels: [TRANSPARENT; SPRITE_PIXELS],
    };
    assert_eq!(occupied_bounds(&blank), None);
    let mut single = blank;
    single.pixels[5 * SPRITE_WIDTH + 7] = INK;
    assert_eq!(
        occupied_bounds(&single),
        Some(SpriteBounds { min_x: 7, min_y: 5, max_x: 7, max_y: 5 })
    );
}

#[test]
fn pixel_reads_on_into_the_next_row() {
    let orb = orb_byte();
    assert_eq!(orb.pixel(40, 0), orb.pixel(8, 1));
    assert_eq!(orb.pixel(16 + 32, 21), orb.pixel(16, 22));
}
