use kinetik::editor::presentation::{
    ACCENT, BACKGROUND, BORDER, PANEL, PANEL_DARK, TEXT, VIEWPORT, WARNING,
};
use kinetik::editor::{
    draw_card, render_studio_presentation, Area, Canvas, PixelFont, PixelGlyph, PixelImage,
    TemplateCardSummary,
};

fn block_font() -> PixelFont {
    let full = vec![0b11111u8; 7];
    let glyphs = "ABCDEFGHIJKLMNOPQRSTUVWXYZ0123456789:;-."
        .chars()
        .map(|character| PixelGlyph {
            character,
            rows: full.clone(),
        })
        .collect();
    PixelFont { glyphs }
}

fn card(diagnostics: Vec<String>) -> TemplateCardSummary {
    TemplateCardSummary {
        name: "Primitive Showcase".to_owned(),
        path: "templates/primitive-showcase".to_owned(),
        primitive_count: 3,
        light_count: 1,
        has_camera: true,
        diagnostics,
        image: PixelImage::new(2, 2, vec![0x00ff_0000, 0x0000_ff00, 0x0000_00ff, 0x00ff_ffff])
            .unwrap(),
    }
}

fn pixel(pixels: &[u32], width: u32, x: u32, y: u32) -> u32 {
    pixels[(y * width + x) as usize]
}

#[test]
fn canvas_fill_stroke_and_text_touch_only_their_pixels() {
    let mut canvas = Canvas::new(vec![0; 20 * 10], 20, 10);
    canvas.fill(Area::new(2, 1, 3, 2), 7);
    canvas.stroke(Area::new(10, 2, 4, 4), 9);
    let font = PixelFont {
        glyphs: vec![PixelGlyph {
            character: 'A',
            rows: vec![0b10001, 0b01110],
        }],
    };
    canvas.text(0, 8, "a a", 5, &font);
    let pixels = canvas.into_pixels();

    assert_eq!(pixel(&pixels, 20, 2, 1), 7);
    assert_eq!(pixel(&pixels, 20, 4, 2), 7);
    assert_eq!(pixel(&pixels, 20, 5, 2), 0);
    assert_eq!(pixel(&pixels, 20, 10, 2), 9);
    assert_eq!(pixel(&pixels, 20, 13, 5), 9);
    assert_eq!(pixel(&pixels, 20, 11, 3), 0);
    assert_eq!(pixel(&pixels, 20, 0, 8), 5);
    assert_eq!(pixel(&pixels, 20, 1, 8), 0);
    assert_eq!(pixel(&pixels, 20, 4, 8), 5);
    assert_eq!(pixel(&pixels, 20, 1, 9), 5);
    assert_eq!(pixel(&pixels, 20, 0, 9), 0);
    assert_eq!(pixel(&pixels, 20, 12, 8), 5);
    assert_eq!(pixel(&pixels, 20, 6, 8), 0);
}

#[test]
fn canvas_blit_scales_the_image_into_the_area() {
    let mut canvas = Canvas::new(vec![0; 6 * 6], 6, 6);
    let image = PixelImage::new(2, 2, vec![1, 2, 3, 4]).unwrap();
    canvas.blit_image(&image, Area::new(1, 1, 4, 4));
    let pixels = canvas.into_pixels();

    assert_eq!(pixel(&pixels, 6, 0, 0), 0);
    assert_eq!(pixel(&pixels, 6, 1, 1), 1);
    assert_eq!(pixel(&pixels, 6, 2, 2), 1);
    assert_eq!(pixel(&pixels, 6, 3, 1), 2);
    assert_eq!(pixel(&pixels, 6, 1, 3), 3);
    assert_eq!(pixel(&pixels, 6, 4, 4), 4);
    assert_eq!(pixel(&pixels, 6, 5, 5), 0);
    assert!(PixelImage::new(2, 2, vec![1, 2, 3]).is_none());
}

#[test]
fn studio_presentation_frame_contains_template_pixels() {
    let font = block_font();
    let cards = vec![card(Vec::new()), card(vec!["no camera".to_owned()])];
    let frame = render_studio_presentation(&cards, &font, 640, 360);

    assert_eq!(frame.width, 640);
    assert_eq!(frame.height, 360);
    assert_eq!(frame.pixels.len(), 640 * 360);
    assert!(frame.pixels.iter().any(|pixel| *pixel != BACKGROUND));
    assert_eq!(pixel(&frame.pixels, 640, 0, 0), PANEL_DARK);
    assert_eq!(pixel(&frame.pixels, 640, 639, 359), BACKGROUND);
    assert_eq!(pixel(&frame.pixels, 640, 18, 16), TEXT);
    assert_eq!(pixel(&frame.pixels, 640, 20, 100), PANEL);
    assert_eq!(pixel(&frame.pixels, 640, 281, 60), VIEWPORT);
    assert_eq!(pixel(&frame.pixels, 640, 296, 106), BORDER);
    assert!(frame.pixels.contains(&ACCENT));
    assert!(frame.pixels.contains(&WARNING));

    let wide = render_studio_presentation(&cards, &font, 1280, 360);
    assert!(wide.pixels.contains(&0x00ff_0000));
    assert!(wide.pixels.contains(&0x00ff_ffff));
}

#[test]
fn empty_presentation_warns_and_sizes_are_at_least_one() {
    let font = block_font();
    let frame = render_studio_presentation(&[], &font, 640, 360);
    assert!(frame.pixels.contains(&WARNING));

    let tiny = render_studio_presentation(&[], &font, 0, 0);
    assert_eq!(tiny.width, 1);
    assert_eq!(tiny.height, 1);
    assert_eq!(tiny.pixels, vec![PANEL_DARK]);
}

#[test]
fn card_draws_panel_border_image_and_status() {
    let font = block_font();
    let mut canvas = Canvas::new(vec![0; 200 * 200], 200, 200);
    draw_card(&mut canvas, &card(Vec::new()), Area::new(0, 0, 200, 200), &font);
    let pixels = canvas.into_pixels();

    assert_eq!(pixel(&pixels, 200, 0, 0), BORDER);
    assert_eq!(pixel(&pixels, 200, 5, 5), PANEL);
    assert_eq!(pixel(&pixels, 200, 14, 42), ACCENT);
    assert_eq!(pixel(&pixels, 200, 20, 50), 0x00ff_0000);
    assert_eq!(pixel(&pixels, 200, 14, 164), ACCENT);
}
