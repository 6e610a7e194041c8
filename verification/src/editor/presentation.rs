//! The software-presented Studio frame: the shell panels, their titles, and
//! one card per first-party template with its viewport image and status.

use vstd::prelude::*;

use crate::editor::canvas::{
    blitted, filled, stroked, written, Area, Canvas, CanvasView, PixelFont, PixelGlyph, PixelImage,
};
use crate::text::{decimal, decimal_string, join2, join3, owned};

verus! {

/// Window background.
pub const BACKGROUND: u32 = 0x0014_1619;

/// Panel fill.
pub const PANEL: u32 = 0x0022_252b;

/// Header band fill.
pub const PANEL_DARK: u32 = 0x001a_1d22;

/// Viewport fill.
pub const VIEWPORT: u32 = 0x0008_0a0d;

/// Card border.
pub const BORDER: u32 = 0x0049_515c;

/// Primary text.
pub const TEXT: u32 = 0x00e5_e9ef;

/// Secondary text.
pub const MUTED_TEXT: u32 = 0x0096_a0ad;

/// Accent: image border and a clean render status.
pub const ACCENT: u32 = 0x003d_ba83;

/// Warnings: a render diagnostic or no templates.
pub const WARNING: u32 = 0x00dc_a44a;

/// Card image backdrop.
pub const IMAGE_BACKDROP: u32 = 0x0005_070a;

/// What a template card shows: its name and path, what its scene extraction
/// found, its render diagnostics and its viewport image.
#[derive(Debug, PartialEq, Eq)]
pub struct TemplateCardSummary {
    /// Template display name.
    pub name: String,
    /// Repository-local template path, as displayed.
    pub path: String,
    /// Number of extracted renderable primitives.
    pub primitive_count: u64,
    /// Number of extracted lights.
    pub light_count: u64,
    /// Whether a camera was extracted.
    pub has_camera: bool,
    /// Render diagnostics visible to the user if the viewport cannot draw.
    pub diagnostics: Vec<String>,
    /// The deterministic viewport image, already in `0x00RRGGBB` pixels.
    pub image: PixelImage,
}

/// Software frame ready for presentation to a window.
#[derive(Debug, PartialEq, Eq)]
pub struct StudioPresentationFrame {
    /// Frame width in pixels.
    pub width: u32,
    /// Frame height in pixels.
    pub height: u32,
    /// Pixels in `0x00RRGGBB` format, row by row.
    pub pixels: Vec<u32>,
}

/// `a - b`, or zero when `b` is larger.
pub open spec fn sat_sub(a: int, b: int) -> int {
    if a > b {
        a - b
    } else {
        0
    }
}

/// The larger of `a` and `b`.
pub open spec fn max_of(a: int, b: int) -> int {
    if a >= b {
        a
    } else {
        b
    }
}

/// The status line of a card: primitive count, camera state, light count.
pub open spec fn status_text(card: TemplateCardSummary) -> Seq<char> {
    "PRIMS "@ + decimal(card.primitive_count as nat) + "  CAMERA "@ + (if card.has_camera {
        "OK"@
    } else {
        "MISS"@
    }) + "  LIGHTS "@ + decimal(card.light_count as nat)
}

/// The status line of a card reads, in order: `PRIMS `, the decimal digits
/// of the card's primitive count, `  CAMERA `, `OK` when the card has a
/// camera and `MISS` when it has none, `  LIGHTS `,
/// and the decimal digits of its light count, which end the line. The
/// primitive count is thus the number right after `PRIMS ` and the light
/// count the number right after `LIGHTS `.
pub proof fn lemma_status_line_names_its_counts(card: TemplateCardSummary)
    ensures
        ({
            let t = status_text(card);
            let prims = decimal(card.primitive_count as nat);
            let n = prims.len() as int;
            let lights = decimal(card.light_count as nat);
            &&& t.subrange(0, 6) == seq!['P', 'R', 'I', 'M', 'S', ' ']
            &&& t.subrange(6, 6 + n) == prims
            &&& t.subrange(6 + n, 15 + n) == seq![' ', ' ', 'C', 'A', 'M', 'E', 'R', 'A', ' ']
            &&& card.has_camera ==> t.subrange(15 + n, 17 + n) == seq!['O', 'K']
                && t.len() == 26 + n + lights.len()
            &&& !card.has_camera ==> t.subrange(15 + n, 19 + n) == seq!['M', 'I', 'S', 'S']
                && t.len() == 28 + n + lights.len()
            &&& t.subrange(t.len() - lights.len() - 9, t.len() - lights.len() - 7) == seq![' ', ' ']
            &&& t.subrange(t.len() - lights.len() - 7, t.len() - lights.len()) == seq![
                'L',
                'I',
                'G',
                'H',
                'T',
                'S',
                ' ',
            ]
            &&& t.subrange(t.len() - lights.len(), t.len() as int) == lights
        }),
{
    reveal_strlit("PRIMS ");
    reveal_strlit("  CAMERA ");
    reveal_strlit("OK");
    reveal_strlit("MISS");
    reveal_strlit("  LIGHTS ");
    let t = status_text(card);
    let prims = decimal(card.primitive_count as nat);
    let n = prims.len() as int;
    let lights = decimal(card.light_count as nat);
    let camera: Seq<char> = if card.has_camera {
        "OK"@
    } else {
        "MISS"@
    };
    let head = "PRIMS "@ + prims;
    let mid = head + "  CAMERA "@ + camera + "  LIGHTS "@;
    assert(t == mid + lights);
    assert(t.subrange(0, 6) =~= seq!['P', 'R', 'I', 'M', 'S', ' ']);
    assert(t.subrange(6, 6 + n) =~= prims);
    assert(t.subrange(6 + n, 15 + n) =~= "  CAMERA "@);
    assert(t.subrange(15 + n, 15 + n + camera.len()) =~= camera);
    assert(t.subrange(t.len() - lights.len() - 9, t.len() - lights.len() - 7) =~= ("  LIGHTS "@).subrange(0, 2));
    assert(t.subrange(t.len() - lights.len(), t.len() as int) =~= lights);
    assert(t.subrange(t.len() - lights.len() - 7, t.len() - lights.len()) =~= ("  LIGHTS "@).subrange(2, 9));
}

/// The diagnostic line of a card: its first render diagnostic, or a clean
/// status.
pub open spec fn diagnostic_text(card: TemplateCardSummary) -> Seq<char> {
    if card.diagnostics@.len() == 0 {
        "RENDER STATUS OK"@
    } else {
        card.diagnostics@[0]@
    }
}

/// Where a card shows its image: inset 14 pixels, below the title, leaving
/// room for the status lines, and at least 24 pixels high.
pub open spec fn card_image_area(area: Area) -> Area {
    Area {
        x: (area.x + 14) as u32,
        y: (area.y + 42) as u32,
        width: sat_sub(area.width as int, 28) as u32,
        height: max_of(sat_sub(area.height as int, 126), 24) as u32,
    }
}

/// `c` with `card` drawn in `area`: the panel and its border, the name, the
/// image on its backdrop with an accent border, then the status, path and
/// diagnostic lines near the bottom.
pub open spec fn card_drawn(
    c: CanvasView,
    card: TemplateCardSummary,
    area: Area,
    glyphs: Seq<PixelGlyph>,
) -> CanvasView {
    let image_area = card_image_area(area);
    let left = area.x + 14;
    let status_y = area.y + sat_sub(area.height as int, 70);
    let panel = filled(c, area.x as int, area.y as int, area.width as int, area.height as int, PANEL);
    let bordered = stroked(panel, area, BORDER);
    let named = written(bordered, left, area.y + 20, card.name@, TEXT, glyphs);
    let backdrop = filled(
        named,
        image_area.x as int,
        image_area.y as int,
        image_area.width as int,
        image_area.height as int,
        IMAGE_BACKDROP,
    );
    let imaged = stroked(blitted(backdrop, card.image@, image_area), image_area, ACCENT);
    let status = written(imaged, left, status_y, status_text(card), MUTED_TEXT, glyphs);
    let pathed = written(status, left, status_y + 12, "PATH "@ + card.path@, MUTED_TEXT, glyphs);
    written(
        pathed,
        left,
        status_y + 34,
        diagnostic_text(card),
        if card.diagnostics@.len() == 0 {
            ACCENT
        } else {
            WARNING
        },
        glyphs,
    )
}

/// `c` with the cards from `k` on drawn side by side, the first at `x` and
/// each next one `width + 16` further right, stopping at a card whose inset
/// would leave the 32-bit coordinate range.
pub open spec fn cards_drawn_from(
    c: CanvasView,
    cards: Seq<TemplateCardSummary>,
    k: int,
    x: int,
    y: int,
    width: int,
    height: int,
    glyphs: Seq<PixelGlyph>,
) -> CanvasView
    decreases cards.len() - k,
{
    if k < 0 || k >= cards.len() || x + 14 > u32::MAX {
        c
    } else {
        cards_drawn_from(
            card_drawn(
                c,
                cards[k],
                Area { x: x as u32, y: y as u32, width: width as u32, height: height as u32 },
                glyphs,
            ),
            cards,
            k + 1,
            x + width + 16,
            y,
            width,
            height,
            glyphs,
        )
    }
}

/// The width each of `count` cards gets in `area_width` with 16-pixel
/// gutters around and between them; at least one pixel.
pub open spec fn card_width(area_width: int, count: int) -> int {
    max_of(sat_sub(area_width, 16 * (count + 1)) / count, 1)
}

/// `c` with the viewport panel in `area`: its fill and title, then either a
/// warning that no templates loaded or the template cards in a row.
pub open spec fn templates_drawn(
    c: CanvasView,
    cards: Seq<TemplateCardSummary>,
    area: Area,
    glyphs: Seq<PixelGlyph>,
) -> CanvasView {
    let panel = filled(c, area.x as int, area.y as int, area.width as int, area.height as int, VIEWPORT);
    let titled = written(panel, area.x + 18, area.y + 20, "VIEWPORT"@, TEXT, glyphs);
    if cards.len() == 0 {
        written(titled, area.x + 18, area.y + 54, "NO TEMPLATES LOADED"@, WARNING, glyphs)
    } else {
        cards_drawn_from(
            titled,
            cards,
            0,
            area.x + 16,
            area.y + 48,
            card_width(area.width as int, cards.len() as int),
            max_of(sat_sub(area.height as int, 76), 1),
            glyphs,
        )
    }
}

/// The Studio frame of `width` by `height` pixels (each at least one): the
/// background, the header band with the title and subtitle, the explorer
/// and inspector panels, the diagnostics strip, and the template viewport
/// between the two panels.
pub open spec fn studio_frame(
    cards: Seq<TemplateCardSummary>,
    glyphs: Seq<PixelGlyph>,
    width: int,
    height: int,
) -> CanvasView {
    let w = max_of(width, 1);
    let h = max_of(height, 1);
    let blank = CanvasView {
        pixels: Seq::new((w * h) as nat, |i: int| BACKGROUND),
        width: w as nat,
        height: h as nat,
    };
    let top = 58int;
    let bottom = sat_sub(h, 72);
    let left_width = if w < 260 {
        w
    } else {
        260
    };
    let right_x = sat_sub(w, 280);
    let header = filled(blank, 0, 0, w, 42, PANEL_DARK);
    let titled = written(header, 18, 16, "KINETIK STUDIO"@, TEXT, glyphs);
    let subtitled = written(
        titled,
        180,
        16,
        "FIRST-PARTY TEMPLATES VISIBLE IN UI"@,
        MUTED_TEXT,
        glyphs,
    );
    let explorer = filled(subtitled, 14, top, sat_sub(left_width, 28), sat_sub(bottom, top), PANEL);
    let inspector = filled(
        explorer,
        right_x,
        top,
        sat_sub(w, right_x + 14),
        sat_sub(bottom, top),
        PANEL,
    );
    let strip = filled(inspector, 14, bottom + 14, sat_sub(w, 28), 44, PANEL);
    let explorer_title = written(strip, 28, top + 18, "EXPLORER"@, TEXT, glyphs);
    let inspector_title = written(explorer_title, right_x + 16, top + 18, "INSPECTOR"@, TEXT, glyphs);
    let diagnostics = written(
        inspector_title,
        28,
        bottom + 31,
        "DIAGNOSTICS: TEMPLATE VIEWPORT IS SOFTWARE-PRESENTED; FULL GPU VIEWPORT IS NEXT"@,
        MUTED_TEXT,
        glyphs,
    );
    templates_drawn(
        diagnostics,
        cards,
        Area {
            x: (left_width + 20) as u32,
            y: top as u32,
            width: sat_sub(right_x, left_width + 36) as u32,
            height: sat_sub(bottom, top) as u32,
        },
        glyphs,
    )
}

fn saturating_sub(a: u32, b: u32) -> (r: u32)
    ensures
        r == sat_sub(a as int, b as int),
{
    if a > b {
        a - b
    } else {
        0
    }
}

/// Draws `card` into `area` of `canvas`.
pub fn draw_card(canvas: &mut Canvas, card: &TemplateCardSummary, area: Area, font: &PixelFont)
    requires
        area.x + 14 <= u32::MAX,
        area.y + 42 <= u32::MAX,
    ensures
        final(canvas)@ == card_drawn(old(canvas)@, *card, area, font.glyphs@),
{
    let left = area.x as u64 + 14;
    canvas.fill(area, PANEL);
    canvas.stroke(area, BORDER);
    canvas.text(left, area.y as u64 + 20, card.name.as_str(), TEXT, font);
    let image_height = saturating_sub(area.height, 126);
    let image_area = Area::new(
        area.x + 14,
        area.y + 42,
        saturating_sub(area.width, 28),
        if image_height > 24 {
            image_height
        } else {
            24
        },
    );
    canvas.fill(image_area, IMAGE_BACKDROP);
    canvas.blit_image(&card.image, image_area);
    canvas.stroke(image_area, ACCENT);
    let status_y = area.y as u64 + saturating_sub(area.height, 70) as u64;
    let primitives = decimal_string(card.primitive_count);
    let lights = decimal_string(card.light_count);
    let camera = if card.has_camera {
        "OK"
    } else {
        "MISS"
    };
    let mut status = join2("PRIMS ", primitives.as_str());
    status.append("  CAMERA ");
    status.append(camera);
    status.append("  LIGHTS ");
    status.append(lights.as_str());
    canvas.text(left, status_y, status.as_str(), MUTED_TEXT, font);
    let path = join2("PATH ", card.path.as_str());
    canvas.text(left, status_y + 12, path.as_str(), MUTED_TEXT, font);
    if card.diagnostics.len() == 0 {
        canvas.text(left, status_y + 34, "RENDER STATUS OK", ACCENT, font);
    } else {
        canvas.text(left, status_y + 34, card.diagnostics[0].as_str(), WARNING, font);
    }
}

/// Draws the viewport panel with the template cards into `area`.
pub fn draw_template_cards(
    canvas: &mut Canvas,
    cards: &[TemplateCardSummary],
    area: Area,
    font: &PixelFont,
)
    requires
        cards@.len() <= 0x0fff_fffe,
        area.y + 90 <= u32::MAX,
    ensures
        final(canvas)@ == templates_drawn(old(canvas)@, cards@, area, font.glyphs@),
{
    canvas.fill(area, VIEWPORT);
    canvas.text(area.x as u64 + 18, area.y as u64 + 20, "VIEWPORT", TEXT, font);
    if cards.len() == 0 {
        canvas.text(area.x as u64 + 18, area.y as u64 + 54, "NO TEMPLATES LOADED", WARNING, font);
        return;
    }
    let count = cards.len() as u32;
    let spare = saturating_sub(area.width, 16 * (count + 1));
    let share = spare / count;
    let width = if share > 1 {
        share
    } else {
        1
    };
    let rest = saturating_sub(area.height, 76);
    let height = if rest > 1 {
        rest
    } else {
        1
    };
    let y = area.y + 48;
    let ghost glyphs = font.glyphs@;
    let ghost after_title = canvas@;
    let mut x: u64 = area.x as u64 + 16;
    let mut k: usize = 0;
    while k < cards.len()
        invariant
            k <= cards@.len(),
            y + 42 <= u32::MAX,
            glyphs == font.glyphs@,
            x <= 2 * (u32::MAX as u64) + 2,
            cards_drawn_from(canvas@, cards@, k as int, x as int, y as int, width as int, height as int, glyphs)
                == cards_drawn_from(after_title, cards@, 0, area.x + 16, y as int, width as int, height as int, glyphs),
        ensures
            canvas@ == cards_drawn_from(after_title, cards@, 0, area.x + 16, y as int, width as int, height as int, glyphs),
        decreases cards@.len() - k,
    {
        if x + 14 > u32::MAX as u64 {
            break;
        }
        draw_card(canvas, &cards[k], Area::new(x as u32, y, width, height), font);
        x = x + width as u64 + 16;
        k = k + 1;
    }
}

proof fn lemma_cards_keep_size(
    c: CanvasView,
    cards: Seq<TemplateCardSummary>,
    k: int,
    x: int,
    y: int,
    width: int,
    height: int,
    glyphs: Seq<PixelGlyph>,
)
    ensures
        cards_drawn_from(c, cards, k, x, y, width, height, glyphs).pixels.len() == c.pixels.len(),
    decreases cards.len() - k,
{
    if !(k < 0 || k >= cards.len() || x + 14 > u32::MAX) {
        let next = card_drawn(
            c,
            cards[k],
            Area { x: x as u32, y: y as u32, width: width as u32, height: height as u32 },
            glyphs,
        );
        lemma_cards_keep_size(next, cards, k + 1, x + width + 16, y, width, height, glyphs);
    }
}

/// Renders the Studio shell and the template viewport cards into a frame of
/// `width` by `height` pixels, each at least one.
pub fn render_studio_presentation(
    cards: &[TemplateCardSummary],
    font: &PixelFont,
    width: u32,
    height: u32,
) -> (f: StudioPresentationFrame)
    requires
        max_of(width as int, 1) * max_of(height as int, 1) <= u32::MAX,
        cards@.len() <= 0x0fff_fffe,
    ensures
        f.width == max_of(width as int, 1),
        f.height == max_of(height as int, 1),
        f.pixels@.len() == f.width * f.height,
        f.pixels@ == studio_frame(cards@, font.glyphs@, width as int, height as int).pixels,
{
    let w = if width > 1 {
        width
    } else {
        1
    };
    let h = if height > 1 {
        height
    } else {
        1
    };
    let n = (w * h) as usize;
    let mut pixels: Vec<u32> = Vec::new();
    let mut i: usize = 0;
    while i < n
        invariant
            i <= n,
            pixels@ == Seq::new(i as nat, |j: int| BACKGROUND),
        decreases n - i,
    {
        pixels.push(BACKGROUND);
        assert(pixels@ =~= Seq::new((i + 1) as nat, |j: int| BACKGROUND));
        i = i + 1;
    }
    let mut canvas = Canvas::new(pixels, w, h);
    canvas.fill_rect(0, 0, w as u64, 42, PANEL_DARK);
    canvas.text(18, 16, "KINETIK STUDIO", TEXT, font);
    canvas.text(180, 16, "FIRST-PARTY TEMPLATES VISIBLE IN UI", MUTED_TEXT, font);
    let top: u32 = 58;
    let bottom = saturating_sub(h, 72);
    let left_width = if w < 260 {
        w
    } else {
        260
    };
    let right_x = saturating_sub(w, 280);
    canvas.fill(
        Area::new(14, top, saturating_sub(left_width, 28), saturating_sub(bottom, top)),
        PANEL,
    );
    canvas.fill(
        Area::new(right_x, top, saturating_sub(w, right_x + 14), saturating_sub(bottom, top)),
        PANEL,
    );
    canvas.fill_rect(14, bottom as u64 + 14, saturating_sub(w, 28) as u64, 44, PANEL);
    canvas.text(28, top as u64 + 18, "EXPLORER", TEXT, font);
    canvas.text(right_x as u64 + 16, top as u64 + 18, "INSPECTOR", TEXT, font);
    canvas.text(
        28,
        bottom as u64 + 31,
        "DIAGNOSTICS: TEMPLATE VIEWPORT IS SOFTWARE-PRESENTED; FULL GPU VIEWPORT IS NEXT",
        MUTED_TEXT,
        font,
    );
    let ghost before_cards = canvas@;
    let cards_area = Area::new(
        left_width + 20,
        top,
        saturating_sub(right_x, left_width + 36),
        saturating_sub(bottom, top),
    );
    draw_template_cards(&mut canvas, cards, cards_area, font);
    proof {
        let titled = written(
            filled(
                before_cards,
                cards_area.x as int,
                cards_area.y as int,
                cards_area.width as int,
                cards_area.height as int,
                VIEWPORT,
            ),
            cards_area.x + 18,
            cards_area.y + 20,
            "VIEWPORT"@,
            TEXT,
            font.glyphs@,
        );
        if cards@.len() > 0 {
            lemma_cards_keep_size(
                titled,
                cards@,
                0,
                cards_area.x + 16,
                cards_area.y + 48,
                card_width(cards_area.width as int, cards@.len() as int),
                max_of(sat_sub(cards_area.height as int, 76), 1),
                font.glyphs@,
            );
        }
    }
    let pixels = canvas.into_pixels();
    StudioPresentationFrame { width: w, height: h, pixels }
}

} // verus!
