use vstd::prelude::*;
use crate::ppu::{
    PPU, PALETTE, PALETTE_BASE, SCREEN_WIDTH, SPRITE_PALETTE_OFFSET, STATUS_SPRITE_OVERFLOW,
    STATUS_SPRITE_ZERO_HIT,
};

verus! {

/// A colour of the master palette.
#[derive(Clone, Copy, Debug, PartialEq, Eq, Structural)]
pub struct RGB {
    pub r: u8,
    pub g: u8,
    pub b: u8,
}

/// Whether a sprite pixel is drawn in front of or behind the background.
#[derive(Clone, Copy, Debug, PartialEq, Eq, Structural)]
pub enum SpritePriority {
    Front,
    Back,
}

/// The opaque pixel that a sprite gives at some column.
#[derive(Clone, Copy, Debug, PartialEq, Eq, Structural)]
pub struct SpritePixel {
    pub color: RGB,
    pub priority: SpritePriority,
    pub sprite_zero: bool,
}

/// The background pixel at some column: its colour, and whether it is opaque
/// (a non-zero colour index).
#[derive(Clone, Copy, Debug, PartialEq, Eq, Structural)]
pub struct BackgroundPixel {
    pub color: RGB,
    pub opaque: bool,
}

/// A sprite of OAM, with its top line `y` already moved down one line from the OAM
/// byte (so an OAM y of 0xFF gives line 256, which no scanline reaches).
#[derive(Clone, Copy, Debug, PartialEq, Eq, Structural)]
pub struct Sprite {
    /// Position of the sprite in OAM (0..64).
    pub index: u8,
    pub x: u8,
    pub y: u16,
    pub attributes: u8,
    pub tile_index: u8,
}

/// Colour `i` (below 64) of the master palette.
pub open spec fn rgb_of(i: int) -> RGB {
    RGB { r: PALETTE@[3 * i], g: PALETTE@[3 * i + 1], b: PALETTE@[3 * i + 2] }
}

/// The two-bit colour index that bit `bit` of a pair of pattern planes gives.
pub open spec fn color_index(lo: u8, hi: u8, bit: u8) -> u8 {
    ((lo >> bit) & 1u8) | (((hi >> bit) & 1u8) << 1u8)
}

/// Sprite `i` of the OAM bytes `oam`.
pub open spec fn sprite_at(oam: Seq<u8>, i: int) -> Sprite {
    Sprite {
        index: i as u8,
        y: (oam[4 * i] as u16 + 1) as u16,
        tile_index: oam[4 * i + 1],
        attributes: oam[4 * i + 2],
        x: oam[4 * i + 3],
    }
}

/// Whether sprite `s` covers scanline `line`.
pub open spec fn on_line(s: Sprite, line: int) -> bool {
    s.y <= line < s.y + 8
}

/// The sprites among the first `n` of OAM that cover `line`, at most eight, in OAM
/// order.
pub open spec fn visible_sprites(oam: Seq<u8>, line: int, n: int) -> Seq<Sprite>
    decreases n,
{
    if n <= 0 {
        Seq::empty()
    } else {
        let v = visible_sprites(oam, line, n - 1);
        if on_line(sprite_at(oam, n - 1), line) && v.len() < 8 {
            v.push(sprite_at(oam, n - 1))
        } else {
            v
        }
    }
}

/// How many of the first `n` sprites of OAM cover `line`.
pub open spec fn sprites_on_line(oam: Seq<u8>, line: int, n: int) -> int
    decreases n,
{
    if n <= 0 {
        0
    } else {
        sprites_on_line(oam, line, n - 1) + if on_line(sprite_at(oam, n - 1), line) { 1int } else { 0 }
    }
}

/// The composite of a background and a sprite pixel: a front sprite wins, a back
/// sprite shows only where the background is transparent; with neither, the
/// backdrop colour.
pub open spec fn composed(bg: Option<BackgroundPixel>, fg: Option<SpritePixel>, backdrop: RGB) -> RGB {
    match fg {
        Some(p) => match bg {
            Some(b) => if p.priority == SpritePriority::Front || !b.opaque { p.color } else { b.color },
            None => p.color,
        },
        None => match bg {
            Some(b) => b.color,
            None => backdrop,
        },
    }
}

/// Whether an opaque sprite-zero pixel meets an opaque background pixel.
pub open spec fn zero_hit(bg: Option<BackgroundPixel>, fg: Option<SpritePixel>) -> bool {
    match (bg, fg) {
        (Some(b), Some(p)) => b.opaque && p.sprite_zero,
        _ => false,
    }
}

impl Sprite {
    /// Offset of the sprite's palette within the sprite palettes.
    pub fn palette(&self) -> (r: u8)
        ensures
            r == (self.attributes & 3u8) << 2u8,
            r <= 12,
    {
        let a = self.attributes;
        let r = (a & 0x03) << 2;
        assert(r <= 12) by (bit_vector)
            requires r == (a & 3u8) << 2u8;
        r
    }

    pub fn priority(&self) -> (r: SpritePriority)
        ensures
            r == (if self.attributes & 0x20u8 == 0 { SpritePriority::Front } else { SpritePriority::Back }),
    {
        if self.attributes & 0x20 == 0 {
            SpritePriority::Front
        } else {
            SpritePriority::Back
        }
    }

    /// Whether the sprite is flipped (vertically, horizontally): attribute bits 7 and 6.
    pub fn flip(&self) -> (r: (bool, bool))
        ensures
            r == (self.attributes & 0x80u8 != 0, self.attributes & 0x40u8 != 0),
    {
        (self.attributes & 0x80 != 0, self.attributes & 0x40 != 0)
    }
}

impl PPU {
    pub open spec fn base_nametable_spec(&self) -> u16 {
        (0x2000 + 0x400 * (self.ppuctrl & 3u8)) as u16
    }

    pub open spec fn background_offset_spec(&self) -> u16 {
        if self.ppuctrl & 0x10u8 == 0 { 0 } else { 0x1000 }
    }

    pub open spec fn foreground_offset_spec(&self) -> u16 {
        if self.ppuctrl & 0x08u8 == 0 { 0 } else { 0x1000 }
    }

    /// PPU-bus address of the low pattern plane of the background tile in column
    /// `col` (0..32) of the current scanline.
    pub open spec fn tile_row_addr(&self, col: int) -> u16 {
        let y = self.scanline as int;
        let tile = self.vram((self.base_nametable_spec() + col + (y / 8) * 32) as u16);
        (16 * tile + y % 8 + self.background_offset_spec()) as u16
    }

    /// The two pattern planes of the background tile in column `col`.
    pub open spec fn tile_planes(&self, col: int) -> (u8, u8) {
        let a = self.tile_row_addr(col);
        (self.vram(a), self.vram((a + 8) as u16))
    }

    /// The palette (0..4) that the attribute table gives to pixel (`x`, scanline).
    pub open spec fn attr_palette(&self, x: int) -> u8 {
        let y = self.scanline as int;
        let attr = self.vram((self.base_nametable_spec() + 0x3C0 + x / 32 + (y / 32) * 8) as u16);
        let shift: u8 = if x % 32 < 16 {
            if y % 32 < 16 { 0 } else { 4 }
        } else {
            if y % 32 < 16 { 2 } else { 6 }
        };
        (attr >> shift) & 3u8
    }

    /// The colour of master palette entry that palette RAM holds at `addr`.
    pub open spec fn palette_color(&self, addr: u16) -> RGB {
        rgb_of((self.vram(addr) & 0x3Fu8) as int)
    }

    /// The background pixel at column `x` of the current scanline, if the
    /// background is shown there.
    pub open spec fn background_pixel(&self, x: int) -> Option<BackgroundPixel> {
        if self.ppumask & 0x08u8 == 0 || (self.ppumask & 0x02u8 == 0 && x < 8) {
            None
        } else {
            let planes = self.tile_planes(x / 8);
            let idx = color_index(planes.0, planes.1, (7 - x % 8) as u8);
            let pal = self.attr_palette(x);
            Some(BackgroundPixel {
                color: self.palette_color((PALETTE_BASE + pal * 4 + idx) as u16),
                opaque: idx != 0,
            })
        }
    }

    /// The pixel that sprite `s` gives at column `x` of the current scanline, if it
    /// covers it and is opaque there.
    pub open spec fn sprite_hit(&self, s: Sprite, x: int) -> Option<SpritePixel> {
        if !(s.x <= x < s.x + 8) {
            None
        } else {
            let row = self.scanline - s.y;
            let row = if s.attributes & 0x80u8 != 0 { 7 - row } else { row };
            let a = (self.foreground_offset_spec() + 16 * s.tile_index + row) as u16;
            let col = x - s.x;
            let bit = if s.attributes & 0x40u8 != 0 { col } else { 7 - col };
            let idx = color_index(self.vram(a), self.vram((a + 8) as u16), bit as u8);
            if idx == 0 {
                None
            } else {
                Some(SpritePixel {
                    color: self.palette_color(
                        (PALETTE_BASE + SPRITE_PALETTE_OFFSET + ((s.attributes & 3u8) << 2u8) + idx) as u16,
                    ),
                    priority: if s.attributes & 0x20u8 == 0 { SpritePriority::Front } else { SpritePriority::Back },
                    sprite_zero: s.index == 0,
                })
            }
        }
    }

    /// The first opaque pixel at column `x` among the sprites `vis[from..]`.
    pub open spec fn first_sprite_pixel(&self, vis: Seq<Sprite>, x: int, from: int) -> Option<SpritePixel>
        decreases vis.len() - from,
    {
        if from < 0 || from >= vis.len() {
            None
        } else {
            match self.sprite_hit(vis[from], x) {
                Some(p) => Some(p),
                None => self.first_sprite_pixel(vis, x, from + 1),
            }
        }
    }

    /// The sprite pixel at column `x` of the current scanline, if sprites are shown
    /// there and one of `vis` is opaque there.
    pub open spec fn sprite_pixel(&self, vis: Seq<Sprite>, x: int) -> Option<SpritePixel> {
        if self.ppumask & 0x10u8 == 0 || (self.ppumask & 0x04u8 == 0 && x < 8) {
            None
        } else {
            self.first_sprite_pixel(vis, x, 0)
        }
    }

    /// The sprites that the current scanline shows.
    pub open spec fn line_sprites(&self) -> Seq<Sprite> {
        visible_sprites(self.oam@, self.scanline as int, 64)
    }

    /// The final colour of column `x` of the current scanline.
    pub open spec fn pixel(&self, x: int) -> RGB {
        composed(
            self.background_pixel(x),
            self.sprite_pixel(self.line_sprites(), x),
            self.palette_color(PALETTE_BASE),
        )
    }

    /// Whether sprite zero meets the background somewhere on the current scanline.
    pub open spec fn line_zero_hit(&self) -> bool {
        exists|x: int| 0 <= x < 256 && #[trigger] zero_hit(self.background_pixel(x), self.sprite_pixel(self.line_sprites(), x))
    }

    /// `self.screen` holds `before`'s current scanline, rendered, and the rest of
    /// `before.screen`.
    pub open spec fn row_rendered(&self, before: PPU) -> bool {
        let y = before.scanline as int;
        &&& self.screen@.len() == before.screen@.len()
        &&& forall|i: int| 0 <= i < self.screen@.len() && !(y * 768 <= i < y * 768 + 768)
            ==> #[trigger] self.screen@[i] == before.screen@[i]
        &&& forall|x: int| 0 <= x < 256 ==> {
            let c = #[trigger] before.pixel(x);
            &&& self.screen@[(y * 256 + x) * 3] == c.b
            &&& self.screen@[(y * 256 + x) * 3 + 1] == c.g
            &&& self.screen@[(y * 256 + x) * 3 + 2] == c.r
        }
    }

    fn render_background(&self) -> (r: bool)
        ensures
            r == (self.ppumask & 0x08u8 != 0),
    {
        self.ppumask & 0x08 > 0
    }

    fn render_background_leftmost(&self) -> (r: bool)
        ensures
            r == (self.ppumask & 0x02u8 != 0),
    {
        self.ppumask & 0x02 > 0
    }

    fn render_sprites(&self) -> (r: bool)
        ensures
            r == (self.ppumask & 0x10u8 != 0),
    {
        self.ppumask & 0x10 > 0
    }

    fn render_sprites_leftmost(&self) -> (r: bool)
        ensures
            r == (self.ppumask & 0x04u8 != 0),
    {
        self.ppumask & 0x04 > 0
    }

    fn foreground_offset(&self) -> (r: u16)
        ensures
            r == self.foreground_offset_spec(),
    {
        if self.ppuctrl & 0x08 == 0 {
            0
        } else {
            0x1000
        }
    }

    fn background_offset(&self) -> (r: u16)
        ensures
            r == self.background_offset_spec(),
    {
        if self.ppuctrl & 0x10 == 0 {
            0
        } else {
            0x1000
        }
    }

    fn base_nametable(&self) -> (r: u16)
        ensures
            r == self.base_nametable_spec(),
            0x2000 <= r <= 0x2C00,
    {
        let c = self.ppuctrl;
        let n = c & 0x03;
        assert(n <= 3) by (bit_vector)
            requires n == c & 3u8;
        0x2000 + 0x400 * (n as u16)
    }
}


/// The colour shown when a sprite pixel and a background pixel meet over a backdrop.
fn compose(bg: Option<BackgroundPixel>, fg: Option<SpritePixel>, backdrop: RGB) -> (r: RGB)
    ensures
        r == composed(bg, fg, backdrop),
{
    match fg {
        Some(p) => match bg {
            Some(b) => if p.priority == SpritePriority::Front || !b.opaque { p.color } else { b.color },
            None => p.color,
        },
        None => match bg {
            Some(b) => b.color,
            None => backdrop,
        },
    }
}

/// Bit `bit` of the low plane, and above it bit `bit` of the high plane.
fn plane_bits(lo: u8, hi: u8, bit: u8) -> (r: u8)
    requires
        bit < 8,
    ensures
        r == color_index(lo, hi, bit),
        r < 4,
{
    let r = ((lo >> bit) & 0x01) | (((hi >> bit) & 0x01) << 1);
    assert(r < 4) by (bit_vector)
        requires r == ((lo >> bit) & 1u8) | (((hi >> bit) & 1u8) << 1u8);
    r
}

impl PPU {
    /// The master-palette colour that palette RAM holds at `addr`.
    fn color(&self, addr: u16) -> (r: RGB)
        requires
            self.wf(),
        ensures
            r == self.palette_color(addr),
    {
        let v = self.readb(addr);
        let i = (v & 0x3F) as usize;
        assert(i < 64) by (bit_vector)
            requires i == (v & 0x3Fu8) as usize;
        RGB { r: PALETTE[i * 3], g: PALETTE[i * 3 + 1], b: PALETTE[i * 3 + 2] }
    }

    /// The attribute byte that covers pixel (`x`, `y`).
    fn get_attr_byte(&self, x: u8, y: u16) -> (r: u8)
        requires
            self.wf(),
            y < 240,
        ensures
            r == self.vram((self.base_nametable_spec() + 0x3C0 + x / 32 + (y / 32) * 8) as u16),
    {
        let base = self.base_nametable();
        self.readb(base + 0x3C0 + (x as u16) / 32 + (y / 32) * 8)
    }

    /// The two pattern planes of each of the 32 background tiles of the current
    /// scanline, low plane first.
    fn get_scanline_background_pixels(&self) -> (out: Vec<u8>)
        requires
            self.wf(),
            self.scanline < 240,
        ensures
            out@.len() == 64,
            forall|i: int| 0 <= i < 32 ==> out@[2 * i] == (#[trigger] self.tile_planes(i)).0 && out@[2 * i + 1] == self.tile_planes(i).1,
    {
        let mut out: Vec<u8> = Vec::new();
        let base = self.base_nametable();
        let offset = self.background_offset();
        let y = self.scanline;
        let mut i: u16 = 0;
        while i < 32
            invariant
                self.wf(),
                y == self.scanline,
                y < 240,
                base == self.base_nametable_spec(),
                0x2000 <= base <= 0x2C00,
                offset == self.background_offset_spec(),
                i <= 32,
                out@.len() == 2 * i,
                forall|j: int| 0 <= j < i ==> out@[2 * j] == (#[trigger] self.tile_planes(j)).0 && out@[2 * j + 1] == self.tile_planes(j).1,
            decreases 32 - i,
        {
            let tile = self.readb(base + i + (y / 8) * 32);
            let addr = 16 * (tile as u16) + y % 8 + offset;
            out.push(self.readb(addr));
            out.push(self.readb(addr + 8));
            i = i + 1;
        }
        out
    }

    /// The background pixel at column `x`, from the planes that
    /// `get_scanline_background_pixels` fetched.
    fn get_background_pixel(&self, tiles: &Vec<u8>, x: u8) -> (r: Option<BackgroundPixel>)
        requires
            self.wf(),
            self.scanline < 240,
            tiles@.len() == 64,
            forall|i: int| 0 <= i < 32 ==> tiles@[2 * i] == (#[trigger] self.tile_planes(i)).0 && tiles@[2 * i + 1] == self.tile_planes(i).1,
        ensures
            r == self.background_pixel(x as int),
    {
        if !self.render_background() || (!self.render_background_leftmost() && x < 8) {
            return None;
        }
        let index = (x as usize / 8) * 2;
        assert(tiles@[index as int] == self.tile_planes(x as int / 8).0);
        let idx = plane_bits(tiles[index], tiles[index + 1], 7 - (x % 8));
        let attr = self.get_attr_byte(x, self.scanline);
        let shift: u8 = if x % 32 < 16 {
            if self.scanline % 32 < 16 { 0 } else { 4 }
        } else {
            if self.scanline % 32 < 16 { 2 } else { 6 }
        };
        let pal = (attr >> shift) & 0x03;
        assert(pal < 4) by (bit_vector)
            requires pal == (attr >> shift) & 3u8;
        let color = self.color(PALETTE_BASE + (pal as u16) * 4 + idx as u16);
        Some(BackgroundPixel { color, opaque: idx != 0 })
    }

    /// The sprites that cover the current scanline (the first eight in OAM order), and
    /// whether more than eight do.
    fn get_scanline_sprite_pixels(&self) -> (r: (Vec<Sprite>, bool))
        requires
            self.wf(),
        ensures
            r.0@ == self.line_sprites(),
            r.1 == (sprites_on_line(self.oam@, self.scanline as int, 64) > 8),
    {
        let mut out: Vec<Sprite> = Vec::new();
        let mut count: usize = 0;
        let y = self.scanline;
        let mut i: usize = 0;
        while i < 64
            invariant
                self.wf(),
                y == self.scanline,
                i <= 64,
                count <= i,
                out@ == visible_sprites(self.oam@, y as int, i as int),
                out@.len() <= 8,
                count == sprites_on_line(self.oam@, y as int, i as int),
            decreases 64 - i,
        {
            let sprite = Sprite {
                index: i as u8,
                y: self.oam[4 * i] as u16 + 1,
                tile_index: self.oam[4 * i + 1],
                attributes: self.oam[4 * i + 2],
                x: self.oam[4 * i + 3],
            };
            assert(sprite == sprite_at(self.oam@, i as int));
            if sprite.y <= y && y < sprite.y + 8 {
                count = count + 1;
                if out.len() < 8 {
                    out.push(sprite);
                }
            }
            i = i + 1;
        }
        (out, count > 8)
    }

    /// The pixel that sprite `s` gives at column `x`, if any.
    fn sprite_pixel_of(&self, s: &Sprite, x: u8) -> (r: Option<SpritePixel>)
        requires
            self.wf(),
            on_line(*s, self.scanline as int),
        ensures
            r == self.sprite_hit(*s, x as int),
    {
        if !(x >= s.x && (x as u16) < (s.x as u16) + 8) {
            return None;
        }
        let (vertical, horizontal) = s.flip();
        let row = self.scanline - s.y;
        let row = if vertical { 7 - row } else { row };
        let a = self.foreground_offset() + 16 * (s.tile_index as u16) + row;
        let col = x - s.x;
        let bit = if horizontal { col } else { 7 - col };
        let idx = plane_bits(self.readb(a), self.readb(a + 8), bit);
        if idx == 0 {
            return None;
        }
        let color = self.color(PALETTE_BASE + SPRITE_PALETTE_OFFSET + s.palette() as u16 + idx as u16);
        Some(SpritePixel { color, priority: s.priority(), sprite_zero: s.index == 0 })
    }

    /// The sprite pixel at column `x`: the first opaque one among `visible_sprites`.
    fn get_sprite_pixel(&self, visible_sprites: &Vec<Sprite>, x: u8) -> (r: Option<SpritePixel>)
        requires
            self.wf(),
            forall|i: int| 0 <= i < visible_sprites@.len() ==> on_line(#[trigger] visible_sprites@[i], self.scanline as int),
        ensures
            r == self.sprite_pixel(visible_sprites@, x as int),
    {
        if !self.render_sprites() || (!self.render_sprites_leftmost() && x < 8) {
            return None;
        }
        assert(self.sprite_pixel(visible_sprites@, x as int) == self.first_sprite_pixel(visible_sprites@, x as int, 0));
        let mut i: usize = 0;
        while i < visible_sprites.len()
            invariant
                self.wf(),
                i <= visible_sprites@.len(),
                forall|j: int| 0 <= j < visible_sprites@.len() ==> on_line(#[trigger] visible_sprites@[j], self.scanline as int),
                self.sprite_pixel(visible_sprites@, x as int)
                    == self.first_sprite_pixel(visible_sprites@, x as int, i as int),
            decreases visible_sprites@.len() - i,
        {
            let p = self.sprite_pixel_of(&visible_sprites[i], x);
            if p.is_some() {
                assert(self.first_sprite_pixel(visible_sprites@, x as int, i as int) == p);
                return p;
            }
            i = i + 1;
        }
        None
    }
}


/// Every sprite that `visible_sprites` keeps covers the line, and there are at most
/// eight.
proof fn lemma_visible_on_line(oam: Seq<u8>, line: int, n: int)
    ensures
        visible_sprites(oam, line, n).len() <= 8,
        forall|i: int| 0 <= i < visible_sprites(oam, line, n).len() ==> on_line(#[trigger] visible_sprites(oam, line, n)[i], line),
    decreases n,
{
    if n > 0 {
        lemma_visible_on_line(oam, line, n - 1);
    }
}

impl PPU {
    /// The colours of the 256 pixels of the current scanline, and whether sprite zero
    /// meets the background on it.
    fn scanline_colors(&self, vis: &Vec<Sprite>, tiles: &Vec<u8>) -> (r: (Vec<RGB>, bool))
        requires
            self.wf(),
            self.scanline < 240,
            vis@ == self.line_sprites(),
            tiles@.len() == 64,
            forall|i: int| 0 <= i < 32 ==> tiles@[2 * i] == (#[trigger] self.tile_planes(i)).0 && tiles@[2 * i + 1] == self.tile_planes(i).1,
        ensures
            r.0@.len() == 256,
            forall|x: int| 0 <= x < 256 ==> r.0@[x] == #[trigger] self.pixel(x),
            r.1 == self.line_zero_hit(),
    {
        proof {
            lemma_visible_on_line(self.oam@, self.scanline as int, 64);
        }
        let backdrop = self.color(PALETTE_BASE);
        let mut out: Vec<RGB> = Vec::new();
        let mut hit = false;
        let mut x: usize = 0;
        while x < 256
            invariant
                self.wf(),
                self.scanline < 240,
                vis@ == self.line_sprites(),
                forall|i: int| 0 <= i < vis@.len() ==> on_line(#[trigger] vis@[i], self.scanline as int),
                tiles@.len() == 64,
                forall|i: int| 0 <= i < 32 ==> tiles@[2 * i] == (#[trigger] self.tile_planes(i)).0 && tiles@[2 * i + 1] == self.tile_planes(i).1,
                backdrop == self.palette_color(PALETTE_BASE),
                x <= 256,
                out@.len() == x,
                forall|j: int| 0 <= j < x ==> out@[j] == #[trigger] self.pixel(j),
                hit == exists|j: int| 0 <= j < x && #[trigger] zero_hit(self.background_pixel(j), self.sprite_pixel(self.line_sprites(), j)),
            decreases 256 - x,
        {
            let bg = self.get_background_pixel(tiles, x as u8);
            let fg = self.get_sprite_pixel(vis, x as u8);
            let meets = match (bg, fg) {
                (Some(b), Some(p)) => b.opaque && p.sprite_zero,
                _ => false,
            };
            assert(meets == zero_hit(bg, fg));
            if meets {
                hit = true;
            }
            out.push(compose(bg, fg, backdrop));
            x = x + 1;
        }
        (out, hit)
    }

    fn set_pixel(&mut self, x: usize, y: usize, val: RGB)
        requires
            old(self).wf(),
            x < SCREEN_WIDTH,
            y < 240,
        ensures
            final(self).wf(),
            final(self).screen@ == old(self).screen@.update((y * 256 + x) * 3, val.b).update(
                (y * 256 + x) * 3 + 1,
                val.g,
            ).update((y * 256 + x) * 3 + 2, val.r),
            *final(self) == (PPU { screen: final(self).screen, ..*old(self) }),
    {
        let i = (y * SCREEN_WIDTH + x) * 3;
        self.screen.set(i, val.b);
        self.screen.set(i + 1, val.g);
        self.screen.set(i + 2, val.r);
    }

    fn set_sprite_zero_hit(&mut self)
        ensures
            *final(self) == (PPU { ppustatus: old(self).ppustatus | STATUS_SPRITE_ZERO_HIT, ..*old(self) }),
    {
        self.ppustatus = self.ppustatus | STATUS_SPRITE_ZERO_HIT;
    }

    fn set_sprite_overflow(&mut self, val: bool)
        ensures
            *final(self) == (PPU {
                ppustatus: if val {
                    old(self).ppustatus | STATUS_SPRITE_OVERFLOW
                } else {
                    old(self).ppustatus & !STATUS_SPRITE_OVERFLOW
                },
                ..*old(self)
            }),
    {
        if val {
            self.ppustatus = self.ppustatus | STATUS_SPRITE_OVERFLOW;
        } else {
            self.ppustatus = self.ppustatus & !STATUS_SPRITE_OVERFLOW;
        }
    }

    /// Draws the current scanline into the screen, and raises the sprite-overflow and
    /// sprite-zero-hit bits where the line calls for them.
    pub fn render_scanline(&mut self)
        requires
            old(self).wf(),
            old(self).scanline < 240,
        ensures
            final(self).wf(),
            final(self).row_rendered(*old(self)),
            final(self).ppustatus == old(self).ppustatus
                | (if sprites_on_line(old(self).oam@, old(self).scanline as int, 64) > 8 { STATUS_SPRITE_OVERFLOW } else { 0u8 })
                | (if old(self).line_zero_hit() { STATUS_SPRITE_ZERO_HIT } else { 0u8 }),
            *final(self) == (PPU { screen: final(self).screen, ppustatus: final(self).ppustatus, ..*old(self) }),
    {
        let (vis, overflow) = self.get_scanline_sprite_pixels();
        let tiles = self.get_scanline_background_pixels();
        let (row, hit) = self.scanline_colors(&vis, &tiles);
        let y = self.scanline as usize;
        let ghost start = *self;
        let mut x: usize = 0;
        while x < 256
            invariant
                self.wf(),
                y == start.scanline,
                y < 240,
                x <= 256,
                row@.len() == 256,
                forall|j: int| 0 <= j < 256 ==> row@[j] == #[trigger] start.pixel(j),
                *self == (PPU { screen: self.screen, ..start }),
                forall|i: int| 0 <= i < self.screen@.len() && !(y * 768 <= i < y * 768 + 3 * x)
                    ==> #[trigger] self.screen@[i] == start.screen@[i],
                forall|j: int| 0 <= j < x ==> {
                    let c = #[trigger] start.pixel(j);
                    &&& self.screen@[(y * 256 + j) * 3] == c.b
                    &&& self.screen@[(y * 256 + j) * 3 + 1] == c.g
                    &&& self.screen@[(y * 256 + j) * 3 + 2] == c.r
                },
            decreases 256 - x,
        {
            self.set_pixel(x, y, row[x]);
            x = x + 1;
        }
        let ghost drawn = *self;
        if overflow {
            self.set_sprite_overflow(true);
        }
        if hit {
            self.set_sprite_zero_hit();
        }
        assert(self.screen == drawn.screen);
        assert(self.ppustatus == start.ppustatus
                | (if overflow { STATUS_SPRITE_OVERFLOW } else { 0u8 })
                | (if hit { STATUS_SPRITE_ZERO_HIT } else { 0u8 })) by {
            let s = start.ppustatus;
            if overflow && hit {
                assert((s | 0x20u8) | 0x40u8 == (s | 0x20u8) | 0x40u8);
            } else if overflow {
                assert(s | 0x20u8 == (s | 0x20u8) | 0u8) by (bit_vector);
            } else if hit {
                assert(s | 0x40u8 == (s | 0u8) | 0x40u8) by (bit_vector);
            } else {
                assert(s == (s | 0u8) | 0u8) by (bit_vector);
            }
        }
    }
}

} // verus!
