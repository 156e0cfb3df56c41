use vstd::prelude::*;
use crate::bits::{ByteSelector, WriteTwice, lo, hi, with_lo, with_hi};
use crate::color::Color;

verus! {

/// A horizontal window: dots from `left` up to, not including, `right`.
#[derive(Copy, Clone, Debug, PartialEq, Eq, Structural)]
pub struct Window {
    pub left: u8,
    pub right: u8,
}

/// How two window masks combine.
#[derive(Copy, Clone, Debug, PartialEq, Eq, Structural)]
pub enum WindowMaskOperator {
    Or,
    And,
    Xor,
    Xnor,
}

/// Which windows mask a layer, each possibly inverted, and how they combine.
#[derive(Copy, Clone, Debug, PartialEq, Eq, Structural)]
pub struct WindowMask {
    pub w1_enabled: bool,
    pub w1_inverted: bool,
    pub w2_enabled: bool,
    pub w2_inverted: bool,
    pub operator: WindowMaskOperator,
}

pub open spec fn in_window(w: Window, x: int) -> bool {
    w.left <= x && x < w.right
}

pub open spec fn flip(value: bool, inverted: bool) -> bool {
    if inverted { !value } else { value }
}

/// Whether dot `x` is masked.
pub open spec fn masked(m: WindowMask, w1: Window, w2: Window, x: int) -> bool {
    let a = flip(in_window(w1, x), m.w1_inverted);
    let b = flip(in_window(w2, x), m.w2_inverted);
    if !m.w1_enabled && !m.w2_enabled {
        false
    } else if !m.w2_enabled {
        a
    } else if !m.w1_enabled {
        b
    } else {
        match m.operator {
            WindowMaskOperator::Or => a || b,
            WindowMaskOperator::And => a && b,
            WindowMaskOperator::Xor => a != b,
            WindowMaskOperator::Xnor => a == b,
        }
    }
}

impl Window {
    pub fn new() -> (r: Window)
        ensures
            r == (Window { left: 0, right: 0 }),
    {
        Window { left: 0, right: 0 }
    }

    pub fn set_left(&mut self, value: u8)
        ensures
            *final(self) == (Window { left: value, ..*old(self) }),
    {
        self.left = value;
    }

    pub fn set_right(&mut self, value: u8)
        ensures
            *final(self) == (Window { right: value, ..*old(self) }),
    {
        self.right = value;
    }

    pub fn contains(&self, x: usize) -> (r: bool)
        ensures
            r == in_window(*self, x as int),
    {
        x >= self.left as usize && x < self.right as usize
    }
}

impl WindowMask {
    pub fn new() -> (r: WindowMask)
        ensures
            !r.w1_enabled && !r.w2_enabled && !r.w1_inverted && !r.w2_inverted,
            r.operator == WindowMaskOperator::Or,
    {
        WindowMask {
            w1_enabled: false,
            w1_inverted: false,
            w2_enabled: false,
            w2_inverted: false,
            operator: WindowMaskOperator::Or,
        }
    }

    /// Bits 0-3: window 1 inverted, enabled; window 2 inverted, enabled.
    pub fn set_options(&mut self, value: u8)
        ensures
            *final(self) == (WindowMask {
                w1_inverted: value & 0x01 != 0,
                w1_enabled: value & 0x02 != 0,
                w2_inverted: value & 0x04 != 0,
                w2_enabled: value & 0x08 != 0,
                ..*old(self)
            }),
    {
        self.w1_inverted = value & 0x01 != 0;
        self.w1_enabled = value & 0x02 != 0;
        self.w2_inverted = value & 0x04 != 0;
        self.w2_enabled = value & 0x08 != 0;
    }

    /// Bits 0-1: OR, AND, XOR, XNOR.
    pub fn set_operator(&mut self, value: u8)
        ensures
            final(self).operator == match value & 0x03 {
                0 => WindowMaskOperator::Or,
                1 => WindowMaskOperator::And,
                2 => WindowMaskOperator::Xor,
                _ => WindowMaskOperator::Xnor,
            },
            *final(self) == (WindowMask { operator: final(self).operator, ..*old(self) }),
    {
        let v = value & 0x03;
        self.operator = if v == 0 {
            WindowMaskOperator::Or
        } else if v == 1 {
            WindowMaskOperator::And
        } else if v == 2 {
            WindowMaskOperator::Xor
        } else {
            WindowMaskOperator::Xnor
        };
    }

    pub fn contains(&self, window1: &Window, window2: &Window, x: usize) -> (r: bool)
        ensures
            r == masked(*self, *window1, *window2, x as int),
    {
        let a = if self.w1_inverted { !window1.contains(x) } else { window1.contains(x) };
        let b = if self.w2_inverted { !window2.contains(x) } else { window2.contains(x) };
        if !self.w1_enabled && !self.w2_enabled {
            false
        } else if !self.w2_enabled {
            a
        } else if !self.w1_enabled {
            b
        } else {
            match self.operator {
                WindowMaskOperator::Or => a || b,
                WindowMaskOperator::And => a && b,
                WindowMaskOperator::Xor => a != b,
                WindowMaskOperator::Xnor => a == b,
            }
        }
    }
}

/// The register settings of one background layer.
pub struct BackgroundLayer {
    pub main_screen_enabled: bool,
    pub sub_screen_enabled: bool,
    pub color_math_enabled: bool,
    pub tile_map_locations: [u16; 4],
    pub chr_4_offset: u32,
    pub chr_16_offset: u32,
    pub chr_256_offset: u32,
    pub scroll_x: WriteTwice,
    pub scroll_y: WriteTwice,
    pub window_mask: WindowMask,
}

/// The four tile maps of a layer: the base from bits 2-7 and the arrangement from bits 0-1
/// (32x32 AAAA, 64x32 ABAB, 32x64 AABB, 64x64 ABCD).
pub open spec fn tile_maps(value: u8) -> Seq<u16> {
    let b = ((value & 0xFC) >> 2) as u16;
    let size = value & 0x03;
    if size == 0 {
        seq![b, b, b, b]
    } else if size == 1 {
        seq![b, (b + 1) as u16, b, (b + 1) as u16]
    } else if size == 2 {
        seq![b, b, (b + 1) as u16, (b + 1) as u16]
    } else {
        seq![b, (b + 1) as u16, (b + 2) as u16, (b + 3) as u16]
    }
}

impl BackgroundLayer {
    pub fn new() -> (r: BackgroundLayer)
        ensures
            !r.main_screen_enabled && !r.sub_screen_enabled && !r.color_math_enabled,
            r.tile_map_locations@ == seq![0u16, 0u16, 0u16, 0u16],
            r.scroll_x.spec_value() == 0 && r.scroll_x.spec_mask() == 0x03FF,
            r.scroll_y.spec_value() == 0 && r.scroll_y.spec_mask() == 0x03FF,
    {
        BackgroundLayer {
            main_screen_enabled: false,
            sub_screen_enabled: false,
            color_math_enabled: false,
            tile_map_locations: [0, 0, 0, 0],
            chr_4_offset: 0,
            chr_16_offset: 0,
            chr_256_offset: 0,
            scroll_x: WriteTwice::new(0, 0x03FF),
            scroll_y: WriteTwice::new(0, 0x03FF),
            window_mask: WindowMask::new(),
        }
    }

    pub fn set_main_screen_enabled(&mut self, enabled: bool)
        ensures
            final(self).main_screen_enabled == enabled,
            final(self).sub_screen_enabled == old(self).sub_screen_enabled,
            final(self).color_math_enabled == old(self).color_math_enabled,
    {
        self.main_screen_enabled = enabled;
    }

    pub fn set_sub_screen_enabled(&mut self, enabled: bool)
        ensures
            final(self).sub_screen_enabled == enabled,
            final(self).main_screen_enabled == old(self).main_screen_enabled,
            final(self).color_math_enabled == old(self).color_math_enabled,
    {
        self.sub_screen_enabled = enabled;
    }

    pub fn set_color_math_enabled(&mut self, enabled: bool)
        ensures
            final(self).color_math_enabled == enabled,
            final(self).main_screen_enabled == old(self).main_screen_enabled,
            final(self).sub_screen_enabled == old(self).sub_screen_enabled,
    {
        self.color_math_enabled = enabled;
    }

    pub fn set_tile_map_locations(&mut self, value: u8)
        ensures
            final(self).tile_map_locations@ == tile_maps(value),
            *final(self) == (BackgroundLayer { tile_map_locations: final(self).tile_map_locations, ..*old(self) }),
    {
        assert((value & 0xFC) >> 2 < 64) by (bit_vector);
        let b = ((value & 0xFC) >> 2) as u16;
        let size = value & 0x03;
        self.tile_map_locations = if size == 0 {
            [b, b, b, b]
        } else if size == 1 {
            [b, b + 1, b, b + 1]
        } else if size == 2 {
            [b, b, b + 1, b + 1]
        } else {
            [b, b + 1, b + 2, b + 3]
        };
        assert(self.tile_map_locations@ =~= tile_maps(value));
    }

    /// The character base in units of 4-, 16- and 256-colour characters.
    pub fn set_chr_offset(&mut self, value: u8)
        ensures
            final(self).chr_4_offset == value as u32 * 512,
            final(self).chr_16_offset == value as u32 * 256,
            final(self).chr_256_offset == value as u32 * 128,
    {
        self.chr_4_offset = value as u32 * 512;
        self.chr_16_offset = value as u32 * 256;
        self.chr_256_offset = value as u32 * 128;
    }

    pub fn set_scroll_x(&mut self, value: u8)
        ensures
            final(self).scroll_y == old(self).scroll_y,
            final(self).scroll_x.spec_mask() == old(self).scroll_x.spec_mask(),
    {
        self.scroll_x.write(value);
    }

    pub fn set_scroll_y(&mut self, value: u8)
        ensures
            final(self).scroll_x == old(self).scroll_x,
            final(self).scroll_y.spec_mask() == old(self).scroll_y.spec_mask(),
    {
        self.scroll_y.write(value);
    }

    pub fn set_window_mask_options(&mut self, value: u8)
        ensures
            final(self).window_mask == (WindowMask {
                w1_inverted: value & 0x01 != 0,
                w1_enabled: value & 0x02 != 0,
                w2_inverted: value & 0x04 != 0,
                w2_enabled: value & 0x08 != 0,
                ..old(self).window_mask
            }),
    {
        self.window_mask.set_options(value);
    }

    pub fn set_window_mask_logic(&mut self, value: u8)
        ensures
            final(self).window_mask == (WindowMask { operator: final(self).window_mask.operator, ..old(self).window_mask }),
    {
        self.window_mask.set_operator(value);
    }
}

/// The register settings of the object (sprite) layer.
pub struct ObjectLayer {
    pub main_screen_enabled: bool,
    pub sub_screen_enabled: bool,
    pub color_math_enabled: bool,
    pub small_size: (u8, u8),
    pub large_size: (u8, u8),
    pub table_offsets: [u32; 2],
    pub window_mask: WindowMask,
}

/// The small and large object sizes that bits 5-7 of $2101 select.
pub open spec fn object_sizes(value: u8) -> ((u8, u8), (u8, u8)) {
    let s = value & 0xE0;
    if s == 0x00 {
        ((8, 8), (16, 16))
    } else if s == 0x20 {
        ((8, 8), (32, 32))
    } else if s == 0x40 {
        ((8, 8), (64, 64))
    } else if s == 0x60 {
        ((16, 16), (32, 32))
    } else if s == 0x80 {
        ((16, 16), (64, 64))
    } else if s == 0xA0 {
        ((32, 32), (64, 64))
    } else if s == 0xC0 {
        ((16, 32), (32, 64))
    } else {
        ((16, 32), (32, 32))
    }
}

impl ObjectLayer {
    pub fn new() -> (r: ObjectLayer)
        ensures
            !r.main_screen_enabled && !r.sub_screen_enabled && !r.color_math_enabled,
            r.small_size == (8u8, 8u8),
            r.large_size == (16u8, 16u8),
            r.table_offsets@ == seq![0u32, 256u32],
    {
        ObjectLayer {
            main_screen_enabled: false,
            sub_screen_enabled: false,
            color_math_enabled: false,
            small_size: (8, 8),
            large_size: (16, 16),
            table_offsets: [0, 256],
            window_mask: WindowMask::new(),
        }
    }

    pub fn set_main_screen_enabled(&mut self, enabled: bool)
        ensures
            final(self).main_screen_enabled == enabled,
            final(self).sub_screen_enabled == old(self).sub_screen_enabled,
    {
        self.main_screen_enabled = enabled;
    }

    pub fn set_sub_screen_enabled(&mut self, enabled: bool)
        ensures
            final(self).sub_screen_enabled == enabled,
            final(self).main_screen_enabled == old(self).main_screen_enabled,
    {
        self.sub_screen_enabled = enabled;
    }

    pub fn set_color_math_enabled(&mut self, enabled: bool)
        ensures
            final(self).color_math_enabled == enabled,
    {
        self.color_math_enabled = enabled;
    }

    /// $2101: name base (bits 0-2), name select (bits 3-4) and sizes (bits 5-7).
    pub fn set_config(&mut self, value: u8)
        ensures
            final(self).table_offsets@[0] == (value & 0x07) as u32 * 512,
            final(self).table_offsets@[1] == (value & 0x07) as u32 * 512 + (((value & 0x18) >> 3) as u32 + 1) * 256,
            (final(self).small_size, final(self).large_size) == object_sizes(value),
            *final(self) == (ObjectLayer {
                table_offsets: final(self).table_offsets,
                small_size: final(self).small_size,
                large_size: final(self).large_size,
                ..*old(self)
            }),
    {
        assert((value & 0x07) < 8 && ((value & 0x18) >> 3) < 4) by (bit_vector);
        let base = (value & 0x07) as u32 * 512;
        self.table_offsets[0] = base;
        self.table_offsets[1] = base + (((value & 0x18) >> 3) as u32 + 1) * 256;
        let s = value & 0xE0;
        let sizes: ((u8, u8), (u8, u8)) = if s == 0x00 {
            ((8, 8), (16, 16))
        } else if s == 0x20 {
            ((8, 8), (32, 32))
        } else if s == 0x40 {
            ((8, 8), (64, 64))
        } else if s == 0x60 {
            ((16, 16), (32, 32))
        } else if s == 0x80 {
            ((16, 16), (64, 64))
        } else if s == 0xA0 {
            ((32, 32), (64, 64))
        } else if s == 0xC0 {
            ((16, 32), (32, 64))
        } else {
            ((16, 32), (32, 32))
        };
        self.small_size = sizes.0;
        self.large_size = sizes.1;
    }
}

/// When colour math is prevented or clipped to black, relative to the colour window.
#[derive(Copy, Clone, Debug, PartialEq, Eq, Structural)]
pub enum ColorMathWindowOperator {
    Never,
    Outside,
    Inside,
    Always,
}

pub open spec fn window_operator(v: u8) -> ColorMathWindowOperator {
    if v == 0 {
        ColorMathWindowOperator::Never
    } else if v == 1 {
        ColorMathWindowOperator::Outside
    } else if v == 2 {
        ColorMathWindowOperator::Inside
    } else {
        ColorMathWindowOperator::Always
    }
}

fn to_window_operator(v: u8) -> (r: ColorMathWindowOperator)
    ensures
        r == window_operator(v),
{
    if v == 0 {
        ColorMathWindowOperator::Never
    } else if v == 1 {
        ColorMathWindowOperator::Outside
    } else if v == 2 {
        ColorMathWindowOperator::Inside
    } else {
        ColorMathWindowOperator::Always
    }
}

/// The colour math settings ($2125, $2130-$2132).
pub struct ColorMath {
    pub sub_screen_source: bool,
    pub prevent: ColorMathWindowOperator,
    pub clip_to_black: ColorMathWindowOperator,
    pub subtract: bool,
    pub divisor: u8,
    pub fixed_color: Color,
    pub window_mask: WindowMask,
}

impl ColorMath {
    pub fn new() -> (r: ColorMath)
        ensures
            !r.sub_screen_source && !r.subtract && r.divisor == 1,
            r.prevent == ColorMathWindowOperator::Never,
            r.clip_to_black == ColorMathWindowOperator::Never,
            r.fixed_color == (Color { red: 0, green: 0, blue: 0 }),
    {
        ColorMath {
            sub_screen_source: false,
            prevent: ColorMathWindowOperator::Never,
            clip_to_black: ColorMathWindowOperator::Never,
            subtract: false,
            divisor: 1,
            fixed_color: Color::new(0, 0, 0),
            window_mask: WindowMask::new(),
        }
    }

    /// $2130: bit 1 picks the sub screen as source; bits 4-5 and 6-7 the window operators.
    pub fn set_source(&mut self, value: u8)
        ensures
            final(self).sub_screen_source == (value & 0x02 == 0x02),
            final(self).prevent == window_operator((value & 0x30) >> 4),
            final(self).clip_to_black == window_operator((value & 0xC0) >> 6),
            final(self).subtract == old(self).subtract,
            final(self).fixed_color == old(self).fixed_color,
    {
        self.sub_screen_source = value & 0x02 == 0x02;
        self.prevent = to_window_operator((value & 0x30) >> 4);
        self.clip_to_black = to_window_operator((value & 0xC0) >> 6);
    }

    /// Bit 7 subtracts; bit 6 halves the result.
    pub fn set_operation(&mut self, value: u8)
        ensures
            final(self).subtract == (value & 0x80 == 0x80),
            final(self).divisor == if value & 0x40 == 0x40 { 2u8 } else { 1u8 },
            final(self).fixed_color == old(self).fixed_color,
    {
        self.subtract = value & 0x80 == 0x80;
        self.divisor = if value & 0x40 == 0x40 { 2 } else { 1 };
    }

    /// $2132: bits 5, 6 and 7 choose which channels take the intensity in bits 0-4.
    pub fn adjust_fixed_color(&mut self, value: u8)
        ensures
            final(self).fixed_color.red == if value & 0x20 != 0 { value & 0x1F } else { old(self).fixed_color.red },
            final(self).fixed_color.green == if value & 0x40 != 0 { value & 0x1F } else { old(self).fixed_color.green },
            final(self).fixed_color.blue == if value & 0x80 != 0 { value & 0x1F } else { old(self).fixed_color.blue },
            *final(self) == (ColorMath { fixed_color: final(self).fixed_color, ..*old(self) }),
    {
        if value & 0x20 != 0 {
            self.fixed_color.set_red(value & 0x1F);
        }
        if value & 0x40 != 0 {
            self.fixed_color.set_green(value & 0x1F);
        }
        if value & 0x80 != 0 {
            self.fixed_color.set_blue(value & 0x1F);
        }
    }

    pub fn set_window_mask_options(&mut self, value: u8)
        ensures
            final(self).window_mask == (WindowMask {
                w1_inverted: value & 0x01 != 0,
                w1_enabled: value & 0x02 != 0,
                w2_inverted: value & 0x04 != 0,
                w2_enabled: value & 0x08 != 0,
                ..old(self).window_mask
            }),
    {
        self.window_mask.set_options(value);
    }

    pub fn set_window_mask_logic(&mut self, value: u8)
        ensures
            final(self).window_mask == (WindowMask { operator: final(self).window_mask.operator, ..old(self).window_mask }),
    {
        self.window_mask.set_operator(value);
    }
}

/// Mode 7 scroll registers, written twice each as 13-bit signed values.
pub struct Mode7 {
    pub scroll_x_raw: WriteTwice,
    pub scroll_y_raw: WriteTwice,
    pub scroll_x: i16,
    pub scroll_y: i16,
}

/// A 13-bit two's-complement value.
pub open spec fn signed_13(raw: u16) -> int {
    if raw & 0x1000 != 0 { (raw & 0x0FFF) as int - 0x1000 } else { (raw & 0x0FFF) as int }
}

fn signed_scroll_value(raw: u16) -> (r: i16)
    ensures
        r as int == signed_13(raw),
{
    assert(raw & 0x0FFF <= 0x0FFF) by (bit_vector);
    let magnitude = (raw & 0x0FFF) as i16;
    if raw & 0x1000 != 0 {
        magnitude - 0x1000
    } else {
        magnitude
    }
}

impl Mode7 {
    pub fn new() -> (r: Mode7)
        ensures
            r.scroll_x == 0 && r.scroll_y == 0,
            r.scroll_x_raw.spec_mask() == 0x1FFF,
            r.scroll_y_raw.spec_mask() == 0x1FFF,
    {
        Mode7 {
            scroll_x_raw: WriteTwice::new(0, 0x1FFF),
            scroll_y_raw: WriteTwice::new(0, 0x1FFF),
            scroll_x: 0,
            scroll_y: 0,
        }
    }

    pub fn set_scroll_x(&mut self, value: u8)
        ensures
            final(self).scroll_x as int == signed_13(final(self).scroll_x_raw.spec_value()),
            final(self).scroll_y == old(self).scroll_y,
            final(self).scroll_y_raw == old(self).scroll_y_raw,
            final(self).scroll_x_raw.spec_mask() == old(self).scroll_x_raw.spec_mask(),
            old(self).scroll_x_raw.spec_selector() == ByteSelector::Lower ==> final(self).scroll_x_raw.spec_value() == with_lo(
                old(self).scroll_x_raw.spec_value(),
                value & lo(old(self).scroll_x_raw.spec_mask()),
            ) && final(self).scroll_x_raw.spec_selector() == ByteSelector::Upper,
            old(self).scroll_x_raw.spec_selector() == ByteSelector::Upper ==> final(self).scroll_x_raw.spec_value() == with_hi(
                old(self).scroll_x_raw.spec_value(),
                value & hi(old(self).scroll_x_raw.spec_mask()),
            ) && final(self).scroll_x_raw.spec_selector() == ByteSelector::Lower,
    {
        self.scroll_x_raw.write(value);
        self.scroll_x = signed_scroll_value(self.scroll_x_raw.value());
    }

    pub fn set_scroll_y(&mut self, value: u8)
        ensures
            final(self).scroll_y as int == signed_13(final(self).scroll_y_raw.spec_value()),
            final(self).scroll_x == old(self).scroll_x,
            final(self).scroll_x_raw == old(self).scroll_x_raw,
            final(self).scroll_y_raw.spec_mask() == old(self).scroll_y_raw.spec_mask(),
            old(self).scroll_y_raw.spec_selector() == ByteSelector::Lower ==> final(self).scroll_y_raw.spec_value() == with_lo(
                old(self).scroll_y_raw.spec_value(),
                value & lo(old(self).scroll_y_raw.spec_mask()),
            ) && final(self).scroll_y_raw.spec_selector() == ByteSelector::Upper,
            old(self).scroll_y_raw.spec_selector() == ByteSelector::Upper ==> final(self).scroll_y_raw.spec_value() == with_hi(
                old(self).scroll_y_raw.spec_value(),
                value & hi(old(self).scroll_y_raw.spec_mask()),
            ) && final(self).scroll_y_raw.spec_selector() == ByteSelector::Lower,
    {
        self.scroll_y_raw.write(value);
        self.scroll_y = signed_scroll_value(self.scroll_y_raw.value());
    }
}

/// The settings that shape the picture: background mode, layers, windows, colour math.
pub struct Layers {
    background_mode: u8,
    mode_7_ext: bool,
    bg1: BackgroundLayer,
    bg2: BackgroundLayer,
    bg3: BackgroundLayer,
    bg4: BackgroundLayer,
    mode_7: Mode7,
    object_layer: ObjectLayer,
    window1: Window,
    window2: Window,
    color_math: ColorMath,
    backdrop_color_math_enabled: bool,
}

impl Layers {
    pub closed spec fn spec_background_mode(&self) -> u8 {
        self.background_mode
    }

    pub fn background_mode(&self) -> (r: u8)
        ensures
            r == self.spec_background_mode(),
    {
        self.background_mode
    }

    pub closed spec fn spec_mode_7_ext(&self) -> bool {
        self.mode_7_ext
    }

    pub closed spec fn spec_window1(&self) -> Window {
        self.window1
    }

    pub closed spec fn spec_window2(&self) -> Window {
        self.window2
    }

    pub fn mode_7_ext(&self) -> (r: bool)
        ensures
            r == self.spec_mode_7_ext(),
    {
        self.mode_7_ext
    }

    pub fn set_mode_7_ext(&mut self, enabled: bool)
        ensures
            final(self).spec_mode_7_ext() == enabled,
            final(self).spec_background_mode() == old(self).spec_background_mode(),
    {
        self.mode_7_ext = enabled;
    }

    pub fn window1(&self) -> (r: Window)
        ensures
            r == self.spec_window1(),
    {
        self.window1
    }

    pub fn window2(&self) -> (r: Window)
        ensures
            r == self.spec_window2(),
    {
        self.window2
    }

    pub fn new() -> (r: Layers)
        ensures
            r.spec_background_mode() == 0,
            !r.spec_mode_7_ext(),
            r.spec_window1() == (Window { left: 0, right: 0 }),
            r.spec_window2() == (Window { left: 0, right: 0 }),
    {
        Layers {
            background_mode: 0,
            mode_7_ext: false,
            bg1: BackgroundLayer::new(),
            bg2: BackgroundLayer::new(),
            bg3: BackgroundLayer::new(),
            bg4: BackgroundLayer::new(),
            mode_7: Mode7::new(),
            object_layer: ObjectLayer::new(),
            window1: Window::new(),
            window2: Window::new(),
            color_math: ColorMath::new(),
            backdrop_color_math_enabled: false,
        }
    }

    /// Writes $21xx at `offset` where it holds a picture setting.
    pub fn write(&mut self, offset: usize, value: u8)
        ensures
            offset == 0x05 ==> final(self).spec_background_mode() == value & 0x0F,
            offset == 0x26 ==> final(self).spec_window1().left == value,
            offset == 0x27 ==> final(self).spec_window1().right == value,
            offset == 0x28 ==> final(self).spec_window2().left == value,
            offset == 0x29 ==> final(self).spec_window2().right == value,
    {
        if offset == 0x01 {
            self.object_layer.set_config(value);
        } else if offset == 0x05 {
            self.background_mode = value & 0x0F;
        } else if offset == 0x07 {
            self.bg1.set_tile_map_locations(value);
        } else if offset == 0x08 {
            self.bg2.set_tile_map_locations(value);
        } else if offset == 0x09 {
            self.bg3.set_tile_map_locations(value);
        } else if offset == 0x0A {
            self.bg4.set_tile_map_locations(value);
        } else if offset == 0x0B {
            self.bg1.set_chr_offset(value & 0x0F);
            self.bg2.set_chr_offset((value & 0xF0) >> 4);
        } else if offset == 0x0C {
            self.bg3.set_chr_offset(value & 0x0F);
            self.bg4.set_chr_offset((value & 0xF0) >> 4);
        } else if offset == 0x0D {
            self.bg1.set_scroll_x(value);
            self.mode_7.set_scroll_x(value);
        } else if offset == 0x0E {
            self.bg1.set_scroll_y(value);
            self.mode_7.set_scroll_y(value);
        } else if offset == 0x0F {
            self.bg2.set_scroll_x(value);
        } else if offset == 0x10 {
            self.bg2.set_scroll_y(value);
        } else if offset == 0x11 {
            self.bg3.set_scroll_x(value);
        } else if offset == 0x12 {
            self.bg3.set_scroll_y(value);
        } else if offset == 0x13 {
            self.bg4.set_scroll_x(value);
        } else if offset == 0x14 {
            self.bg4.set_scroll_y(value);
        } else if offset == 0x23 {
            self.bg1.set_window_mask_options(value & 0x0F);
            self.bg2.set_window_mask_options((value & 0xF0) >> 4);
        } else if offset == 0x24 {
            self.bg3.set_window_mask_options(value & 0x0F);
            self.bg4.set_window_mask_options((value & 0xF0) >> 4);
        } else if offset == 0x25 {
            self.object_layer.window_mask.set_options(value & 0x0F);
            self.color_math.set_window_mask_options((value & 0xF0) >> 4);
        } else if offset == 0x26 {
            self.window1.set_left(value);
        } else if offset == 0x27 {
            self.window1.set_right(value);
        } else if offset == 0x28 {
            self.window2.set_left(value);
        } else if offset == 0x29 {
            self.window2.set_right(value);
        } else if offset == 0x2A {
            self.bg1.set_window_mask_logic(value & 0x03);
            self.bg2.set_window_mask_logic((value & 0x0C) >> 2);
            self.bg3.set_window_mask_logic((value & 0x30) >> 4);
            self.bg4.set_window_mask_logic((value & 0xC0) >> 6);
        } else if offset == 0x2B {
            self.object_layer.window_mask.set_operator(value & 0x03);
            self.color_math.set_window_mask_logic((value & 0x0C) >> 2);
        } else if offset == 0x2C {
            self.bg1.set_main_screen_enabled(value & 0x01 != 0);
            self.bg2.set_main_screen_enabled(value & 0x02 != 0);
            self.bg3.set_main_screen_enabled(value & 0x04 != 0);
            self.bg4.set_main_screen_enabled(value & 0x08 != 0);
            self.object_layer.set_main_screen_enabled(value & 0x10 != 0);
        } else if offset == 0x2D {
            self.bg1.set_sub_screen_enabled(value & 0x01 != 0);
            self.bg2.set_sub_screen_enabled(value & 0x02 != 0);
            self.bg3.set_sub_screen_enabled(value & 0x04 != 0);
            self.bg4.set_sub_screen_enabled(value & 0x08 != 0);
            self.object_layer.set_sub_screen_enabled(value & 0x10 != 0);
        } else if offset == 0x30 {
            self.color_math.set_source(value);
        } else if offset == 0x31 {
            self.bg1.set_color_math_enabled(value & 0x01 != 0);
            self.bg2.set_color_math_enabled(value & 0x02 != 0);
            self.bg3.set_color_math_enabled(value & 0x04 != 0);
            self.bg4.set_color_math_enabled(value & 0x08 != 0);
            self.object_layer.set_color_math_enabled(value & 0x10 != 0);
            self.backdrop_color_math_enabled = value & 0x20 != 0;
            self.color_math.set_operation(value & 0xC0);
        } else if offset == 0x32 {
            self.color_math.adjust_fixed_color(value);
        }
    }
}

} // verus!
