//! Colour themes.
//!
//! A theme is three colours — a background, a foreground, and an accent — plus
//! whether it is a light or a dark design. Everything else the desktop toolkit
//! needs (card backgrounds, header bars, popovers, the colour of text on an
//! accent button) is derived from those three by mixing, so adding a theme
//! means adding one line to the table rather than hand-picking a dozen shades.
//!
//! The output is a stylesheet of `@define-color` overrides for the toolkit's
//! named colours, so every adaptive widget follows the theme without knowing
//! it exists.
//!
//! Colour arithmetic is exact: a mixing amount is given in thousandths, and
//! brightness is the sRGB luma with its weights in ten-thousandths, so every
//! channel is computed with integers and rounded half away from zero.

use vstd::prelude::*;

use crate::text::same_text;

verus! {

/// How far raised surfaces sit from the window background, in thousandths of
/// the way towards the foreground.
pub const HEADERBAR_LIFT: u16 = 40;
pub const CARD_LIFT: u16 = 70;
pub const VIEW_LIFT: u16 = 20;
pub const POPOVER_LIFT: u16 = 90;

/// How far the accent is pushed towards white on a dark theme, and towards
/// black on a light one, to stay legible as text.
pub const ACCENT_LIGHTEN: u16 = 200;
pub const ACCENT_DARKEN: u16 = 150;

/// Luma above which black text reads better than white: a brightness of 0.55.
pub const READABLE_TEXT_LUMA: u32 = 1402500;

/// Luma above which a foreground counts as light: a brightness of 0.5.
pub const LIGHT_FOREGROUND_LUMA: u32 = 1275000;

/// Luma of pure white: a brightness of 1.
pub const WHITE_LUMA: u32 = 2550000;

/// Identifier of the theme that follows the desktop.
///
/// This is `"default"` rather than `"system"` because that is the value
/// already written to existing config files.
pub const DEFAULT_THEME_ID: &'static str = "default";

/// Number of selectable themes.
pub const THEME_COUNT: usize = 57;

/// A 24-bit colour.
#[derive(Debug, Clone, Copy, PartialEq, Eq, Structural)]
pub struct Rgb {
    pub red: u8,
    pub green: u8,
    pub blue: u8,
}

/// A lowercase hexadecimal digit.
pub open spec fn hex_digit(d: nat) -> char {
    if d == 0 {
        '0'
    } else if d == 1 {
        '1'
    } else if d == 2 {
        '2'
    } else if d == 3 {
        '3'
    } else if d == 4 {
        '4'
    } else if d == 5 {
        '5'
    } else if d == 6 {
        '6'
    } else if d == 7 {
        '7'
    } else if d == 8 {
        '8'
    } else if d == 9 {
        '9'
    } else if d == 10 {
        'a'
    } else if d == 11 {
        'b'
    } else if d == 12 {
        'c'
    } else if d == 13 {
        'd'
    } else if d == 14 {
        'e'
    } else {
        'f'
    }
}

/// A channel as two lowercase hexadecimal digits.
pub open spec fn hex_pair(channel: u8) -> Seq<char> {
    seq![hex_digit((channel / 16) as nat), hex_digit((channel % 16) as nat)]
}

/// A colour written the way CSS writes it, for example `#1e1e2e`.
pub open spec fn css_hex(color: Rgb) -> Seq<char> {
    seq!['#'] + hex_pair(color.red) + hex_pair(color.green) + hex_pair(color.blue)
}

/// One channel blended `permille` thousandths of the way from `from` to `to`
/// (at most the whole way), rounded half away from zero.
pub open spec fn mix_channel(from: u8, to: u8, permille: u16) -> u8 {
    let amount: int = if permille > 1000 {
        1000
    } else {
        permille as int
    };
    ((2 * (from * (1000 - amount) + to * amount) + 1000) / 2000) as u8
}

/// Append the hexadecimal digit `d` to `out`.
fn push_hex_digit(out: &mut String, d: u8)
    requires
        d < 16,
    ensures
        final(out)@ == old(out)@.push(hex_digit(d as nat)),
{
    proof {
        reveal_strlit("0");
        reveal_strlit("1");
        reveal_strlit("2");
        reveal_strlit("3");
        reveal_strlit("4");
        reveal_strlit("5");
        reveal_strlit("6");
        reveal_strlit("7");
        reveal_strlit("8");
        reveal_strlit("9");
        reveal_strlit("a");
        reveal_strlit("b");
        reveal_strlit("c");
        reveal_strlit("d");
        reveal_strlit("e");
        reveal_strlit("f");
    }
    let digit = if d == 0 {
        "0"
    } else if d == 1 {
        "1"
    } else if d == 2 {
        "2"
    } else if d == 3 {
        "3"
    } else if d == 4 {
        "4"
    } else if d == 5 {
        "5"
    } else if d == 6 {
        "6"
    } else if d == 7 {
        "7"
    } else if d == 8 {
        "8"
    } else if d == 9 {
        "9"
    } else if d == 10 {
        "a"
    } else if d == 11 {
        "b"
    } else if d == 12 {
        "c"
    } else if d == 13 {
        "d"
    } else if d == 14 {
        "e"
    } else {
        "f"
    };
    out.append(digit);
    assert(final(out)@ =~= old(out)@.push(hex_digit(d as nat)));
}

/// Append a channel as two hexadecimal digits.
fn push_hex_pair(out: &mut String, channel: u8)
    ensures
        final(out)@ == old(out)@ + hex_pair(channel),
{
    push_hex_digit(out, channel / 16);
    push_hex_digit(out, channel % 16);
    assert(final(out)@ =~= old(out)@ + hex_pair(channel));
}

/// One channel of a blend.
fn blend(from: u8, to: u8, permille: u16) -> (mixed: u8)
    ensures
        mixed == mix_channel(from, to, permille),
{
    let amount: u32 = if permille > 1000 {
        1000
    } else {
        permille as u32
    };
    let f = from as u32;
    let t = to as u32;
    assert(f * (1000 - amount) <= 255 * 1000) by (nonlinear_arith)
        requires
            f <= 255,
            amount <= 1000,
    ;
    assert(t * amount <= 255 * 1000) by (nonlinear_arith)
        requires
            t <= 255,
            amount <= 1000,
    ;
    assert(f * (1000 - amount) + t * amount <= 255 * 1000) by (nonlinear_arith)
        requires
            f <= 255,
            t <= 255,
            amount <= 1000,
    ;
    let total = f * (1000 - amount) + t * amount;
    ((2 * total + 1000) / 2000) as u8
}

impl Rgb {
    /// The colour of a hex literal, written the way CSS writes it:
    /// `Rgb::hex(0x1e1e2e)`.
    pub open spec fn spec_hex(value: u32) -> Rgb {
        Rgb {
            red: ((value >> 16u32) & 0xffu32) as u8,
            green: ((value >> 8u32) & 0xffu32) as u8,
            blue: (value & 0xffu32) as u8,
        }
    }

    /// Build a colour from a hex literal: `Rgb::hex(0x1e1e2e)`.
    #[verifier::when_used_as_spec(spec_hex)]
    pub fn hex(value: u32) -> (color: Rgb)
        ensures
            color == Rgb::spec_hex(value),
    {
        Rgb {
            red: ((value >> 16u32) & 0xffu32) as u8,
            green: ((value >> 8u32) & 0xffu32) as u8,
            blue: (value & 0xffu32) as u8,
        }
    }

    /// CSS representation, for example `#1e1e2e`.
    pub fn to_css(self) -> (css: String)
        ensures
            css@ == css_hex(self),
    {
        let mut css = String::from_str("#");
        proof {
            reveal_strlit("#");
        }
        push_hex_pair(&mut css, self.red);
        push_hex_pair(&mut css, self.green);
        push_hex_pair(&mut css, self.blue);
        assert(css@ =~= css_hex(self));
        css
    }

    /// Blend `permille` thousandths of the way towards another colour: 0 is
    /// unchanged and 1000 (or more) is fully the other colour.
    pub open spec fn spec_mix(self, other: Rgb, permille: u16) -> Rgb {
        Rgb {
            red: mix_channel(self.red, other.red, permille),
            green: mix_channel(self.green, other.green, permille),
            blue: mix_channel(self.blue, other.blue, permille),
        }
    }

    /// Blend towards another colour.
    #[verifier::when_used_as_spec(spec_mix)]
    pub fn mix(self, other: Rgb, permille: u16) -> (mixed: Rgb)
        ensures
            mixed == self.spec_mix(other, permille),
    {
        Rgb {
            red: blend(self.red, other.red, permille),
            green: blend(self.green, other.green, permille),
            blue: blend(self.blue, other.blue, permille),
        }
    }

    /// Perceived brightness in ten-thousandths of a channel step: the sRGB
    /// luma weights applied to the channels, so 0 is black and
    /// `WHITE_LUMA` is white.
    ///
    /// Human eyes are far more sensitive to green than to blue, so a plain
    /// average of the channels would call yellow and blue equally bright.
    pub open spec fn spec_luma(self) -> u32 {
        (2126 * self.red + 7152 * self.green + 722 * self.blue) as u32
    }

    /// Perceived brightness.
    #[verifier::when_used_as_spec(spec_luma)]
    pub fn luma(self) -> (luma: u32)
        ensures
            luma == self.spec_luma(),
    {
        2126 * self.red as u32 + 7152 * self.green as u32 + 722 * self.blue as u32
    }

    /// Black or white, whichever stays readable on top of this colour.
    pub open spec fn spec_readable_text(self) -> Rgb {
        if self.spec_luma() > READABLE_TEXT_LUMA {
            Rgb::spec_hex(0x000000)
        } else {
            Rgb::spec_hex(0xffffff)
        }
    }

    /// Black or white, whichever stays readable on top of this colour.
    #[verifier::when_used_as_spec(spec_readable_text)]
    pub fn readable_text(self) -> (text: Rgb)
        ensures
            text == self.spec_readable_text(),
    {
        if self.luma() > READABLE_TEXT_LUMA {
            Rgb::hex(0x000000)
        } else {
            Rgb::hex(0xffffff)
        }
    }
}

/// Whether a theme is a light or dark design, or defers to the desktop.
#[derive(Debug, Clone, Copy, PartialEq, Eq, Structural)]
pub enum Variant {
    /// Follow the desktop's light/dark preference.
    System,
    Light,
    Dark,
}

/// The three colours a theme is built from.
#[derive(Debug, Clone, Copy, PartialEq, Eq, Structural)]
pub struct Palette {
    /// Window background.
    pub background: Rgb,
    /// Primary text.
    pub foreground: Rgb,
    /// Accent used for buttons, switches and selections.
    pub accent: Rgb,
}

/// A selectable theme.
#[derive(Debug, Clone, Copy)]
pub struct Theme {
    /// Stable identifier written to the config file. Never change these.
    pub id: &'static str,
    /// Name shown in Settings.
    pub name: &'static str,
    pub variant: Variant,
    /// `None` means "use the toolkit's own colours", so the built-in entries
    /// do not need a palette.
    pub palette: Option<Palette>,
}

/// One line of the stylesheet, defining the named colour `name`.
pub open spec fn css_line(name: Seq<char>, color: Rgb) -> Seq<char> {
    "@define-color "@ + name + " "@ + css_hex(color) + ";\n"@
}

/// The stylesheet a palette produces.
///
/// Cards, header bars and popovers are the background nudged a fixed amount
/// towards the foreground. Text on an accent-filled button has to contrast
/// with the accent, so it is chosen from the accent's own brightness. The
/// standalone accent, used for text and icons, has to be legible against the
/// window, so on a dark theme it is lightened and on a light theme darkened.
pub open spec fn palette_css(palette: Palette) -> Seq<char> {
    let background = palette.background;
    let foreground = palette.foreground;
    let accent = palette.accent;
    let headerbar = background.spec_mix(foreground, HEADERBAR_LIFT);
    let view = background.spec_mix(foreground, VIEW_LIFT);
    let card = background.spec_mix(foreground, CARD_LIFT);
    let popover = background.spec_mix(foreground, POPOVER_LIFT);
    let on_accent = accent.spec_readable_text();
    let accent_text = if foreground.spec_luma() > LIGHT_FOREGROUND_LUMA {
        accent.spec_mix(Rgb::spec_hex(0xffffff), ACCENT_LIGHTEN)
    } else {
        accent.spec_mix(Rgb::spec_hex(0x000000), ACCENT_DARKEN)
    };
    css_line("window_bg_color"@, background) + css_line("window_fg_color"@, foreground)
        + css_line("view_bg_color"@, view) + css_line("view_fg_color"@, foreground) + css_line(
        "headerbar_bg_color"@,
        headerbar,
    ) + css_line("headerbar_fg_color"@, foreground) + css_line(
        "headerbar_border_color"@,
        foreground,
    ) + css_line("headerbar_backdrop_color"@, background) + css_line(
        "sidebar_bg_color"@,
        headerbar,
    ) + css_line("sidebar_fg_color"@, foreground) + css_line(
        "sidebar_backdrop_color"@,
        background,
    ) + css_line("secondary_sidebar_bg_color"@, headerbar) + css_line(
        "secondary_sidebar_fg_color"@,
        foreground,
    ) + css_line("card_bg_color"@, card) + css_line("card_fg_color"@, foreground) + css_line(
        "dialog_bg_color"@,
        popover,
    ) + css_line("dialog_fg_color"@, foreground) + css_line("popover_bg_color"@, popover)
        + css_line("popover_fg_color"@, foreground) + css_line("accent_bg_color"@, accent)
        + css_line("accent_fg_color"@, on_accent) + css_line("accent_color"@, accent_text)
}

/// Whether `css` holds the line that defines the colour `name` as `color`.
pub open spec fn defines(css: Seq<char>, name: Seq<char>, color: Rgb) -> bool {
    exists|i: int|
        0 <= i && i + css_line(name, color).len() <= css.len() && #[trigger] css.subrange(
            i,
            i + css_line(name, color).len(),
        ) == css_line(name, color)
}

/// Whether channel `c` is `lift` thousandths of the way from `from` towards
/// `to`, to the nearest step: it lies between the two, within half a step of
/// the exact point.
pub open spec fn lifted_channel(from: u8, to: u8, lift: int, c: u8) -> bool {
    &&& from <= to ==> from <= c <= to
    &&& to <= from ==> to <= c <= from
    &&& -500 <= c * 1000 - (from * 1000 + lift * (to - from)) <= 500
}

/// Whether `surface` is `background` moved `lift` thousandths of the way
/// towards `foreground`, channel by channel.
pub open spec fn lifted_surface(background: Rgb, foreground: Rgb, lift: int, surface: Rgb) -> bool {
    &&& lifted_channel(background.red, foreground.red, lift, surface.red)
    &&& lifted_channel(background.green, foreground.green, lift, surface.green)
    &&& lifted_channel(background.blue, foreground.blue, lift, surface.blue)
}

/// A line at the end of a stylesheet is in it.
proof fn lemma_line_at_end(before: Seq<char>, name: Seq<char>, color: Rgb)
    ensures
        defines(before + css_line(name, color), name, color),
{
    let line = css_line(name, color);
    let css = before + line;
    assert(css.subrange(before.len() as int, (before.len() + line.len()) as int) =~= line);
}

/// A line in a stylesheet stays in it when more lines follow.
proof fn lemma_defines_extend(css: Seq<char>, more: Seq<char>, name: Seq<char>, color: Rgb)
    requires
        defines(css, name, color),
    ensures
        defines(css + more, name, color),
{
    let line = css_line(name, color);
    let i = choose|i: int|
        0 <= i && i + line.len() <= css.len() && #[trigger] css.subrange(i, i + line.len())
            == line;
    assert((css + more).subrange(i, i + line.len()) =~= css.subrange(i, i + line.len()));
}

/// Mixing `permille` of the way lands within half a step of the exact point.
proof fn lemma_mix_lifts(from: u8, to: u8, permille: u16)
    requires
        permille <= 1000,
    ensures
        lifted_channel(from, to, permille as int, mix_channel(from, to, permille)),
{
    mixing_moves_towards_the_other_colour(from, to, permille);
    let amount = permille as int;
    let total: int = from * (1000 - amount) + to * amount;
    assert(0 <= total <= 255000) by (nonlinear_arith)
        requires
            total == from * (1000 - amount) + to * amount,
            0 <= amount <= 1000,
            0 <= from <= 255,
            0 <= to <= 255,
    ;
    assert(total == from * 1000 + amount * (to - from)) by (nonlinear_arith)
        requires
            total == from * (1000 - amount) + to * amount,
    ;
    let q = (2 * total + 1000) / 2000;
    vstd::arithmetic::div_mod::lemma_fundamental_div_mod(2 * total + 1000, 2000);
    assert(0 <= q <= 255);
    assert(mix_channel(from, to, permille) == q);
}

/// Window surfaces are the background raised towards the foreground by their
/// fixed lifts: the view by `VIEW_LIFT`, header bars by `HEADERBAR_LIFT`,
/// cards by `CARD_LIFT` and popovers by `POPOVER_LIFT` thousandths, each
/// channel between the background's and the foreground's, so text in the
/// foreground colour stays readable on every one of them.
pub proof fn raised_surfaces_lift_the_background(palette: Palette)
    ensures
        exists|surface: Rgb|
            #![trigger defines(palette_css(palette), "view_bg_color"@, surface)]
            defines(palette_css(palette), "view_bg_color"@, surface) && lifted_surface(
                palette.background,
                palette.foreground,
                VIEW_LIFT as int,
                surface,
            ),
        exists|surface: Rgb|
            #![trigger defines(palette_css(palette), "headerbar_bg_color"@, surface)]
            defines(palette_css(palette), "headerbar_bg_color"@, surface) && lifted_surface(
                palette.background,
                palette.foreground,
                HEADERBAR_LIFT as int,
                surface,
            ),
        exists|surface: Rgb|
            #![trigger defines(palette_css(palette), "card_bg_color"@, surface)]
            defines(palette_css(palette), "card_bg_color"@, surface) && lifted_surface(
                palette.background,
                palette.foreground,
                CARD_LIFT as int,
                surface,
            ),
        exists|surface: Rgb|
            #![trigger defines(palette_css(palette), "popover_bg_color"@, surface)]
            defines(palette_css(palette), "popover_bg_color"@, surface) && lifted_surface(
                palette.background,
                palette.foreground,
                POPOVER_LIFT as int,
                surface,
            ),
{
    let background = palette.background;
    let foreground = palette.foreground;
    let accent = palette.accent;
    let headerbar_surface = background.spec_mix(foreground, HEADERBAR_LIFT);
    let view_surface = background.spec_mix(foreground, VIEW_LIFT);
    let card_surface = background.spec_mix(foreground, CARD_LIFT);
    let popover_surface = background.spec_mix(foreground, POPOVER_LIFT);
    let on_accent = accent.spec_readable_text();
    let accent_text = if foreground.spec_luma() > LIGHT_FOREGROUND_LUMA {
        accent.spec_mix(Rgb::spec_hex(0xffffff), ACCENT_LIGHTEN)
    } else {
        accent.spec_mix(Rgb::spec_hex(0x000000), ACCENT_DARKEN)
    };
    let l0 = css_line("window_bg_color"@, background);
    let l1 = css_line("window_fg_color"@, foreground);
    let l2 = css_line("view_bg_color"@, view_surface);
    let l3 = css_line("view_fg_color"@, foreground);
    let l4 = css_line("headerbar_bg_color"@, headerbar_surface);
    let l5 = css_line("headerbar_fg_color"@, foreground);
    let l6 = css_line("headerbar_border_color"@, foreground);
    let l7 = css_line("headerbar_backdrop_color"@, background);
    let l8 = css_line("sidebar_bg_color"@, headerbar_surface);
    let l9 = css_line("sidebar_fg_color"@, foreground);
    let l10 = css_line("sidebar_backdrop_color"@, background);
    let l11 = css_line("secondary_sidebar_bg_color"@, headerbar_surface);
    let l12 = css_line("secondary_sidebar_fg_color"@, foreground);
    let l13 = css_line("card_bg_color"@, card_surface);
    let l14 = css_line("card_fg_color"@, foreground);
    let l15 = css_line("dialog_bg_color"@, popover_surface);
    let l16 = css_line("dialog_fg_color"@, foreground);
    let l17 = css_line("popover_bg_color"@, popover_surface);
    let l18 = css_line("popover_fg_color"@, foreground);
    let l19 = css_line("accent_bg_color"@, accent);
    let l20 = css_line("accent_fg_color"@, on_accent);
    let l21 = css_line("accent_color"@, accent_text);
    let x0 = l0;
    let x1 = x0 + l1;
    let x2 = x1 + l2;
    let x3 = x2 + l3;
    let x4 = x3 + l4;
    let x5 = x4 + l5;
    let x6 = x5 + l6;
    let x7 = x6 + l7;
    let x8 = x7 + l8;
    let x9 = x8 + l9;
    let x10 = x9 + l10;
    let x11 = x10 + l11;
    let x12 = x11 + l12;
    let x13 = x12 + l13;
    let x14 = x13 + l14;
    let x15 = x14 + l15;
    let x16 = x15 + l16;
    let x17 = x16 + l17;
    let x18 = x17 + l18;
    let x19 = x18 + l19;
    let x20 = x19 + l20;
    let x21 = x20 + l21;
    assert(palette_css(palette) == x21);
    lemma_line_at_end(x1, "view_bg_color"@, view_surface);
    lemma_defines_extend(x2, l3, "view_bg_color"@, view_surface);
    lemma_defines_extend(x3, l4, "view_bg_color"@, view_surface);
    lemma_defines_extend(x4, l5, "view_bg_color"@, view_surface);
    lemma_defines_extend(x5, l6, "view_bg_color"@, view_surface);
    lemma_defines_extend(x6, l7, "view_bg_color"@, view_surface);
    lemma_defines_extend(x7, l8, "view_bg_color"@, view_surface);
    lemma_defines_extend(x8, l9, "view_bg_color"@, view_surface);
    lemma_defines_extend(x9, l10, "view_bg_color"@, view_surface);
    lemma_defines_extend(x10, l11, "view_bg_color"@, view_surface);
    lemma_defines_extend(x11, l12, "view_bg_color"@, view_surface);
    lemma_defines_extend(x12, l13, "view_bg_color"@, view_surface);
    lemma_defines_extend(x13, l14, "view_bg_color"@, view_surface);
    lemma_defines_extend(x14, l15, "view_bg_color"@, view_surface);
    lemma_defines_extend(x15, l16, "view_bg_color"@, view_surface);
    lemma_defines_extend(x16, l17, "view_bg_color"@, view_surface);
    lemma_defines_extend(x17, l18, "view_bg_color"@, view_surface);
    lemma_defines_extend(x18, l19, "view_bg_color"@, view_surface);
    lemma_defines_extend(x19, l20, "view_bg_color"@, view_surface);
    lemma_defines_extend(x20, l21, "view_bg_color"@, view_surface);
    lemma_mix_lifts(background.red, foreground.red, VIEW_LIFT);
    lemma_mix_lifts(background.green, foreground.green, VIEW_LIFT);
    lemma_mix_lifts(background.blue, foreground.blue, VIEW_LIFT);
    assert(lifted_surface(background, foreground, VIEW_LIFT as int, view_surface));
    lemma_line_at_end(x3, "headerbar_bg_color"@, headerbar_surface);
    lemma_defines_extend(x4, l5, "headerbar_bg_color"@, headerbar_surface);
    lemma_defines_extend(x5, l6, "headerbar_bg_color"@, headerbar_surface);
    lemma_defines_extend(x6, l7, "headerbar_bg_color"@, headerbar_surface);
    lemma_defines_extend(x7, l8, "headerbar_bg_color"@, headerbar_surface);
    lemma_defines_extend(x8, l9, "headerbar_bg_color"@, headerbar_surface);
    lemma_defines_extend(x9, l10, "headerbar_bg_color"@, headerbar_surface);
    lemma_defines_extend(x10, l11, "headerbar_bg_color"@, headerbar_surface);
    lemma_defines_extend(x11, l12, "headerbar_bg_color"@, headerbar_surface);
    lemma_defines_extend(x12, l13, "headerbar_bg_color"@, headerbar_surface);
    lemma_defines_extend(x13, l14, "headerbar_bg_color"@, headerbar_surface);
    lemma_defines_extend(x14, l15, "headerbar_bg_color"@, headerbar_surface);
    lemma_defines_extend(x15, l16, "headerbar_bg_color"@, headerbar_surface);
    lemma_defines_extend(x16, l17, "headerbar_bg_color"@, headerbar_surface);
    lemma_defines_extend(x17, l18, "headerbar_bg_color"@, headerbar_surface);
    lemma_defines_extend(x18, l19, "headerbar_bg_color"@, headerbar_surface);
    lemma_defines_extend(x19, l20, "headerbar_bg_color"@, headerbar_surface);
    lemma_defines_extend(x20, l21, "headerbar_bg_color"@, headerbar_surface);
    lemma_mix_lifts(background.red, foreground.red, HEADERBAR_LIFT);
    lemma_mix_lifts(background.green, foreground.green, HEADERBAR_LIFT);
    lemma_mix_lifts(background.blue, foreground.blue, HEADERBAR_LIFT);
    assert(lifted_surface(background, foreground, HEADERBAR_LIFT as int, headerbar_surface));
    lemma_line_at_end(x12, "card_bg_color"@, card_surface);
    lemma_defines_extend(x13, l14, "card_bg_color"@, card_surface);
    lemma_defines_extend(x14, l15, "card_bg_color"@, card_surface);
    lemma_defines_extend(x15, l16, "card_bg_color"@, card_surface);
    lemma_defines_extend(x16, l17, "card_bg_color"@, card_surface);
    lemma_defines_extend(x17, l18, "card_bg_color"@, card_surface);
    lemma_defines_extend(x18, l19, "card_bg_color"@, card_surface);
    lemma_defines_extend(x19, l20, "card_bg_color"@, card_surface);
    lemma_defines_extend(x20, l21, "card_bg_color"@, card_surface);
    lemma_mix_lifts(background.red, foreground.red, CARD_LIFT);
    lemma_mix_lifts(background.green, foreground.green, CARD_LIFT);
    lemma_mix_lifts(background.blue, foreground.blue, CARD_LIFT);
    assert(lifted_surface(background, foreground, CARD_LIFT as int, card_surface));
    lemma_line_at_end(x16, "popover_bg_color"@, popover_surface);
    lemma_defines_extend(x17, l18, "popover_bg_color"@, popover_surface);
    lemma_defines_extend(x18, l19, "popover_bg_color"@, popover_surface);
    lemma_defines_extend(x19, l20, "popover_bg_color"@, popover_surface);
    lemma_defines_extend(x20, l21, "popover_bg_color"@, popover_surface);
    lemma_mix_lifts(background.red, foreground.red, POPOVER_LIFT);
    lemma_mix_lifts(background.green, foreground.green, POPOVER_LIFT);
    lemma_mix_lifts(background.blue, foreground.blue, POPOVER_LIFT);
    assert(lifted_surface(background, foreground, POPOVER_LIFT as int, popover_surface));
}

/// Append one stylesheet line.
fn push_css_line(css: &mut String, name: &str, color: Rgb)
    ensures
        final(css)@ == old(css)@ + css_line(name@, color),
{
    css.append("@define-color ");
    css.append(name);
    css.append(" ");
    let hex = color.to_css();
    css.append(hex.as_str());
    css.append(";\n");
    assert(final(css)@ =~= old(css)@ + css_line(name@, color));
}

/// The stylesheet for a palette.
fn build_css(palette: &Palette) -> (css: String)
    ensures
        css@ == palette_css(*palette),
{
    let background = palette.background;
    let foreground = palette.foreground;
    let accent = palette.accent;
    let headerbar = background.mix(foreground, HEADERBAR_LIFT);
    let view = background.mix(foreground, VIEW_LIFT);
    let card = background.mix(foreground, CARD_LIFT);
    let popover = background.mix(foreground, POPOVER_LIFT);
    let on_accent = accent.readable_text();
    let accent_text = if foreground.luma() > LIGHT_FOREGROUND_LUMA {
        accent.mix(Rgb::hex(0xffffff), ACCENT_LIGHTEN)
    } else {
        accent.mix(Rgb::hex(0x000000), ACCENT_DARKEN)
    };
    let mut css = String::new();
    push_css_line(&mut css, "window_bg_color", background);
    push_css_line(&mut css, "window_fg_color", foreground);
    push_css_line(&mut css, "view_bg_color", view);
    push_css_line(&mut css, "view_fg_color", foreground);
    push_css_line(&mut css, "headerbar_bg_color", headerbar);
    push_css_line(&mut css, "headerbar_fg_color", foreground);
    push_css_line(&mut css, "headerbar_border_color", foreground);
    push_css_line(&mut css, "headerbar_backdrop_color", background);
    push_css_line(&mut css, "sidebar_bg_color", headerbar);
    push_css_line(&mut css, "sidebar_fg_color", foreground);
    push_css_line(&mut css, "sidebar_backdrop_color", background);
    push_css_line(&mut css, "secondary_sidebar_bg_color", headerbar);
    push_css_line(&mut css, "secondary_sidebar_fg_color", foreground);
    push_css_line(&mut css, "card_bg_color", card);
    push_css_line(&mut css, "card_fg_color", foreground);
    push_css_line(&mut css, "dialog_bg_color", popover);
    push_css_line(&mut css, "dialog_fg_color", foreground);
    push_css_line(&mut css, "popover_bg_color", popover);
    push_css_line(&mut css, "popover_fg_color", foreground);
    push_css_line(&mut css, "accent_bg_color", accent);
    push_css_line(&mut css, "accent_fg_color", on_accent);
    push_css_line(&mut css, "accent_color", accent_text);
    assert(css@ =~= palette_css(*palette));
    css
}

impl Theme {
    /// A theme that keeps the toolkit's own colours.
    pub open spec fn spec_plain(id: &'static str, name: &'static str, variant: Variant) -> Theme {
        Theme { id, name, variant, palette: None }
    }

    /// A theme with its own palette, given as hex literals.
    pub open spec fn spec_palette(
        id: &'static str,
        name: &'static str,
        variant: Variant,
        background: u32,
        foreground: u32,
        accent: u32,
    ) -> Theme {
        Theme {
            id,
            name,
            variant,
            palette: Some(
                Palette {
                    background: Rgb::spec_hex(background),
                    foreground: Rgb::spec_hex(foreground),
                    accent: Rgb::spec_hex(accent),
                },
            ),
        }
    }

    pub open spec fn spec_dark(
        id: &'static str,
        name: &'static str,
        background: u32,
        foreground: u32,
        accent: u32,
    ) -> Theme {
        Theme::spec_palette(id, name, Variant::Dark, background, foreground, accent)
    }

    pub open spec fn spec_light(
        id: &'static str,
        name: &'static str,
        background: u32,
        foreground: u32,
        accent: u32,
    ) -> Theme {
        Theme::spec_palette(id, name, Variant::Light, background, foreground, accent)
    }

    fn plain(id: &'static str, name: &'static str, variant: Variant) -> (theme: Theme)
        ensures
            theme == Theme::spec_plain(id, name, variant),
    {
        Theme { id, name, variant, palette: None }
    }

    fn dark(
        id: &'static str,
        name: &'static str,
        background: u32,
        foreground: u32,
        accent: u32,
    ) -> (theme: Theme)
        ensures
            theme == Theme::spec_dark(id, name, background, foreground, accent),
    {
        Theme {
            id,
            name,
            variant: Variant::Dark,
            palette: Some(
                Palette {
                    background: Rgb::hex(background),
                    foreground: Rgb::hex(foreground),
                    accent: Rgb::hex(accent),
                },
            ),
        }
    }

    fn light(
        id: &'static str,
        name: &'static str,
        background: u32,
        foreground: u32,
        accent: u32,
    ) -> (theme: Theme)
        ensures
            theme == Theme::spec_light(id, name, background, foreground, accent),
    {
        Theme {
            id,
            name,
            variant: Variant::Light,
            palette: Some(
                Palette {
                    background: Rgb::hex(background),
                    foreground: Rgb::hex(foreground),
                    accent: Rgb::hex(accent),
                },
            ),
        }
    }

    /// Stylesheet overriding the toolkit's named colours, or `None` when this
    /// theme uses the toolkit's own palette.
    pub fn css(&self) -> (css: Option<String>)
        ensures
            match self.palette {
                None => css is None,
                Some(palette) => css matches Some(text) && text@ == palette_css(palette),
            },
    {
        match self.palette {
            None => None,
            Some(palette) => Some(build_css(&palette)),
        }
    }
}

/// Every selectable theme, in the order they appear in Settings.
///
/// The first three defer to the toolkit's own palette; the other 54 follow
/// well-known editor and desktop colour schemes, led by AirGradient's own
/// brand colours.
pub open spec fn spec_theme_at(i: int) -> Theme {
    if i == 0 {
        Theme::spec_plain(DEFAULT_THEME_ID, "System Default", Variant::System)
    } else if i == 1 {
        Theme::spec_plain("adwaita-light", "Adwaita Light", Variant::Light)
    } else if i == 2 {
        Theme::spec_plain("adwaita-dark", "Adwaita Dark", Variant::Dark)
    } else if i == 3 {
        Theme::spec_light("airgradient", "AirGradient", 0xf5f8fb, 0x212121, 0x1c75bc)
    } else if i == 4 {
        Theme::spec_dark("airgradient-dark", "AirGradient Dark", 0x0f172a, 0xf5f8fb, 0x60a5fa)
    } else if i == 5 {
        Theme::spec_light("catppuccin-latte", "Catppuccin Latte", 0xeff1f5, 0x4c4f69, 0x1e66f5)
    } else if i == 6 {
        Theme::spec_dark("catppuccin-frappe", "Catppuccin Frappé", 0x303446, 0xc6d0f5, 0x8caaee)
    } else if i == 7 {
        Theme::spec_dark("catppuccin-macchiato", "Catppuccin Macchiato", 0x24273a, 0xcad3f5, 0x8aadf4)
    } else if i == 8 {
        Theme::spec_dark("catppuccin-mocha", "Catppuccin Mocha", 0x1e1e2e, 0xcdd6f4, 0x89b4fa)
    } else if i == 9 {
        Theme::spec_dark("nord", "Nord", 0x2e3440, 0xd8dee9, 0x88c0d0)
    } else if i == 10 {
        Theme::spec_light("nord-light", "Nord Light", 0xeceff4, 0x2e3440, 0x5e81ac)
    } else if i == 11 {
        Theme::spec_dark("polar-night", "Polar Night", 0x242933, 0xe5e9f0, 0x81a1c1)
    } else if i == 12 {
        Theme::spec_dark("dracula", "Dracula", 0x282a36, 0xf8f8f2, 0xbd93f9)
    } else if i == 13 {
        Theme::spec_dark("dracula-pro", "Dracula Pro", 0x22212c, 0xf8f8f2, 0xff80bf)
    } else if i == 14 {
        Theme::spec_dark("gruvbox-dark", "Gruvbox Dark", 0x282828, 0xebdbb2, 0xd79921)
    } else if i == 15 {
        Theme::spec_dark("gruvbox-dark-hard", "Gruvbox Dark Hard", 0x1d2021, 0xebdbb2, 0xfabd2f)
    } else if i == 16 {
        Theme::spec_light("gruvbox-light", "Gruvbox Light", 0xfbf1c7, 0x3c3836, 0xaf3a03)
    } else if i == 17 {
        Theme::spec_dark("solarized-dark", "Solarized Dark", 0x002b36, 0x93a1a1, 0x268bd2)
    } else if i == 18 {
        Theme::spec_light("solarized-light", "Solarized Light", 0xfdf6e3, 0x586e75, 0x268bd2)
    } else if i == 19 {
        Theme::spec_dark("tokyo-night", "Tokyo Night", 0x1a1b26, 0xc0caf5, 0x7aa2f7)
    } else if i == 20 {
        Theme::spec_dark("tokyo-night-storm", "Tokyo Night Storm", 0x24283b, 0xc0caf5, 0x7aa2f7)
    } else if i == 21 {
        Theme::spec_light("tokyo-night-day", "Tokyo Night Day", 0xe1e2e7, 0x3760bf, 0x2e7de9)
    } else if i == 22 {
        Theme::spec_dark("everforest-dark", "Everforest Dark", 0x2d353b, 0xd3c6aa, 0xa7c080)
    } else if i == 23 {
        Theme::spec_light("everforest-light", "Everforest Light", 0xfdf6e3, 0x5c6a72, 0x8da101)
    } else if i == 24 {
        Theme::spec_dark("rose-pine", "Rosé Pine", 0x191724, 0xe0def4, 0xebbcba)
    } else if i == 25 {
        Theme::spec_dark("rose-pine-moon", "Rosé Pine Moon", 0x232136, 0xe0def4, 0xea9a97)
    } else if i == 26 {
        Theme::spec_light("rose-pine-dawn", "Rosé Pine Dawn", 0xfaf4ed, 0x575279, 0xd7827e)
    } else if i == 27 {
        Theme::spec_dark("one-dark", "One Dark", 0x282c34, 0xabb2bf, 0x61afef)
    } else if i == 28 {
        Theme::spec_light("one-light", "One Light", 0xfafafa, 0x383a42, 0x4078f2)
    } else if i == 29 {
        Theme::spec_dark("monokai", "Monokai", 0x272822, 0xf8f8f2, 0xa6e22e)
    } else if i == 30 {
        Theme::spec_dark("monokai-pro", "Monokai Pro", 0x2d2a2e, 0xfcfcfa, 0xffd866)
    } else if i == 31 {
        Theme::spec_dark("zenburn", "Zenburn", 0x3f3f3f, 0xdcdccc, 0x8cd0d3)
    } else if i == 32 {
        Theme::spec_dark("cobalt", "Cobalt", 0x193549, 0xe1efff, 0xffc600)
    } else if i == 33 {
        Theme::spec_dark("oceanic-next", "Oceanic Next", 0x1b2b34, 0xcdd3de, 0x6699cc)
    } else if i == 34 {
        Theme::spec_dark("night-owl", "Night Owl", 0x011627, 0xd6deeb, 0x82aaff)
    } else if i == 35 {
        Theme::spec_light("light-owl", "Light Owl", 0xfbfbfb, 0x403f53, 0x2aa298)
    } else if i == 36 {
        Theme::spec_dark("horizon", "Horizon", 0x1c1e26, 0xd5d8da, 0xe95678)
    } else if i == 37 {
        Theme::spec_dark("synthwave", "Synthwave", 0x241b2f, 0xf8f8f2, 0xff7edb)
    } else if i == 38 {
        Theme::spec_dark("material-ocean", "Material Ocean", 0x0f111a, 0xa6accd, 0x84ffff)
    } else if i == 39 {
        Theme::spec_dark("material-palenight", "Material Palenight", 0x292d3e, 0xa6accd, 0xc792ea)
    } else if i == 40 {
        Theme::spec_dark("material-darker", "Material Darker", 0x212121, 0xeeffff, 0x89ddff)
    } else if i == 41 {
        Theme::spec_light("material-lighter", "Material Lighter", 0xfafafa, 0x546e7a, 0x39adb5)
    } else if i == 42 {
        Theme::spec_dark("ayu-dark", "Ayu Dark", 0x0f1419, 0xe6e1cf, 0xff8f40)
    } else if i == 43 {
        Theme::spec_dark("ayu-mirage", "Ayu Mirage", 0x1f2430, 0xcbccc6, 0xffcc66)
    } else if i == 44 {
        Theme::spec_light("ayu-light", "Ayu Light", 0xfafafa, 0x5c6166, 0xff9940)
    } else if i == 45 {
        Theme::spec_dark("kanagawa", "Kanagawa", 0x1f1f28, 0xdcd7ba, 0x7e9cd8)
    } else if i == 46 {
        Theme::spec_dark("melange-dark", "Melange Dark", 0x292522, 0xece1d7, 0xa3a9ce)
    } else if i == 47 {
        Theme::spec_light("melange-light", "Melange Light", 0xf1f1f1, 0x54433a, 0x6e9b72)
    } else if i == 48 {
        Theme::spec_dark("iceberg-dark", "Iceberg Dark", 0x161821, 0xc6c8d1, 0x84a0c6)
    } else if i == 49 {
        Theme::spec_light("iceberg-light", "Iceberg Light", 0xe8e9ec, 0x33374c, 0x2d539e)
    } else if i == 50 {
        Theme::spec_dark("github-dark", "GitHub Dark", 0x0d1117, 0xc9d1d9, 0x58a6ff)
    } else if i == 51 {
        Theme::spec_light("github-light", "GitHub Light", 0xffffff, 0x24292f, 0x0969da)
    } else if i == 52 {
        Theme::spec_dark("carbon", "Carbon", 0x161616, 0xf4f4f4, 0x4589ff)
    } else if i == 53 {
        Theme::spec_dark("forest-night", "Forest Night", 0x1b2229, 0xd8caac, 0x87a987)
    } else if i == 54 {
        Theme::spec_light("sepia", "Sepia", 0xf4ecd8, 0x5b4636, 0x8c6d3f)
    } else if i == 55 {
        Theme::spec_light("mint", "Mint", 0xf2fbf6, 0x1f3d2f, 0x0f9d58)
    } else {
        Theme::spec_light("lavender", "Lavender", 0xf6f4fb, 0x342e4a, 0x6c5ce7)
    }
}

/// The theme at dropdown position `i`.
fn theme_at(i: usize) -> (theme: Theme)
    requires
        i < THEME_COUNT,
    ensures
        theme == spec_theme_at(i as int),
{
    if i == 0 {
        Theme::plain(DEFAULT_THEME_ID, "System Default", Variant::System)
    } else if i == 1 {
        Theme::plain("adwaita-light", "Adwaita Light", Variant::Light)
    } else if i == 2 {
        Theme::plain("adwaita-dark", "Adwaita Dark", Variant::Dark)
    } else if i == 3 {
        Theme::light("airgradient", "AirGradient", 0xf5f8fb, 0x212121, 0x1c75bc)
    } else if i == 4 {
        Theme::dark("airgradient-dark", "AirGradient Dark", 0x0f172a, 0xf5f8fb, 0x60a5fa)
    } else if i == 5 {
        Theme::light("catppuccin-latte", "Catppuccin Latte", 0xeff1f5, 0x4c4f69, 0x1e66f5)
    } else if i == 6 {
        Theme::dark("catppuccin-frappe", "Catppuccin Frappé", 0x303446, 0xc6d0f5, 0x8caaee)
    } else if i == 7 {
        Theme::dark("catppuccin-macchiato", "Catppuccin Macchiato", 0x24273a, 0xcad3f5, 0x8aadf4)
    } else if i == 8 {
        Theme::dark("catppuccin-mocha", "Catppuccin Mocha", 0x1e1e2e, 0xcdd6f4, 0x89b4fa)
    } else if i == 9 {
        Theme::dark("nord", "Nord", 0x2e3440, 0xd8dee9, 0x88c0d0)
    } else if i == 10 {
        Theme::light("nord-light", "Nord Light", 0xeceff4, 0x2e3440, 0x5e81ac)
    } else if i == 11 {
        Theme::dark("polar-night", "Polar Night", 0x242933, 0xe5e9f0, 0x81a1c1)
    } else if i == 12 {
        Theme::dark("dracula", "Dracula", 0x282a36, 0xf8f8f2, 0xbd93f9)
    } else if i == 13 {
        Theme::dark("dracula-pro", "Dracula Pro", 0x22212c, 0xf8f8f2, 0xff80bf)
    } else if i == 14 {
        Theme::dark("gruvbox-dark", "Gruvbox Dark", 0x282828, 0xebdbb2, 0xd79921)
    } else if i == 15 {
        Theme::dark("gruvbox-dark-hard", "Gruvbox Dark Hard", 0x1d2021, 0xebdbb2, 0xfabd2f)
    } else if i == 16 {
        Theme::light("gruvbox-light", "Gruvbox Light", 0xfbf1c7, 0x3c3836, 0xaf3a03)
    } else if i == 17 {
        Theme::dark("solarized-dark", "Solarized Dark", 0x002b36, 0x93a1a1, 0x268bd2)
    } else if i == 18 {
        Theme::light("solarized-light", "Solarized Light", 0xfdf6e3, 0x586e75, 0x268bd2)
    } else if i == 19 {
        Theme::dark("tokyo-night", "Tokyo Night", 0x1a1b26, 0xc0caf5, 0x7aa2f7)
    } else if i == 20 {
        Theme::dark("tokyo-night-storm", "Tokyo Night Storm", 0x24283b, 0xc0caf5, 0x7aa2f7)
    } else if i == 21 {
        Theme::light("tokyo-night-day", "Tokyo Night Day", 0xe1e2e7, 0x3760bf, 0x2e7de9)
    } else if i == 22 {
        Theme::dark("everforest-dark", "Everforest Dark", 0x2d353b, 0xd3c6aa, 0xa7c080)
    } else if i == 23 {
        Theme::light("everforest-light", "Everforest Light", 0xfdf6e3, 0x5c6a72, 0x8da101)
    } else if i == 24 {
        Theme::dark("rose-pine", "Rosé Pine", 0x191724, 0xe0def4, 0xebbcba)
    } else if i == 25 {
        Theme::dark("rose-pine-moon", "Rosé Pine Moon", 0x232136, 0xe0def4, 0xea9a97)
    } else if i == 26 {
        Theme::light("rose-pine-dawn", "Rosé Pine Dawn", 0xfaf4ed, 0x575279, 0xd7827e)
    } else if i == 27 {
        Theme::dark("one-dark", "One Dark", 0x282c34, 0xabb2bf, 0x61afef)
    } else if i == 28 {
        Theme::light("one-light", "One Light", 0xfafafa, 0x383a42, 0x4078f2)
    } else if i == 29 {
        Theme::dark("monokai", "Monokai", 0x272822, 0xf8f8f2, 0xa6e22e)
    } else if i == 30 {
        Theme::dark("monokai-pro", "Monokai Pro", 0x2d2a2e, 0xfcfcfa, 0xffd866)
    } else if i == 31 {
        Theme::dark("zenburn", "Zenburn", 0x3f3f3f, 0xdcdccc, 0x8cd0d3)
    } else if i == 32 {
        Theme::dark("cobalt", "Cobalt", 0x193549, 0xe1efff, 0xffc600)
    } else if i == 33 {
        Theme::dark("oceanic-next", "Oceanic Next", 0x1b2b34, 0xcdd3de, 0x6699cc)
    } else if i == 34 {
        Theme::dark("night-owl", "Night Owl", 0x011627, 0xd6deeb, 0x82aaff)
    } else if i == 35 {
        Theme::light("light-owl", "Light Owl", 0xfbfbfb, 0x403f53, 0x2aa298)
    } else if i == 36 {
        Theme::dark("horizon", "Horizon", 0x1c1e26, 0xd5d8da, 0xe95678)
    } else if i == 37 {
        Theme::dark("synthwave", "Synthwave", 0x241b2f, 0xf8f8f2, 0xff7edb)
    } else if i == 38 {
        Theme::dark("material-ocean", "Material Ocean", 0x0f111a, 0xa6accd, 0x84ffff)
    } else if i == 39 {
        Theme::dark("material-palenight", "Material Palenight", 0x292d3e, 0xa6accd, 0xc792ea)
    } else if i == 40 {
        Theme::dark("material-darker", "Material Darker", 0x212121, 0xeeffff, 0x89ddff)
    } else if i == 41 {
        Theme::light("material-lighter", "Material Lighter", 0xfafafa, 0x546e7a, 0x39adb5)
    } else if i == 42 {
        Theme::dark("ayu-dark", "Ayu Dark", 0x0f1419, 0xe6e1cf, 0xff8f40)
    } else if i == 43 {
        Theme::dark("ayu-mirage", "Ayu Mirage", 0x1f2430, 0xcbccc6, 0xffcc66)
    } else if i == 44 {
        Theme::light("ayu-light", "Ayu Light", 0xfafafa, 0x5c6166, 0xff9940)
    } else if i == 45 {
        Theme::dark("kanagawa", "Kanagawa", 0x1f1f28, 0xdcd7ba, 0x7e9cd8)
    } else if i == 46 {
        Theme::dark("melange-dark", "Melange Dark", 0x292522, 0xece1d7, 0xa3a9ce)
    } else if i == 47 {
        Theme::light("melange-light", "Melange Light", 0xf1f1f1, 0x54433a, 0x6e9b72)
    } else if i == 48 {
        Theme::dark("iceberg-dark", "Iceberg Dark", 0x161821, 0xc6c8d1, 0x84a0c6)
    } else if i == 49 {
        Theme::light("iceberg-light", "Iceberg Light", 0xe8e9ec, 0x33374c, 0x2d539e)
    } else if i == 50 {
        Theme::dark("github-dark", "GitHub Dark", 0x0d1117, 0xc9d1d9, 0x58a6ff)
    } else if i == 51 {
        Theme::light("github-light", "GitHub Light", 0xffffff, 0x24292f, 0x0969da)
    } else if i == 52 {
        Theme::dark("carbon", "Carbon", 0x161616, 0xf4f4f4, 0x4589ff)
    } else if i == 53 {
        Theme::dark("forest-night", "Forest Night", 0x1b2229, 0xd8caac, 0x87a987)
    } else if i == 54 {
        Theme::light("sepia", "Sepia", 0xf4ecd8, 0x5b4636, 0x8c6d3f)
    } else if i == 55 {
        Theme::light("mint", "Mint", 0xf2fbf6, 0x1f3d2f, 0x0f9d58)
    } else {
        Theme::light("lavender", "Lavender", 0xf6f4fb, 0x342e4a, 0x6c5ce7)
    }
}

/// Every selectable theme, in dropdown order.
pub fn themes() -> (all: Vec<Theme>)
    ensures
        all@.len() == THEME_COUNT,
        forall|i: int| 0 <= i < THEME_COUNT ==> #[trigger] all@[i] == spec_theme_at(i),
{
    let mut all: Vec<Theme> = Vec::new();
    let mut i: usize = 0;
    while i < THEME_COUNT
        invariant
            i <= THEME_COUNT,
            all@.len() == i,
            forall|j: int| 0 <= j < i ==> #[trigger] all@[j] == spec_theme_at(j),
        decreases THEME_COUNT - i,
    {
        all.push(theme_at(i));
        i = i + 1;
    }
    all
}

/// Dropdown position of the first theme from position `i` on whose id is `id`.
pub open spec fn position_from(id: Seq<char>, i: nat) -> Option<nat>
    decreases THEME_COUNT - i,
{
    if i >= THEME_COUNT {
        None
    } else if spec_theme_at(i as int).id@ == id {
        Some(i)
    } else {
        position_from(id, i + 1)
    }
}

/// Dropdown position of the theme whose id is `id`, if there is one.
pub open spec fn theme_position(id: Seq<char>) -> Option<nat> {
    position_from(id, 0)
}

/// The theme stored under `id`, or the default for an id no theme has.
pub open spec fn spec_find(id: Seq<char>) -> Theme {
    match theme_position(id) {
        Some(i) => spec_theme_at(i as int),
        None => spec_theme_at(0),
    }
}

/// Dropdown position of the theme stored under `id`, or of the default.
pub open spec fn spec_index_of(id: Seq<char>) -> nat {
    match theme_position(id) {
        Some(i) => i,
        None => 0,
    }
}

/// The theme at a dropdown position, or the default past the end of the list.
pub open spec fn spec_at_index(index: u32) -> Theme {
    if index < THEME_COUNT {
        spec_theme_at(index as int)
    } else {
        spec_theme_at(0)
    }
}

/// The position of the first theme whose id is `id`.
fn position_of(id: &str) -> (position: Option<usize>)
    ensures
        match theme_position(id@) {
            Some(i) => position == Some(i as usize) && i < THEME_COUNT,
            None => position is None,
        },
{
    proof {
        lemma_position_from(id@, 0);
    }
    let mut i: usize = 0;
    while i < THEME_COUNT
        invariant
            i <= THEME_COUNT,
            theme_position(id@) == position_from(id@, i as nat),
        decreases THEME_COUNT - i,
    {
        let theme = theme_at(i);
        if same_text(theme.id, id) {
            return Some(i);
        }
        i = i + 1;
    }
    None
}

/// Look a theme up by the identifier stored in the config file.
///
/// Unknown identifiers fall back to the default rather than failing, so a
/// config written by a newer version of the app still opens.
pub fn find(id: &str) -> (theme: Theme)
    ensures
        theme == spec_find(id@),
{
    match position_of(id) {
        Some(i) => theme_at(i),
        None => theme_at(0),
    }
}

/// Names in dropdown order.
pub fn names() -> (names: Vec<&'static str>)
    ensures
        names@.len() == THEME_COUNT,
        forall|i: int| 0 <= i < THEME_COUNT ==> #[trigger] names@[i] == spec_theme_at(i).name,
{
    let mut names: Vec<&'static str> = Vec::new();
    let mut i: usize = 0;
    while i < THEME_COUNT
        invariant
            i <= THEME_COUNT,
            names@.len() == i,
            forall|j: int| 0 <= j < i ==> #[trigger] names@[j] == spec_theme_at(j).name,
        decreases THEME_COUNT - i,
    {
        names.push(theme_at(i).name);
        i = i + 1;
    }
    names
}

/// Position of a theme in the dropdown.
pub fn index_of(id: &str) -> (index: u32)
    ensures
        index == spec_index_of(id@),
{
    match position_of(id) {
        Some(i) => i as u32,
        None => 0,
    }
}

/// Theme at a dropdown position.
pub fn at_index(index: u32) -> (theme: Theme)
    ensures
        theme == spec_at_index(index),
{
    if (index as usize) < THEME_COUNT {
        theme_at(index as usize)
    } else {
        theme_at(0)
    }
}

/// A position found for an id holds a theme with that id, and no earlier
/// theme has it.
proof fn lemma_position_from(id: Seq<char>, i: nat)
    ensures
        position_from(id, i) matches Some(p) ==> i <= p < THEME_COUNT && spec_theme_at(
            p as int,
        ).id@ == id && forall|j: int| i <= j < p ==> spec_theme_at(j).id@ != id,
        position_from(id, i) is None ==> forall|j: int|
            i <= j < THEME_COUNT ==> spec_theme_at(j).id@ != id,
    decreases THEME_COUNT - i,
{
    if i < THEME_COUNT {
        lemma_position_from(id, i + 1);
    }
}

/// Choosing the dropdown entry a configured id sits at selects the theme that
/// id loads, whatever the id.
pub proof fn dropdown_position_round_trips(id: Seq<char>)
    ensures
        spec_index_of(id) < THEME_COUNT,
        spec_at_index(spec_index_of(id) as u32) == spec_find(id),
{
    lemma_position_from(id, 0);
}

/// An id that a theme carries loads that theme (the first one carrying it);
/// an id no theme carries loads the first entry, the default.
pub proof fn find_returns_the_theme_with_that_id(id: Seq<char>)
    ensures
        (exists|i: int| 0 <= i < THEME_COUNT && spec_theme_at(i).id@ == id) ==> spec_find(
            id,
        ).id@ == id,
        (forall|i: int| 0 <= i < THEME_COUNT ==> spec_theme_at(i).id@ != id) ==> spec_find(id)
            == spec_theme_at(0),
{
    lemma_position_from(id, 0);
}

/// No two themes share an id, so an id picks out exactly one theme.
#[verifier::rlimit(100)]
#[verifier::spinoff_prover]
pub proof fn theme_ids_are_unique(i: int, j: int)
    requires
        0 <= i < j < THEME_COUNT,
    ensures
        spec_theme_at(i).id@ != spec_theme_at(j).id@,
{
    reveal_strlit("default");
    reveal_strlit("adwaita-light");
    reveal_strlit("adwaita-dark");
    reveal_strlit("airgradient");
    reveal_strlit("airgradient-dark");
    reveal_strlit("catppuccin-latte");
    reveal_strlit("catppuccin-frappe");
    reveal_strlit("catppuccin-macchiato");
    reveal_strlit("catppuccin-mocha");
    reveal_strlit("nord");
    reveal_strlit("nord-light");
    reveal_strlit("polar-night");
    reveal_strlit("dracula");
    reveal_strlit("dracula-pro");
    reveal_strlit("gruvbox-dark");
    reveal_strlit("gruvbox-dark-hard");
    reveal_strlit("gruvbox-light");
    reveal_strlit("solarized-dark");
    reveal_strlit("solarized-light");
    reveal_strlit("tokyo-night");
    reveal_strlit("tokyo-night-storm");
    reveal_strlit("tokyo-night-day");
    reveal_strlit("everforest-dark");
    reveal_strlit("everforest-light");
    reveal_strlit("rose-pine");
    reveal_strlit("rose-pine-moon");
    reveal_strlit("rose-pine-dawn");
    reveal_strlit("one-dark");
    reveal_strlit("one-light");
    reveal_strlit("monokai");
    reveal_strlit("monokai-pro");
    reveal_strlit("zenburn");
    reveal_strlit("cobalt");
    reveal_strlit("oceanic-next");
    reveal_strlit("night-owl");
    reveal_strlit("light-owl");
    reveal_strlit("horizon");
    reveal_strlit("synthwave");
    reveal_strlit("material-ocean");
    reveal_strlit("material-palenight");
    reveal_strlit("material-darker");
    reveal_strlit("material-lighter");
    reveal_strlit("ayu-dark");
    reveal_strlit("ayu-mirage");
    reveal_strlit("ayu-light");
    reveal_strlit("kanagawa");
    reveal_strlit("melange-dark");
    reveal_strlit("melange-light");
    reveal_strlit("iceberg-dark");
    reveal_strlit("iceberg-light");
    reveal_strlit("github-dark");
    reveal_strlit("github-light");
    reveal_strlit("carbon");
    reveal_strlit("forest-night");
    reveal_strlit("sepia");
    reveal_strlit("mint");
    reveal_strlit("lavender");
    let first = spec_theme_at(i).id@;
    let second = spec_theme_at(j).id@;
    // Ids of equal length first differ within their first twelve characters.
    assert(first.len() != second.len() || first[0] != second[0] || first[1] != second[1]
        || first[2] != second[2] || first[3] != second[3] || first[4] != second[4]
        || first[5] != second[5] || first[6] != second[6] || first[7] != second[7]
        || first[8] != second[8] || first[9] != second[9] || first[10] != second[10]
        || first[11] != second[11]);
}

/// No two themes share a name, so the dropdown never shows two entries alike.
#[verifier::rlimit(100)]
#[verifier::spinoff_prover]
pub proof fn theme_names_are_unique(i: int, j: int)
    requires
        0 <= i < j < THEME_COUNT,
    ensures
        spec_theme_at(i).name@ != spec_theme_at(j).name@,
{
    reveal_strlit("System Default");
    reveal_strlit("Adwaita Light");
    reveal_strlit("Adwaita Dark");
    reveal_strlit("AirGradient");
    reveal_strlit("AirGradient Dark");
    reveal_strlit("Catppuccin Latte");
    reveal_strlit("Catppuccin Frappé");
    reveal_strlit("Catppuccin Macchiato");
    reveal_strlit("Catppuccin Mocha");
    reveal_strlit("Nord");
    reveal_strlit("Nord Light");
    reveal_strlit("Polar Night");
    reveal_strlit("Dracula");
    reveal_strlit("Dracula Pro");
    reveal_strlit("Gruvbox Dark");
    reveal_strlit("Gruvbox Dark Hard");
    reveal_strlit("Gruvbox Light");
    reveal_strlit("Solarized Dark");
    reveal_strlit("Solarized Light");
    reveal_strlit("Tokyo Night");
    reveal_strlit("Tokyo Night Storm");
    reveal_strlit("Tokyo Night Day");
    reveal_strlit("Everforest Dark");
    reveal_strlit("Everforest Light");
    reveal_strlit("Rosé Pine");
    reveal_strlit("Rosé Pine Moon");
    reveal_strlit("Rosé Pine Dawn");
    reveal_strlit("One Dark");
    reveal_strlit("One Light");
    reveal_strlit("Monokai");
    reveal_strlit("Monokai Pro");
    reveal_strlit("Zenburn");
    reveal_strlit("Cobalt");
    reveal_strlit("Oceanic Next");
    reveal_strlit("Night Owl");
    reveal_strlit("Light Owl");
    reveal_strlit("Horizon");
    reveal_strlit("Synthwave");
    reveal_strlit("Material Ocean");
    reveal_strlit("Material Palenight");
    reveal_strlit("Material Darker");
    reveal_strlit("Material Lighter");
    reveal_strlit("Ayu Dark");
    reveal_strlit("Ayu Mirage");
    reveal_strlit("Ayu Light");
    reveal_strlit("Kanagawa");
    reveal_strlit("Melange Dark");
    reveal_strlit("Melange Light");
    reveal_strlit("Iceberg Dark");
    reveal_strlit("Iceberg Light");
    reveal_strlit("GitHub Dark");
    reveal_strlit("GitHub Light");
    reveal_strlit("Carbon");
    reveal_strlit("Forest Night");
    reveal_strlit("Sepia");
    reveal_strlit("Mint");
    reveal_strlit("Lavender");
    let first = spec_theme_at(i).name@;
    let second = spec_theme_at(j).name@;
    // Names of equal length first differ within their first twelve characters.
    assert(first.len() != second.len() || first[0] != second[0] || first[1] != second[1]
        || first[2] != second[2] || first[3] != second[3] || first[4] != second[4]
        || first[5] != second[5] || first[6] != second[6] || first[7] != second[7]
        || first[8] != second[8] || first[9] != second[9] || first[10] != second[10]
        || first[11] != second[11]);
}

/// Every theme is found by its own id, at its own dropdown position.
pub proof fn every_theme_is_found_by_its_id(i: int)
    requires
        0 <= i < THEME_COUNT,
    ensures
        spec_find(spec_theme_at(i).id@) == spec_theme_at(i),
        spec_index_of(spec_theme_at(i).id@) == i,
{
    let id = spec_theme_at(i).id@;
    lemma_position_from(id, 0);
    let p = theme_position(id).unwrap();
    if p < i {
        theme_ids_are_unique(p as int, i);
    }
}

/// The default theme follows the desktop and has no palette of its own.
pub proof fn the_default_theme_defers_to_the_desktop()
    ensures
        spec_theme_at(0).id == DEFAULT_THEME_ID,
        spec_theme_at(0).variant == Variant::System,
        spec_theme_at(0).palette is None,
{
}

/// Mixing moves each channel from the colour towards the other one: nothing
/// at 0, all the way at 1000, and never outside the two.
pub proof fn mixing_moves_towards_the_other_colour(from: u8, to: u8, permille: u16)
    ensures
        mix_channel(from, to, 0) == from,
        mix_channel(from, to, 1000) == to,
        from <= to ==> from <= mix_channel(from, to, permille) <= to,
        to <= from ==> to <= mix_channel(from, to, permille) <= from,
{
    let amount: int = if permille > 1000 {
        1000
    } else {
        permille as int
    };
    let total = from * (1000 - amount) + to * amount;
    assert((2 * (from * (1000 - 0) + to * 0) + 1000) / 2000 == from) by (nonlinear_arith);
    assert((2 * (from * (1000 - 1000) + to * 1000) + 1000) / 2000 == to) by (nonlinear_arith);
    assert(from <= to ==> from * 1000 <= total <= to * 1000) by (nonlinear_arith)
        requires
            0 <= amount <= 1000,
            total == from * (1000 - amount) + to * amount,
    ;
    assert(to <= from ==> to * 1000 <= total <= from * 1000) by (nonlinear_arith)
        requires
            0 <= amount <= 1000,
            total == from * (1000 - amount) + to * amount,
    ;
}

} // verus!
