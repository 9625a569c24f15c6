//! The color theme model: six RGB colors, named presets, and channel edits.
//!
//! Channels are held on an exact integer grid instead of floating point:
//! `CHANNEL_ONE` (255 * 1000) stands for a fully saturated channel. Preset
//! palettes are given with two decimal digits of a unit channel and channel
//! edits arrive in thousandths of a 0..=255 value, so both land on this grid
//! exactly. A renderer divides by `CHANNEL_ONE` to recover unit channels.

use vstd::prelude::*;

verus! {

/// A color channel value, scaled so that `CHANNEL_ONE` is full intensity.
pub const CHANNEL_ONE: u32 = 255000;

/// One RGB color; each channel lies in `0 ..= CHANNEL_ONE`.
#[derive(Clone, Copy, Debug, PartialEq, Eq, Structural)]
pub struct Rgb {
    pub r: u32,
    pub g: u32,
    pub b: u32,
}

/// The color with the given channels in hundredths of a unit channel.
pub open spec fn rgb_hundredths(r: int, g: int, b: int) -> Rgb {
    Rgb { r: (r * 2550) as u32, g: (g * 2550) as u32, b: (b * 2550) as u32 }
}

impl Rgb {
    /// All three channels are on the `0 ..= CHANNEL_ONE` scale.
    pub open spec fn wf(self) -> bool {
        self.r <= CHANNEL_ONE && self.g <= CHANNEL_ONE && self.b <= CHANNEL_ONE
    }

    /// Build a color from channels given in hundredths of a unit channel,
    /// the precision the preset palettes are stated in.
    pub fn from_hundredths(r: u32, g: u32, b: u32) -> (c: Rgb)
        requires
            r <= 100,
            g <= 100,
            b <= 100,
        ensures
            c == rgb_hundredths(r as int, g as int, b as int),
            c.wf(),
    {
        Rgb { r: r * 2550, g: g * 2550, b: b * 2550 }
    }

    /// The channel named by `ch`.
    pub open spec fn spec_channel(self, ch: ColorChannel) -> u32 {
        match ch {
            ColorChannel::Red => self.r,
            ColorChannel::Green => self.g,
            ColorChannel::Blue => self.b,
        }
    }

    /// This color with the channel named by `ch` replaced by `v`.
    pub open spec fn spec_with_channel(self, ch: ColorChannel, v: u32) -> Rgb {
        match ch {
            ColorChannel::Red => Rgb { r: v, ..self },
            ColorChannel::Green => Rgb { g: v, ..self },
            ColorChannel::Blue => Rgb { b: v, ..self },
        }
    }
}

/// A named fixed palette, or `Custom` once any channel has been edited.
#[derive(Clone, Copy, Debug, PartialEq, Eq, Structural)]
pub enum Preset {
    Dark,
    Light,
    Dracula,
    Nord,
    Monokai,
    Solarized,
    Custom,
}

/// The label a preset shows in the picker list.
pub open spec fn spec_label(p: Preset) -> Seq<char> {
    match p {
        Preset::Dark => "Ciemny"@,
        Preset::Light => "Jasny"@,
        Preset::Dracula => "Dracula"@,
        Preset::Nord => "Nord"@,
        Preset::Monokai => "Monokai"@,
        Preset::Solarized => "Solarized"@,
        Preset::Custom => "W\u{142}asny"@,
    }
}

impl Preset {
    /// The label shown in the preset picker.
    pub fn label(self) -> (s: &'static str)
        ensures
            s@ == spec_label(self),
    {
        match self {
            Preset::Dark => "Ciemny",
            Preset::Light => "Jasny",
            Preset::Dracula => "Dracula",
            Preset::Nord => "Nord",
            Preset::Monokai => "Monokai",
            Preset::Solarized => "Solarized",
            Preset::Custom => "W\u{142}asny",
        }
    }
}

/// Which of the six theme colors an edit addresses.
#[derive(Clone, Copy, Debug, PartialEq, Eq, Structural)]
pub enum ColorTarget {
    Background,
    Display,
    DisplayText,
    Number,
    Operator,
    Function,
}

/// Which channel of a color an edit addresses.
#[derive(Clone, Copy, Debug, PartialEq, Eq, Structural)]
pub enum ColorChannel {
    Red,
    Green,
    Blue,
}

/// The six colors of the calculator's interface.
#[derive(Clone, Copy, Debug, PartialEq, Eq, Structural)]
pub struct ColorTheme {
    pub background: Rgb,
    pub display: Rgb,
    pub display_text: Rgb,
    pub number_btn: Rgb,
    pub operator_btn: Rgb,
    pub function_btn: Rgb,
}

/// The fixed dark palette.
pub open spec fn dark_palette() -> ColorTheme {
    ColorTheme {
        background: rgb_hundredths(10, 10, 12),
        display: rgb_hundredths(15, 15, 18),
        display_text: rgb_hundredths(90, 90, 95),
        number_btn: rgb_hundredths(20, 20, 25),
        operator_btn: rgb_hundredths(30, 50, 70),
        function_btn: rgb_hundredths(50, 30, 70),
    }
}

/// The fixed light palette.
pub open spec fn light_palette() -> ColorTheme {
    ColorTheme {
        background: rgb_hundredths(95, 95, 97),
        display: rgb_hundredths(98, 98, 100),
        display_text: rgb_hundredths(10, 10, 15),
        number_btn: rgb_hundredths(90, 90, 92),
        operator_btn: rgb_hundredths(40, 60, 85),
        function_btn: rgb_hundredths(70, 40, 85),
    }
}

/// The fixed Dracula palette.
pub open spec fn dracula_palette() -> ColorTheme {
    ColorTheme {
        background: rgb_hundredths(16, 16, 21),
        display: rgb_hundredths(20, 20, 27),
        display_text: rgb_hundredths(95, 95, 100),
        number_btn: rgb_hundredths(27, 27, 35),
        operator_btn: rgb_hundredths(100, 47, 78),
        function_btn: rgb_hundredths(74, 58, 98),
    }
}

/// The fixed Nord palette.
pub open spec fn nord_palette() -> ColorTheme {
    ColorTheme {
        background: rgb_hundredths(18, 20, 25),
        display: rgb_hundredths(23, 26, 32),
        display_text: rgb_hundredths(92, 94, 96),
        number_btn: rgb_hundredths(30, 34, 42),
        operator_btn: rgb_hundredths(53, 75, 82),
        function_btn: rgb_hundredths(70, 56, 68),
    }
}

/// The fixed Monokai palette.
pub open spec fn monokai_palette() -> ColorTheme {
    ColorTheme {
        background: rgb_hundredths(16, 16, 14),
        display: rgb_hundredths(20, 20, 18),
        display_text: rgb_hundredths(97, 97, 95),
        number_btn: rgb_hundredths(25, 25, 22),
        operator_btn: rgb_hundredths(98, 47, 36),
        function_btn: rgb_hundredths(64, 86, 29),
    }
}

/// The fixed Solarized palette.
pub open spec fn solarized_palette() -> ColorTheme {
    ColorTheme {
        background: rgb_hundredths(0, 17, 21),
        display: rgb_hundredths(3, 21, 26),
        display_text: rgb_hundredths(51, 58, 59),
        number_btn: rgb_hundredths(7, 26, 31),
        operator_btn: rgb_hundredths(15, 55, 82),
        function_btn: rgb_hundredths(83, 21, 51),
    }
}

/// The palette a named preset stands for; `Custom` has none of its own and
/// maps to the dark palette only as a formal default (`select_preset` never
/// consults it for `Custom`).
pub open spec fn preset_palette(p: Preset) -> ColorTheme {
    match p {
        Preset::Dark => dark_palette(),
        Preset::Light => light_palette(),
        Preset::Dracula => dracula_palette(),
        Preset::Nord => nord_palette(),
        Preset::Monokai => monokai_palette(),
        Preset::Solarized => solarized_palette(),
        Preset::Custom => dark_palette(),
    }
}

impl ColorTheme {
    /// Every channel of every color is in range.
    pub open spec fn wf(self) -> bool {
        self.background.wf() && self.display.wf() && self.display_text.wf()
            && self.number_btn.wf() && self.operator_btn.wf() && self.function_btn.wf()
    }

    /// The color named by `target`.
    pub open spec fn spec_color(self, target: ColorTarget) -> Rgb {
        match target {
            ColorTarget::Background => self.background,
            ColorTarget::Display => self.display,
            ColorTarget::DisplayText => self.display_text,
            ColorTarget::Number => self.number_btn,
            ColorTarget::Operator => self.operator_btn,
            ColorTarget::Function => self.function_btn,
        }
    }

    /// This theme with the color named by `target` replaced by `c`.
    pub open spec fn spec_with_color(self, target: ColorTarget, c: Rgb) -> ColorTheme {
        match target {
            ColorTarget::Background => ColorTheme { background: c, ..self },
            ColorTarget::Display => ColorTheme { display: c, ..self },
            ColorTarget::DisplayText => ColorTheme { display_text: c, ..self },
            ColorTarget::Number => ColorTheme { number_btn: c, ..self },
            ColorTarget::Operator => ColorTheme { operator_btn: c, ..self },
            ColorTarget::Function => ColorTheme { function_btn: c, ..self },
        }
    }

    /// This theme with channel `ch` of the color named by `target` set to `v`.
    pub open spec fn spec_with_channel(self, target: ColorTarget, ch: ColorChannel, v: u32) -> ColorTheme {
        self.spec_with_color(target, self.spec_color(target).spec_with_channel(ch, v))
    }

    /// The dark palette, the theme of a fresh state.
    pub fn dark() -> (t: ColorTheme)
        ensures
            t == dark_palette(),
            t.wf(),
    {
        ColorTheme {
            background: Rgb::from_hundredths(10, 10, 12),
            display: Rgb::from_hundredths(15, 15, 18),
            display_text: Rgb::from_hundredths(90, 90, 95),
            number_btn: Rgb::from_hundredths(20, 20, 25),
            operator_btn: Rgb::from_hundredths(30, 50, 70),
            function_btn: Rgb::from_hundredths(50, 30, 70),
        }
    }

    /// The light palette.
    pub fn light() -> (t: ColorTheme)
        ensures
            t == light_palette(),
            t.wf(),
    {
        ColorTheme {
            background: Rgb::from_hundredths(95, 95, 97),
            display: Rgb::from_hundredths(98, 98, 100),
            display_text: Rgb::from_hundredths(10, 10, 15),
            number_btn: Rgb::from_hundredths(90, 90, 92),
            operator_btn: Rgb::from_hundredths(40, 60, 85),
            function_btn: Rgb::from_hundredths(70, 40, 85),
        }
    }

    /// The Dracula palette.
    pub fn dracula() -> (t: ColorTheme)
        ensures
            t == dracula_palette(),
            t.wf(),
    {
        ColorTheme {
            background: Rgb::from_hundredths(16, 16, 21),
            display: Rgb::from_hundredths(20, 20, 27),
            display_text: Rgb::from_hundredths(95, 95, 100),
            number_btn: Rgb::from_hundredths(27, 27, 35),
            operator_btn: Rgb::from_hundredths(100, 47, 78),
            function_btn: Rgb::from_hundredths(74, 58, 98),
        }
    }

    /// The Nord palette.
    pub fn nord() -> (t: ColorTheme)
        ensures
            t == nord_palette(),
            t.wf(),
    {
        ColorTheme {
            background: Rgb::from_hundredths(18, 20, 25),
            display: Rgb::from_hundredths(23, 26, 32),
            display_text: Rgb::from_hundredths(92, 94, 96),
            number_btn: Rgb::from_hundredths(30, 34, 42),
            operator_btn: Rgb::from_hundredths(53, 75, 82),
            function_btn: Rgb::from_hundredths(70, 56, 68),
        }
    }

    /// The Monokai palette.
    pub fn monokai() -> (t: ColorTheme)
        ensures
            t == monokai_palette(),
            t.wf(),
    {
        ColorTheme {
            background: Rgb::from_hundredths(16, 16, 14),
            display: Rgb::from_hundredths(20, 20, 18),
            display_text: Rgb::from_hundredths(97, 97, 95),
            number_btn: Rgb::from_hundredths(25, 25, 22),
            operator_btn: Rgb::from_hundredths(98, 47, 36),
            function_btn: Rgb::from_hundredths(64, 86, 29),
        }
    }

    /// The Solarized palette.
    pub fn solarized() -> (t: ColorTheme)
        ensures
            t == solarized_palette(),
            t.wf(),
    {
        ColorTheme {
            background: Rgb::from_hundredths(0, 17, 21),
            display: Rgb::from_hundredths(3, 21, 26),
            display_text: Rgb::from_hundredths(51, 58, 59),
            number_btn: Rgb::from_hundredths(7, 26, 31),
            operator_btn: Rgb::from_hundredths(15, 55, 82),
            function_btn: Rgb::from_hundredths(83, 21, 51),
        }
    }

    /// Replace channel `ch` of the color named by `target` with `v`.
    pub fn set_channel(&mut self, target: ColorTarget, ch: ColorChannel, v: u32)
        requires
            old(self).wf(),
            v <= CHANNEL_ONE,
        ensures
            *final(self) == old(self).spec_with_channel(target, ch, v),
            final(self).wf(),
    {
        let color = match target {
            ColorTarget::Background => &mut self.background,
            ColorTarget::Display => &mut self.display,
            ColorTarget::DisplayText => &mut self.display_text,
            ColorTarget::Number => &mut self.number_btn,
            ColorTarget::Operator => &mut self.operator_btn,
            ColorTarget::Function => &mut self.function_btn,
        };
        match ch {
            ColorChannel::Red => color.r = v,
            ColorChannel::Green => color.g = v,
            ColorChannel::Blue => color.b = v,
        }
    }
}

/// Every preset palette is well formed.
pub proof fn lemma_preset_palette_wf(p: Preset)
    ensures
        preset_palette(p).wf(),
{
}

} // verus!
