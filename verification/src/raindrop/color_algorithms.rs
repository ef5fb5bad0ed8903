//! Algorithms that determine the color of `Raindrop` follower characters.
//!
//! All quantities are exact integers in thousandths: a hue is given in
//! thousandths of a degree (`0` up to `360_000`), while saturation,
//! lightness and the follower proportion are given in thousandths of one
//! (`0` up to `1000`).

use vstd::prelude::*;

verus! {

/// One unit (`1.0`) expressed in thousandths; proportions, saturations and
/// lightnesses range over `0..=PROPORTION_SCALE`.
pub const PROPORTION_SCALE: u32 = 1000;

/// A color in hue/saturation/lightness form.
///
/// `hue` is in thousandths of a degree and stays at or below `360_000`;
/// `saturation` and `lightness` are in thousandths of one and stay at or
/// below `1000`.
#[derive(Clone, Copy, Debug, PartialEq, Eq, Structural)]
pub struct Hsl {
    pub hue: u32,
    pub saturation: u32,
    pub lightness: u32,
}

/// A single character ready to be written to the terminal: the character
/// itself, its foreground color, and whether it is drawn bold.
#[derive(Clone, Copy, Debug, PartialEq, Eq, Structural)]
pub struct StyledChar {
    pub ch: char,
    pub color: Hsl,
    pub bold: bool,
}

/// The fixed style of a raindrop's head character: bright neutral white.
pub open spec fn head_color_spec() -> Hsl {
    Hsl { hue: 0, saturation: 0, lightness: 1000 }
}

/// Returns the fixed head color, a bright neutral white.
pub fn head_color() -> (color: Hsl)
    ensures
        color == head_color_spec(),
{
    Hsl { hue: 0, saturation: 0, lightness: 1000 }
}

/// A strategy that maps a character's proportional distance from the
/// raindrop's head (`0` = adjacent to the head, `1000` = tail end, in
/// thousandths) to a color.  Strategies are stateless apart from their
/// fixed parameters and are copied by value into every raindrop.
pub trait ColorAlgorithm: Sized + Copy {
    /// Whether this strategy's fixed parameters lie in their declared
    /// ranges: hues below 360 degrees, saturations and lightnesses at most
    /// one.
    spec fn params_valid(&self) -> bool;

    /// The color this strategy assigns to the given proportion.
    spec fn color_spec(&self, proportion: int) -> Hsl;

    /// Runtime test of `params_valid`, for callers configuring a strategy
    /// from unvalidated input.
    fn params_in_range(&self) -> (ok: bool)
        ensures
            ok == self.params_valid(),
    ;

    /// Returns the color for a character at the given proportional distance
    /// from the head, in thousandths.  Parameters and proportion outside
    /// their declared ranges are a caller contract error.
    fn gen_color(&self, proportion: u32) -> (color: Hsl)
        requires
            self.params_valid(),
            proportion <= PROPORTION_SCALE,
        ensures
            color == self.color_spec(proportion as int),
    ;

    /// Validating form of `gen_color`: yields a color exactly when the
    /// strategy's parameters and the proportion are in range, and refuses
    /// (rather than clamping) anything else.
    fn gen_color_checked(&self, proportion: u32) -> (color: Option<Hsl>)
        ensures
            color == if self.params_valid() && proportion <= PROPORTION_SCALE {
                Some(self.color_spec(proportion as int))
            } else {
                None::<Hsl>
            },
    {
        if self.params_in_range() && proportion <= PROPORTION_SCALE {
            Some(self.gen_color(proportion))
        } else {
            None
        }
    }
}

/// Colors characters with lightness descending as they trail the head:
/// lightness is `0.9` minus the proportion, never below `0.1`; hue and
/// saturation are fixed.
#[derive(Clone, Copy, Debug, PartialEq, Eq, Structural)]
pub struct LightnessDescending {
    /// Hue of the base color, in thousandths of a degree, below `360_000`.
    pub hue: u32,
    /// Saturation of the base color, in thousandths, at most `1000`.
    pub saturation: u32,
}

impl ColorAlgorithm for LightnessDescending {
    open spec fn params_valid(&self) -> bool {
        self.hue < 360_000 && self.saturation <= 1000
    }

    open spec fn color_spec(&self, proportion: int) -> Hsl {
        Hsl {
            hue: self.hue,
            saturation: self.saturation,
            lightness: if 900 - proportion >= 100 {
                (900 - proportion) as u32
            } else {
                100
            },
        }
    }

    fn params_in_range(&self) -> (ok: bool) {
        self.hue < 360_000 && self.saturation <= 1000
    }

    fn gen_color(&self, proportion: u32) -> (color: Hsl) {
        let lightness = if proportion <= 800 {
            900 - proportion
        } else {
            100
        };
        Hsl { hue: self.hue, saturation: self.saturation, lightness }
    }
}

/// Colors characters with saturation descending as they trail the head:
/// saturation is one minus the proportion; hue and lightness are fixed.
#[derive(Clone, Copy, Debug, PartialEq, Eq, Structural)]
pub struct SaturationDescending {
    /// Hue of the base color, in thousandths of a degree, below `360_000`.
    pub hue: u32,
    /// Lightness of the base color, in thousandths, at most `1000`.
    pub lightness: u32,
}

impl ColorAlgorithm for SaturationDescending {
    open spec fn params_valid(&self) -> bool {
        self.hue < 360_000 && self.lightness <= 1000
    }

    open spec fn color_spec(&self, proportion: int) -> Hsl {
        Hsl {
            hue: self.hue,
            saturation: (1000 - proportion) as u32,
            lightness: self.lightness,
        }
    }

    fn params_in_range(&self) -> (ok: bool) {
        self.hue < 360_000 && self.lightness <= 1000
    }

    fn gen_color(&self, proportion: u32) -> (color: Hsl) {
        Hsl {
            hue: self.hue,
            saturation: 1000 - proportion,
            lightness: self.lightness,
        }
    }
}

/// Colors characters with hue varying along the tail: the hue is the
/// proportion of a full turn, producing a rainbow sweep; saturation and
/// lightness are fixed.
#[derive(Clone, Copy, Debug, PartialEq, Eq, Structural)]
pub struct HueVariation {
    /// Saturation of the base color, in thousandths, at most `1000`.
    pub saturation: u32,
    /// Lightness of the base color, in thousandths, at most `1000`.
    pub lightness: u32,
}

impl ColorAlgorithm for HueVariation {
    open spec fn params_valid(&self) -> bool {
        self.saturation <= 1000 && self.lightness <= 1000
    }

    open spec fn color_spec(&self, proportion: int) -> Hsl {
        Hsl {
            hue: (proportion * 360) as u32,
            saturation: self.saturation,
            lightness: self.lightness,
        }
    }

    fn params_in_range(&self) -> (ok: bool) {
        self.saturation <= 1000 && self.lightness <= 1000
    }

    fn gen_color(&self, proportion: u32) -> (color: Hsl) {
        Hsl {
            hue: proportion * 360,
            saturation: self.saturation,
            lightness: self.lightness,
        }
    }
}

} // verus!
