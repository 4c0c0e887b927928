use crate::color::{
    distance_of, hex_color_value, is_hex_color, lightness, lightness_of, manhattan_distance,
    parse_hex_color, Color,
};
use crate::error::PaletteLoaderError;
use vstd::prelude::*;
use vstd::std_specs::iter::IteratorSpec;

verus! {

/// A Lospec palette: an ordered list of colors. The queries need at least
/// one color; `try_from` never builds an empty palette, and neither does
/// `default`.
#[derive(Clone, Debug)]
pub struct Palette(pub Vec<Color>);

impl View for Palette {
    type V = Seq<Color>;

    open spec fn view(&self) -> Seq<Color> {
        self.0@
    }
}

/// Every text of the list is a hex color.
pub open spec fn all_hex_colors(texts: Seq<String>) -> bool {
    forall|i: int| 0 <= i < texts.len() ==> is_hex_color(#[trigger] texts[i]@)
}

/// The colors that a list of hex texts denotes, in order.
pub open spec fn hex_colors_value(texts: Seq<String>) -> Seq<Color> {
    texts.map_values(|t: String| hex_color_value(t@))
}

/// `i` is the first position of a color of greatest lightness.
pub open spec fn is_lightest_at(colors: Seq<Color>, i: int) -> bool {
    &&& 0 <= i < colors.len()
    &&& forall|j: int| 0 <= j < colors.len() ==> lightness_of(#[trigger] colors[j]) <= lightness_of(colors[i])
    &&& forall|j: int| 0 <= j < i ==> lightness_of(#[trigger] colors[j]) < lightness_of(colors[i])
}

/// `i` is the first position of a color of least lightness.
pub open spec fn is_darkest_at(colors: Seq<Color>, i: int) -> bool {
    &&& 0 <= i < colors.len()
    &&& forall|j: int| 0 <= j < colors.len() ==> lightness_of(colors[i]) <= lightness_of(#[trigger] colors[j])
    &&& forall|j: int| 0 <= j < i ==> lightness_of(colors[i]) < lightness_of(#[trigger] colors[j])
}

/// `i` is the first position of a color at the least distance from `query`.
pub open spec fn is_closest_at(colors: Seq<Color>, query: Color, i: int) -> bool {
    &&& 0 <= i < colors.len()
    &&& forall|j: int| 0 <= j < colors.len() ==> distance_of(colors[i], query) <= distance_of(#[trigger] colors[j], query)
    &&& forall|j: int| 0 <= j < i ==> distance_of(colors[i], query) < distance_of(#[trigger] colors[j], query)
}

impl Palette {
    /// The position of the first color of greatest lightness.
    pub fn lightest_index(&self) -> (r: usize)
        requires
            self@.len() > 0,
        ensures
            is_lightest_at(self@, r as int),
    {
        let mut best: usize = 0;
        let mut best_score: u32 = lightness(&self.0[0]);
        let mut i: usize = 1;
        while i < self.0.len()
            invariant
                1 <= i <= self@.len(),
                best < i,
                best_score == lightness_of(self@[best as int]),
                forall|j: int| 0 <= j < i ==> lightness_of(#[trigger] self@[j]) <= best_score,
                forall|j: int| 0 <= j < best ==> lightness_of(#[trigger] self@[j]) < best_score,
            decreases self@.len() - i,
        {
            let score = lightness(&self.0[i]);
            if score > best_score {
                best = i;
                best_score = score;
            }
            i = i + 1;
        }
        best
    }

    /// The position of the first color of least lightness.
    pub fn darkest_index(&self) -> (r: usize)
        requires
            self@.len() > 0,
        ensures
            is_darkest_at(self@, r as int),
    {
        let mut best: usize = 0;
        let mut best_score: u32 = lightness(&self.0[0]);
        let mut i: usize = 1;
        while i < self.0.len()
            invariant
                1 <= i <= self@.len(),
                best < i,
                best_score == lightness_of(self@[best as int]),
                forall|j: int| 0 <= j < i ==> best_score <= lightness_of(#[trigger] self@[j]),
                forall|j: int| 0 <= j < best ==> best_score < lightness_of(#[trigger] self@[j]),
            decreases self@.len() - i,
        {
            let score = lightness(&self.0[i]);
            if score < best_score {
                best = i;
                best_score = score;
            }
            i = i + 1;
        }
        best
    }

    /// The first color of greatest lightness.
    pub fn lightest(&self) -> (r: Color)
        requires
            self@.len() > 0,
        ensures
            exists|i: int| is_lightest_at(self@, i) && r == self@[i],
    {
        let i = self.lightest_index();
        self.0[i]
    }

    /// The first color of least lightness.
    pub fn darkest(&self) -> (r: Color)
        requires
            self@.len() > 0,
        ensures
            exists|i: int| is_darkest_at(self@, i) && r == self@[i],
    {
        let i = self.darkest_index();
        self.0[i]
    }

    /// The position and value of the first color nearest to `color` by
    /// Manhattan distance.
    pub fn closest(&self, color: Color) -> (r: (usize, Color))
        requires
            self@.len() > 0,
        ensures
            is_closest_at(self@, color, r.0 as int),
            r.1 == self@[r.0 as int],
    {
        let mut best: usize = 0;
        let mut best_score: u32 = manhattan_distance(&self.0[0], &color);
        let mut i: usize = 1;
        while i < self.0.len()
            invariant
                1 <= i <= self@.len(),
                best < i,
                best_score == distance_of(self@[best as int], color),
                forall|j: int| 0 <= j < i ==> best_score <= distance_of(#[trigger] self@[j], color),
                forall|j: int| 0 <= j < best ==> best_score < distance_of(#[trigger] self@[j], color),
            decreases self@.len() - i,
        {
            let score = manhattan_distance(&self.0[i], &color);
            if score < best_score {
                best = i;
                best_score = score;
            }
            i = i + 1;
        }
        (best, self.0[best])
    }

    /// Builds a palette from a list of hex colors, in order. An empty list is
    /// refused, and so is the first text that is not a hex color.
    pub fn try_from(colors: &Vec<String>) -> (r: Result<Palette, PaletteLoaderError>)
        ensures
            match r {
                Ok(p) => colors@.len() > 0 && all_hex_colors(colors@) && p@ == hex_colors_value(
                    colors@,
                ),
                Err(PaletteLoaderError::Empty) => colors@.len() == 0,
                Err(PaletteLoaderError::HexColor { index, text }) => {
                    &&& index < colors@.len()
                    &&& !is_hex_color(colors@[index as int]@)
                    &&& text@ == colors@[index as int]@
                    &&& forall|j: int| 0 <= j < index ==> is_hex_color(#[trigger] colors@[j]@)
                },
                Err(_) => false,
            },
    {
        if colors.len() == 0 {
            return Err(PaletteLoaderError::Empty);
        }
        let mut parsed: Vec<Color> = Vec::new();
        let mut i: usize = 0;
        while i < colors.len()
            invariant
                i <= colors@.len(),
                forall|j: int| 0 <= j < i ==> is_hex_color(#[trigger] colors@[j]@),
                parsed@ == hex_colors_value(colors@.subrange(0, i as int)),
            decreases colors@.len() - i,
        {
            match parse_hex_color(colors[i].as_str()) {
                Some(c) => {
                    parsed.push(c);
                },
                None => {
                    return Err(PaletteLoaderError::HexColor { index: i, text: colors[i].clone() });
                },
            }
            assert(colors@.subrange(0, i + 1) =~= colors@.subrange(0, i as int).push(colors@[i as int]));
            i = i + 1;
        }
        assert(colors@.subrange(0, i as int) =~= colors@);
        Ok(Palette(parsed))
    }

    /// The colors, in order, without copying them.
    pub fn iter(&self) -> (r: std::slice::Iter<'_, Color>)
        ensures
            r.remaining() == self@.as_ref(),
    {
        self.0.as_slice().iter()
    }
}

/// The palette used where no file is given: pink, azure, aquamarine, gold,
/// black and white, with the normalized channels (1.0, 0.08, 0.58),
/// (0.94, 1.0, 1.0), (0.49, 1.0, 0.83) and (1.0, 0.84, 0.0) for the first four,
/// each rounded to the nearest 8-bit value.
pub open spec fn default_colors() -> Seq<Color> {
    seq![
        Color { red: 255, green: 20, blue: 148, alpha: 255 },
        Color { red: 240, green: 255, blue: 255, alpha: 255 },
        Color { red: 125, green: 255, blue: 212, alpha: 255 },
        Color { red: 255, green: 214, blue: 0, alpha: 255 },
        Color { red: 0, green: 0, blue: 0, alpha: 255 },
        Color { red: 255, green: 255, blue: 255, alpha: 255 },
    ]
}

impl Default for Palette {
    fn default() -> (r: Palette)
        ensures
            r@ == default_colors(),
            r@.len() == 6,
    {
        let colors: Vec<Color> = vec![
            Color::rgb(255, 20, 148),
            Color::rgb(240, 255, 255),
            Color::rgb(125, 255, 212),
            Color::rgb(255, 214, 0),
            Color::rgb(0, 0, 0),
            Color::rgb(255, 255, 255),
        ];
        assert(colors@ =~= default_colors());
        Palette(colors)
    }
}

impl From<Vec<Color>> for Palette {
    fn from(colors: Vec<Color>) -> (r: Palette) {
        Palette(colors)
    }
}

impl vstd::std_specs::convert::FromSpecImpl<Vec<Color>> for Palette {
    open spec fn obeys_from_spec() -> bool {
        true
    }

    open spec fn from_spec(v: Vec<Color>) -> Palette {
        Palette(v)
    }
}

} // verus!
