//! The legend: what the value of a pixel in a spoke means and how it is coloured.
use vstd::prelude::*;

use crate::brand::TargetMode;
use crate::text::{
    decimal, format_decimal, hex_byte, hex_byte_is_read_back, hex_text, push_hex_byte,
};

verus! {

/// What a pixel stands for. A legend holds the kinds in this order.
#[derive(Clone, Copy, Debug, PartialEq, Eq, Structural)]
pub enum PixelType {
    Normal,
    TargetBorder,
    DopplerApproaching,
    DopplerReceding,
    History,
}

impl PixelType {
    /// The name of the kind.
    pub open spec fn spec_name(self) -> Seq<char> {
        match self {
            PixelType::Normal => "Normal"@,
            PixelType::TargetBorder => "TargetBorder"@,
            PixelType::DopplerApproaching => "DopplerApproaching"@,
            PixelType::DopplerReceding => "DopplerReceding"@,
            PixelType::History => "History"@,
        }
    }

    /// The name of the kind.
    pub fn to_str(&self) -> (s: &'static str)
        ensures
            s@ == self.spec_name(),
    {
        match self {
            PixelType::Normal => "Normal",
            PixelType::TargetBorder => "TargetBorder",
            PixelType::DopplerApproaching => "DopplerApproaching",
            PixelType::DopplerReceding => "DopplerReceding",
            PixelType::History => "History",
        }
    }
}

/// A colour with its opacity.
#[derive(Clone, Copy, Debug, PartialEq, Eq, Structural)]
pub struct Color {
    pub r: u8,
    pub g: u8,
    pub b: u8,
    pub a: u8,
}

impl Color {
    /// The colour in hexadecimal notation, as in `#00c8c8ff`.
    pub open spec fn text(self) -> Seq<char> {
        seq!['#'] + hex_byte(self.r as int) + hex_byte(self.g as int) + hex_byte(self.b as int)
            + hex_byte(self.a as int)
    }

    /// The colour in hexadecimal notation, as in `#00c8c8ff`.
    pub fn to_text(&self) -> (s: String)
        ensures
            s@ == self.text(),
    {
        let mut s: String = String::new();
        s.push('#');
        push_hex_byte(&mut s, self.r);
        push_hex_byte(&mut s, self.g);
        push_hex_byte(&mut s, self.b);
        push_hex_byte(&mut s, self.a);
        assert(s@ =~= self.text());
        s
    }
}

/// An entry of a legend as clients get it.
#[derive(Debug)]
pub struct LegendEntry {
    /// The pixel value.
    pub key: String,
    pub kind: &'static str,
    pub color: String,
}

/// One entry of a legend.
#[derive(Clone, Copy, Debug, PartialEq, Eq, Structural)]
pub struct Lookup {
    pub kind: PixelType,
    pub color: Color,
}

/// The meaning of every pixel value.
#[derive(Debug)]
pub struct Legend {
    /// The entry of each pixel value.
    pub pixels: Vec<Lookup>,
    /// How many values stand for the strength of an echo.
    pub target_colors: u8,
    /// The value of a target border, or 0.
    pub border: u8,
    /// The value of an approaching target, or 0.
    pub doppler_approaching: u8,
    /// The value of a receding target, or 0.
    pub doppler_receding: u8,
    /// The first value of the target trails, or 0.
    pub history_start: u8,
    /// The value from which an echo is strong.
    pub strong_return: u8,
}

/// How many shades a target trail fades through.
pub const BLOB_HISTORY_COLORS: u8 = 32;

/// The most values that can stand for the strength of an echo, so that the trail shades and the
/// Doppler colours still fit in a byte.
pub const MAX_TARGET_COLORS: u8 = 221;

/// The opacity of no return.
pub const TRANSPARENT: u8 = 0;

/// The opacity of everything else.
pub const OPAQUE: u8 = 255;

/// A share of 255, cut off at 255. A share of nothing is 255, and nothing of nothing is 0.
pub open spec fn share(part: int, whole: int) -> int {
    if whole == 0 {
        if part == 0 {
            0
        } else {
            255
        }
    } else if 255 * part / whole > 255 {
        255
    } else {
        255 * part / whole
    }
}

/// The number of echo strengths that a legend has.
pub open spec fn echo_values(pixel_values: int) -> int {
    if pixel_values > MAX_TARGET_COLORS {
        MAX_TARGET_COLORS as int
    } else {
        pixel_values
    }
}

/// The colour of an echo of strength `v` out of `values`: blue rises to a third of the strongest
/// and falls from there, green rises from a third to two thirds and falls to the strongest, and red
/// rises from two thirds.
pub open spec fn echo_color(v: int, values: int) -> (int, int, int) {
    let top = values - 1;
    let third = top / 3;
    let two_thirds = third * 2;
    if v < third {
        (0, 0, share(v, third))
    } else if v < two_thirds {
        (0, share(v - third, third), share(two_thirds - v, third))
    } else {
        (share(v - two_thirds, third), share(top - v, third), 0)
    }
}

/// The entry of an echo of strength `v`: nothing at all is transparent.
pub open spec fn echo_lookup(v: int, values: int) -> Lookup {
    if v == 0 {
        lookup(PixelType::Normal, 0, 0, 0, TRANSPARENT)
    } else {
        let c = echo_color(v, values);
        lookup(PixelType::Normal, c.0, c.1, c.2, OPAQUE)
    }
}

/// An entry of a legend.
pub open spec fn lookup(kind: PixelType, r: int, g: int, b: int, a: u8) -> Lookup {
    Lookup { kind, color: Color { r: r as u8, g: g as u8, b: b as u8, a } }
}

/// The entries for the strength of an echo, closed by an opaque black one.
pub open spec fn echo_pixels(values: int) -> Seq<Lookup> {
    if values == 0 {
        seq![echo_lookup(0, 0)]
    } else {
        Seq::new(values as nat, |v: int| echo_lookup(v, values)).push(
            lookup(PixelType::Normal, 0, 0, 0, OPAQUE),
        )
    }
}

/// The entry for the border of a target.
pub open spec fn border_pixels(targets: TargetMode) -> Seq<Lookup> {
    if targets == TargetMode::Arpa {
        seq![lookup(PixelType::TargetBorder, 200, 200, 200, OPAQUE)]
    } else {
        Seq::empty()
    }
}

/// The entries for approaching and receding targets.
pub open spec fn doppler_pixels(doppler: bool) -> Seq<Lookup> {
    if doppler {
        seq![
            lookup(PixelType::DopplerApproaching, 255, 0, 255, OPAQUE),
            lookup(PixelType::DopplerReceding, 0, 255, 0, OPAQUE),
        ]
    } else {
        Seq::empty()
    }
}

/// The entries for target trails: shades of grey that start at white.
pub open spec fn history_pixels(targets: TargetMode) -> Seq<Lookup> {
    if targets == TargetMode::Off {
        Seq::empty()
    } else {
        Seq::new(
            BLOB_HISTORY_COLORS as nat,
            |n: int| lookup(PixelType::History, 255 - 6 * n, 255 - 6 * n, 255 - 6 * n, OPAQUE),
        )
    }
}

/// All entries of a legend. Without echo strengths there is nothing but the transparent entry.
pub open spec fn legend_pixels(targets: TargetMode, doppler: bool, pixel_values: int) -> Seq<
    Lookup,
> {
    let echoes = echo_pixels(echo_values(pixel_values));
    if pixel_values == 0 {
        echoes
    } else {
        echoes + border_pixels(targets) + doppler_pixels(doppler) + history_pixels(targets)
    }
}

impl Legend {
    /// Whether this is the legend for a radar with the given capabilities.
    pub open spec fn is_default(&self, targets: TargetMode, doppler: bool, pixel_values: int) -> bool {
        let values = echo_values(pixel_values);
        let border = values + 1;
        let approaching = border + border_pixels(targets).len();
        let history = approaching + doppler_pixels(doppler).len();
        &&& self.pixels@ == legend_pixels(targets, doppler, pixel_values)
        &&& self.target_colors == values
        &&& self.strong_return == if values == 0 {
            0
        } else {
            (values - 1) / 3 * 2
        }
        &&& self.border == if values > 0 && targets == TargetMode::Arpa {
            border
        } else {
            0
        }
        &&& self.doppler_approaching == if values > 0 && doppler {
            approaching
        } else {
            0
        }
        &&& self.doppler_receding == if values > 0 && doppler {
            approaching + 1
        } else {
            0
        }
        &&& self.history_start == if values > 0 && targets != TargetMode::Off {
            history
        } else {
            0
        }
    }

    /// The same legend.
    pub open spec fn is_same(&self, other: Legend) -> bool {
        &&& self.pixels@ == other.pixels@
        &&& self.target_colors == other.target_colors
        &&& self.border == other.border
        &&& self.doppler_approaching == other.doppler_approaching
        &&& self.doppler_receding == other.doppler_receding
        &&& self.history_start == other.history_start
        &&& self.strong_return == other.strong_return
    }

    /// The entries that clients get, in the order of the pixel values.
    pub fn serialize(&self) -> (entries: Vec<LegendEntry>)
        ensures
            entries@.len() == self.pixels@.len(),
            forall|i: int|
                0 <= i < entries@.len() ==> {
                    &&& (#[trigger] entries@[i]).key@ == decimal(i as nat)
                    &&& entries@[i].kind@ == self.pixels@[i].kind.spec_name()
                    &&& entries@[i].color@ == self.pixels@[i].color.text()
                },
    {
        let mut entries: Vec<LegendEntry> = Vec::new();
        let mut n: usize = 0;
        while n < self.pixels.len()
            invariant
                n <= self.pixels@.len(),
                entries@.len() == n,
                forall|i: int|
                    0 <= i < n ==> {
                        &&& (#[trigger] entries@[i]).key@ == decimal(i as nat)
                        &&& entries@[i].kind@ == self.pixels@[i].kind.spec_name()
                        &&& entries@[i].color@ == self.pixels@[i].color.text()
                    },
            decreases self.pixels@.len() - n,
        {
            let pixel = self.pixels[n];
            entries.push(
                LegendEntry {
                    key: format_decimal(n as u64),
                    kind: pixel.kind.to_str(),
                    color: pixel.color.to_text(),
                },
            );
            n = n + 1;
        }
        entries
    }

    /// Copies a legend.
    pub fn copy(&self) -> (r: Legend)
        ensures
            r.is_same(*self),
    {
        Legend {
            pixels: vstd::slice::slice_to_vec(self.pixels.as_slice()),
            target_colors: self.target_colors,
            border: self.border,
            doppler_approaching: self.doppler_approaching,
            doppler_receding: self.doppler_receding,
            history_start: self.history_start,
            strong_return: self.strong_return,
        }
    }
}

fn share_of(part: u8, whole: u8) -> (r: u8)
    ensures
        r == share(part as int, whole as int),
{
    if whole == 0 {
        if part == 0 {
            0
        } else {
            255
        }
    } else {
        let n: u32 = 255 * (part as u32) / (whole as u32);
        if n > 255 {
            255
        } else {
            n as u8
        }
    }
}

fn opaque(kind: PixelType, r: u8, g: u8, b: u8) -> (l: Lookup)
    ensures
        l == lookup(kind, r as int, g as int, b as int, OPAQUE),
{
    Lookup { kind, color: Color { r, g, b, a: OPAQUE } }
}

fn echo_entry(v: u8, values: u8) -> (l: Lookup)
    requires
        0 < v < values,
    ensures
        l == echo_lookup(v as int, values as int),
{
    let top: u8 = values - 1;
    let third: u8 = top / 3;
    let two_thirds: u8 = third * 2;
    if v < third {
        opaque(PixelType::Normal, 0, 0, share_of(v, third))
    } else if v < two_thirds {
        opaque(PixelType::Normal, 0, share_of(v - third, third), share_of(two_thirds - v, third))
    } else {
        opaque(PixelType::Normal, share_of(v - two_thirds, third), share_of(top - v, third), 0)
    }
}

/// Makes the legend for a radar: `pixel_values` echo strengths, with the colours for targets and
/// Doppler returns that are asked for.
pub fn default_legend(targets: &TargetMode, doppler: bool, pixel_values: u8) -> (legend: Legend)
    ensures
        legend.is_default(*targets, doppler, pixel_values as int),
{
    let values: u8 = if pixel_values > MAX_TARGET_COLORS {
        MAX_TARGET_COLORS
    } else {
        pixel_values
    };
    let mut pixels: Vec<Lookup> = Vec::new();
    pixels.push(
        Lookup { kind: PixelType::Normal, color: Color { r: 0, g: 0, b: 0, a: TRANSPARENT } },
    );
    if values == 0 {
        assert(pixels@ =~= echo_pixels(0));
        return Legend {
            pixels,
            target_colors: 0,
            border: 0,
            doppler_approaching: 0,
            doppler_receding: 0,
            history_start: 0,
            strong_return: 0,
        };
    }
    let strong_return: u8 = (values - 1) / 3 * 2;
    let mut v: u8 = 1;
    while v < values
        invariant
            1 <= v <= values,
            pixels@ == Seq::new(v as nat, |i: int| echo_lookup(i, values as int)),
        decreases values - v,
    {
        pixels.push(echo_entry(v, values));
        v = v + 1;
        assert(pixels@ =~= Seq::new(v as nat, |i: int| echo_lookup(i, values as int)));
    }
    pixels.push(opaque(PixelType::Normal, 0, 0, 0));
    assert(pixels@ =~= echo_pixels(values as int));

    let mut border: u8 = 0;
    if *targets == TargetMode::Arpa {
        border = pixels.len() as u8;
        pixels.push(opaque(PixelType::TargetBorder, 200, 200, 200));
    }
    let ghost with_border = echo_pixels(values as int) + border_pixels(*targets);
    assert(pixels@ =~= with_border);

    let mut doppler_approaching: u8 = 0;
    let mut doppler_receding: u8 = 0;
    if doppler {
        doppler_approaching = pixels.len() as u8;
        pixels.push(opaque(PixelType::DopplerApproaching, 255, 0, 255));
        doppler_receding = pixels.len() as u8;
        pixels.push(opaque(PixelType::DopplerReceding, 0, 255, 0));
    }
    let ghost with_doppler = with_border + doppler_pixels(doppler);
    assert(pixels@ =~= with_doppler);

    let mut history_start: u8 = 0;
    if *targets != TargetMode::Off {
        history_start = pixels.len() as u8;
        let mut n: u8 = 0;
        while n < BLOB_HISTORY_COLORS
            invariant
                *targets != TargetMode::Off,
                n <= BLOB_HISTORY_COLORS,
                pixels@ == with_doppler + history_pixels(*targets).take(n as int),
            decreases BLOB_HISTORY_COLORS - n,
        {
            let density: u8 = 255 - 6 * n;
            pixels.push(opaque(PixelType::History, density, density, density));
            n = n + 1;
            assert(pixels@ =~= with_doppler + history_pixels(*targets).take(n as int));
        }
        assert(history_pixels(*targets).take(n as int) =~= history_pixels(*targets));
    }
    assert(pixels@ =~= with_doppler + history_pixels(*targets));
    Legend {
        pixels,
        target_colors: values,
        border,
        doppler_approaching,
        doppler_receding,
        history_start,
        strong_return,
    }
}

/// The special values of a legend stand for what they are named after, and no echo strength
/// collides with them.
pub proof fn special_values_are_distinct(
    legend: Legend,
    targets: TargetMode,
    doppler: bool,
    pixel_values: int,
)
    requires
        0 < pixel_values < 256,
        legend.is_default(targets, doppler, pixel_values),
    ensures
        targets == TargetMode::Arpa ==> legend.border > legend.target_colors
            && legend.pixels@[legend.border as int].kind == PixelType::TargetBorder,
        doppler ==> legend.doppler_approaching > legend.target_colors
            && legend.doppler_receding == legend.doppler_approaching + 1
            && legend.pixels@[legend.doppler_approaching as int].kind
            == PixelType::DopplerApproaching
            && legend.pixels@[legend.doppler_receding as int].kind == PixelType::DopplerReceding,
        targets != TargetMode::Off ==> legend.history_start > legend.target_colors && forall|i: int|
            legend.history_start <= i < legend.pixels@.len() ==> (
            #[trigger] legend.pixels@[i]).kind == PixelType::History,
        targets == TargetMode::Arpa && doppler ==> legend.border < legend.doppler_approaching
            < legend.history_start,
        forall|i: int|
            0 <= i <= legend.target_colors ==> (#[trigger] legend.pixels@[i]).kind
                == PixelType::Normal,
{
    let values = echo_values(pixel_values);
    assert(echo_pixels(values).len() == values + 1);
}

/// Every entry but that of no return at all is opaque.
pub proof fn only_no_return_is_transparent(targets: TargetMode, doppler: bool, pixel_values: int)
    requires
        0 <= pixel_values < 256,
    ensures
        forall|i: int|
            0 <= i < legend_pixels(targets, doppler, pixel_values).len() ==> ((
            #[trigger] legend_pixels(targets, doppler, pixel_values)[i]).color.a == TRANSPARENT
                <==> i == 0),
{
}

/// The values of a legend: as many strengths as the radar has, up to what fits, one more that closes
/// them, and what is asked for on top. All of them fit in a byte.
pub proof fn values_are_counted(
    legend: Legend,
    targets: TargetMode,
    doppler: bool,
    pixel_values: int,
)
    requires
        0 < pixel_values < 256,
        legend.is_default(targets, doppler, pixel_values),
    ensures
        pixel_values <= 221 ==> legend.target_colors == pixel_values,
        pixel_values > 221 ==> legend.target_colors == 221,
        legend.pixels@.len() == legend.target_colors + 1 + (if targets == TargetMode::Arpa {
            1int
        } else {
            0
        }) + (if doppler {
            2int
        } else {
            0
        }) + (if targets != TargetMode::Off {
            32int
        } else {
            0
        }),
        legend.pixels@.len() <= 257,
{
}

proof fn share_is(part: int, whole: int)
    requires
        0 <= part,
        0 < whole <= 255,
    ensures
        0 <= share(part, whole) <= 255,
        part == 0 ==> share(part, whole) == 0,
        part >= 1 ==> share(part, whole) >= 1,
        part >= whole ==> share(part, whole) == 255,
{
    assert(part >= 1 ==> 255 * part / whole >= 1) by (nonlinear_arith)
        requires
            0 <= part,
            0 < whole <= 255,
    ;
    assert(part >= whole ==> 255 * part / whole >= 255) by (nonlinear_arith)
        requires
            0 <= part,
            0 < whole <= 255,
    ;
    assert(part == 0 ==> 255 * part / whole == 0) by (nonlinear_arith)
        requires
            0 <= part,
            0 < whole <= 255,
    ;
    assert(255 * part / whole >= 0) by (nonlinear_arith)
        requires
            0 <= part,
            0 < whole <= 255,
    ;
}

proof fn share_grows(a: int, b: int, whole: int)
    requires
        0 <= a <= b,
        0 < whole <= 255,
    ensures
        share(a, whole) <= share(b, whole),
{
    assert(255 * a / whole <= 255 * b / whole) by (nonlinear_arith)
        requires
            0 <= a <= b,
            0 < whole <= 255,
    ;
}

/// The colour of an echo tells its strength: weak ones are blue, those of medium strength have some
/// green, and strong ones some red and no blue. The strongest is pure red.
pub proof fn colors_tell_the_strength(
    legend: Legend,
    targets: TargetMode,
    doppler: bool,
    pixel_values: int,
    v: int,
)
    requires
        4 <= pixel_values < 256,
        legend.is_default(targets, doppler, pixel_values),
        0 < v < legend.target_colors,
    ensures
        ({
            let c = legend.pixels@[v].color;
            let strong = legend.strong_return as int;
            &&& 3 * strong <= 2 * (legend.target_colors - 1) < 3 * strong + 6
            &&& strong % 2 == 0
            &&& c.a == 255
            &&& c.b > 0 <==> v < strong
            &&& 2 * v <= strong ==> c.r == 0 && c.g == 0
            &&& 2 * v > strong && v < strong ==> c.r == 0 && c.g > 0
            &&& v > strong ==> c.r > 0
            &&& 2 * v == strong ==> c.b == 255
            &&& v == strong ==> c.r == 0 && c.g == 255
            &&& v == legend.target_colors - 1 ==> c.r == 255 && c.g == 0 && c.b == 0
        }),
{
    let values = legend.target_colors as int;
    let top = values - 1;
    let third = top / 3;
    assert(legend.pixels@[v] == echo_lookup(v, values));
    share_is(v, third);
    if v >= third {
        share_is(v - third, third);
    }
    if v <= 2 * third {
        share_is(2 * third - v, third);
    }
    if v >= 2 * third {
        share_is(v - 2 * third, third);
        share_is(top - v, third);
    }
}

/// A stronger echo is never bluer than a weaker one once it is of medium strength, and never less red.
pub proof fn stronger_is_redder(values: int, v: int, w: int)
    requires
        4 <= values <= 221,
        0 <= v <= w < values,
    ensures
        echo_color(v, values).0 <= echo_color(w, values).0,
        w < (values - 1) / 3 ==> echo_color(v, values).2 <= echo_color(w, values).2,
        (values - 1) / 3 <= v ==> echo_color(w, values).2 <= echo_color(v, values).2,
{
    let third = (values - 1) / 3;
    if w >= 2 * third {
        share_is(w - 2 * third, third);
        if v >= 2 * third {
            share_grows(v - 2 * third, w - 2 * third, third);
        }
    }
    if w < third {
        share_grows(v, w, third);
    }
    if third <= v && w < 2 * third {
        share_grows(2 * third - w, 2 * third - v, third);
    }
    if third <= v < 2 * third {
        share_is(2 * third - v, third);
    }
}

/// What stands for no strength has a colour of its own: borders are grey, approaching targets purple,
/// receding ones green, and trails fade from white in equal steps of grey.
pub proof fn special_values_have_their_colors(
    legend: Legend,
    targets: TargetMode,
    doppler: bool,
    pixel_values: int,
    n: int,
)
    requires
        0 < pixel_values < 256,
        legend.is_default(targets, doppler, pixel_values),
        0 <= n < 32,
    ensures
        targets == TargetMode::Arpa ==> legend.pixels@[legend.border as int].color == (Color {
            r: 200,
            g: 200,
            b: 200,
            a: 255,
        }),
        doppler ==> legend.pixels@[legend.doppler_approaching as int].color == (Color {
            r: 255,
            g: 0,
            b: 255,
            a: 255,
        }),
        doppler ==> legend.pixels@[legend.doppler_receding as int].color == (Color {
            r: 0,
            g: 255,
            b: 0,
            a: 255,
        }),
        targets != TargetMode::Off ==> ({
            let c = legend.pixels@[legend.history_start + n].color;
            c.r == 255 - 6 * n && c.g == c.r && c.b == c.r && c.a == 255
        }),
        targets != TargetMode::Arpa ==> legend.border == 0,
        !doppler ==> legend.doppler_approaching == 0 && legend.doppler_receding == 0,
        targets == TargetMode::Off ==> legend.history_start == 0,
{
    let values = echo_values(pixel_values);
    assert(echo_pixels(values).len() == values + 1);
    if targets != TargetMode::Off {
        assert(legend.pixels@[legend.history_start + n] == history_pixels(targets)[n]);
    }
}

/// A radar without strengths has nothing to show.
pub proof fn nothing_to_show(legend: Legend, targets: TargetMode, doppler: bool)
    requires
        legend.is_default(targets, doppler, 0),
    ensures
        legend.pixels@.len() == 1,
        legend.pixels@[0].color.a == 0,
        legend.target_colors == 0 && legend.border == 0 && legend.doppler_approaching == 0
            && legend.doppler_receding == 0 && legend.history_start == 0 && legend.strong_return == 0,
{
}

/// The text of a colour holds its red, green and blue parts and its opacity, two digits each.
pub proof fn colors_are_read_back(c: Color)
    ensures
        c.text().len() == 9,
        c.text()[0] == '#',
        hex_text(c.text().subrange(1, 3)) == Some(c.r as int),
        hex_text(c.text().subrange(3, 5)) == Some(c.g as int),
        hex_text(c.text().subrange(5, 7)) == Some(c.b as int),
        hex_text(c.text().subrange(7, 9)) == Some(c.a as int),
{
    hex_byte_is_read_back(c.r as int);
    hex_byte_is_read_back(c.g as int);
    hex_byte_is_read_back(c.b as int);
    hex_byte_is_read_back(c.a as int);
    assert(c.text().subrange(1, 3) =~= hex_byte(c.r as int));
    assert(c.text().subrange(3, 5) =~= hex_byte(c.g as int));
    assert(c.text().subrange(5, 7) =~= hex_byte(c.b as int));
    assert(c.text().subrange(7, 9) =~= hex_byte(c.a as int));
}

/// Two legends are the same where all their entries and all their special values are.
pub proof fn same_legends_agree(a: Legend, b: Legend, i: int)
    requires
        a.is_same(b),
    ensures
        a.pixels@.len() == b.pixels@.len(),
        0 <= i < a.pixels@.len() ==> a.pixels@[i] == b.pixels@[i],
        a.target_colors == b.target_colors,
        a.border == b.border,
        a.doppler_approaching == b.doppler_approaching,
        a.doppler_receding == b.doppler_receding,
        a.history_start == b.history_start,
        a.strong_return == b.strong_return,
        b.is_same(a),
{
}

} // verus!
