//! The catalogue of shapes that can be drawn, their cycling order and their
//! names in the settings file.

use vstd::prelude::*;

use crate::text::{spells, to_chars};

verus! {

/// The shapes that can be drawn.
#[derive(Clone, Copy, PartialEq, Eq, Structural, Debug)]
pub enum Shape {
    /// Two sines 60 degrees apart: a tilted ellipse.
    Ellipse,
    /// Two sines 90 degrees apart: a circle.
    Circle,
    /// Frequency ratio 1:2: a lying figure eight.
    Figure8,
    /// A parametric heart.
    Heart,
    /// A five-pointed star.
    Star,
    /// A five-petal rose, r = cos(5 theta).
    Rose,
    /// Fay's butterfly curve.
    Butterfly,
    /// A spiral that opens out from the centre and closes back into it.
    Spiral,
}

/// Number of shapes in the catalogue.
pub const SHAPE_COUNT: usize = 8;

/// The cycling order, as a sequence.
pub open spec fn all_shapes() -> Seq<Shape> {
    seq![
        Shape::Ellipse,
        Shape::Circle,
        Shape::Figure8,
        Shape::Heart,
        Shape::Star,
        Shape::Rose,
        Shape::Butterfly,
        Shape::Spiral,
    ]
}

/// The position of `s` in the cycling order.
pub open spec fn spec_index(s: Shape) -> int {
    match s {
        Shape::Ellipse => 0,
        Shape::Circle => 1,
        Shape::Figure8 => 2,
        Shape::Heart => 3,
        Shape::Star => 4,
        Shape::Rose => 5,
        Shape::Butterfly => 6,
        Shape::Spiral => 7,
    }
}

/// The shape that follows `s` in the cycling order, wrapping at the end.
pub open spec fn spec_next(s: Shape) -> Shape {
    all_shapes()[(spec_index(s) + 1) % 8]
}

/// The shape that a settings-file name denotes, in English or in Turkish.
pub open spec fn shape_named(name: Seq<char>) -> Option<Shape> {
    if name == "ellipse"@ || name == "elips"@ {
        Some(Shape::Ellipse)
    } else if name == "circle"@ || name == "cember"@ {
        Some(Shape::Circle)
    } else if name == "figure8"@ || name == "sekiz"@ {
        Some(Shape::Figure8)
    } else if name == "heart"@ || name == "kalp"@ {
        Some(Shape::Heart)
    } else if name == "star"@ || name == "yildiz"@ {
        Some(Shape::Star)
    } else if name == "rose"@ || name == "gul"@ || name == "cicek"@ || name == "flower"@ {
        Some(Shape::Rose)
    } else if name == "butterfly"@ || name == "kelebek"@ {
        Some(Shape::Butterfly)
    } else if name == "spiral"@ {
        Some(Shape::Spiral)
    } else {
        None
    }
}

/// The shape reached from `s` after `n` presses of the button.
pub open spec fn next_n(s: Shape, n: nat) -> Shape
    decreases n,
{
    if n == 0 {
        s
    } else {
        spec_next(next_n(s, (n - 1) as nat))
    }
}

/// After `n` presses the position in the cycling order has advanced by `n`,
/// modulo the number of shapes.
pub proof fn lemma_next_n_index(s: Shape, n: nat)
    ensures
        spec_index(next_n(s, n)) == (spec_index(s) + n) % 8,
    decreases n,
{
    if n > 0 {
        lemma_next_n_index(s, (n - 1) as nat);
        let p = next_n(s, (n - 1) as nat);
        assert(spec_index(spec_next(p)) == (spec_index(p) + 1) % 8);
        assert(((spec_index(s) + (n - 1)) % 8 + 1) % 8 == (spec_index(s) + n) % 8) by (
        nonlinear_arith)
            requires
                n > 0,
                0 <= spec_index(s) < 8,
        ;
    }
}

/// Two shapes at the same position in the cycling order are the same shape.
pub proof fn lemma_index_injective(a: Shape, b: Shape)
    requires
        spec_index(a) == spec_index(b),
    ensures
        a == b,
{
}

/// The position of a shape picks it out of the cycling order, and every
/// position below the number of shapes holds exactly one shape.
pub proof fn lemma_index_all(s: Shape)
    ensures
        0 <= spec_index(s) < 8,
        all_shapes()[spec_index(s)] == s,
        all_shapes().len() == 8,
        forall|i: int| 0 <= i < 8 ==> spec_index(#[trigger] all_shapes()[i]) == i,
{
}

/// Pressing the button eight times brings back the shape one started from,
/// and every shape is reached from any other within fewer than eight presses.
pub proof fn lemma_button_cycle(s: Shape, t: Shape)
    ensures
        next_n(s, 8) == s,
        next_n(s, ((spec_index(t) - spec_index(s) + 8) % 8) as nat) == t,
        ((spec_index(t) - spec_index(s) + 8) % 8) < 8,
{
    lemma_next_n_index(s, 8);
    lemma_index_injective(next_n(s, 8), s);
    let k = ((spec_index(t) - spec_index(s) + 8) % 8) as nat;
    lemma_next_n_index(s, k);
    assert((spec_index(s) + (spec_index(t) - spec_index(s) + 8) % 8) % 8 == spec_index(t)) by (
    nonlinear_arith)
        requires
            0 <= spec_index(s) < 8,
            0 <= spec_index(t) < 8,
    ;
    lemma_index_injective(next_n(s, k), t);
}

/// Every name of the settings file, English and Turkish, picks its shape.
pub proof fn lemma_shape_names()
    ensures
        shape_named("ellipse"@) == Some(Shape::Ellipse),
        shape_named("elips"@) == Some(Shape::Ellipse),
        shape_named("circle"@) == Some(Shape::Circle),
        shape_named("cember"@) == Some(Shape::Circle),
        shape_named("figure8"@) == Some(Shape::Figure8),
        shape_named("sekiz"@) == Some(Shape::Figure8),
        shape_named("heart"@) == Some(Shape::Heart),
        shape_named("kalp"@) == Some(Shape::Heart),
        shape_named("star"@) == Some(Shape::Star),
        shape_named("yildiz"@) == Some(Shape::Star),
        shape_named("rose"@) == Some(Shape::Rose),
        shape_named("gul"@) == Some(Shape::Rose),
        shape_named("cicek"@) == Some(Shape::Rose),
        shape_named("flower"@) == Some(Shape::Rose),
        shape_named("butterfly"@) == Some(Shape::Butterfly),
        shape_named("kelebek"@) == Some(Shape::Butterfly),
        shape_named("spiral"@) == Some(Shape::Spiral),
{
    reveal_strlit("ellipse");
    assert("ellipse"@.len() == 7);
    assert("ellipse"@[0] == 'e');
    assert("ellipse"@[1] == 'l');
    reveal_strlit("elips");
    assert("elips"@.len() == 5);
    assert("elips"@[0] == 'e');
    assert("elips"@[1] == 'l');
    reveal_strlit("circle");
    assert("circle"@.len() == 6);
    assert("circle"@[0] == 'c');
    assert("circle"@[1] == 'i');
    reveal_strlit("cember");
    assert("cember"@.len() == 6);
    assert("cember"@[0] == 'c');
    assert("cember"@[1] == 'e');
    reveal_strlit("figure8");
    assert("figure8"@.len() == 7);
    assert("figure8"@[0] == 'f');
    assert("figure8"@[1] == 'i');
    reveal_strlit("sekiz");
    assert("sekiz"@.len() == 5);
    assert("sekiz"@[0] == 's');
    assert("sekiz"@[1] == 'e');
    reveal_strlit("heart");
    assert("heart"@.len() == 5);
    assert("heart"@[0] == 'h');
    assert("heart"@[1] == 'e');
    reveal_strlit("kalp");
    assert("kalp"@.len() == 4);
    assert("kalp"@[0] == 'k');
    assert("kalp"@[1] == 'a');
    reveal_strlit("star");
    assert("star"@.len() == 4);
    assert("star"@[0] == 's');
    assert("star"@[1] == 't');
    reveal_strlit("yildiz");
    assert("yildiz"@.len() == 6);
    assert("yildiz"@[0] == 'y');
    assert("yildiz"@[1] == 'i');
    reveal_strlit("rose");
    assert("rose"@.len() == 4);
    assert("rose"@[0] == 'r');
    assert("rose"@[1] == 'o');
    reveal_strlit("gul");
    assert("gul"@.len() == 3);
    assert("gul"@[0] == 'g');
    assert("gul"@[1] == 'u');
    reveal_strlit("cicek");
    assert("cicek"@.len() == 5);
    assert("cicek"@[0] == 'c');
    assert("cicek"@[1] == 'i');
    reveal_strlit("flower");
    assert("flower"@.len() == 6);
    assert("flower"@[0] == 'f');
    assert("flower"@[1] == 'l');
    reveal_strlit("butterfly");
    assert("butterfly"@.len() == 9);
    assert("butterfly"@[0] == 'b');
    assert("butterfly"@[1] == 'u');
    reveal_strlit("kelebek");
    assert("kelebek"@.len() == 7);
    assert("kelebek"@[0] == 'k');
    assert("kelebek"@[1] == 'e');
    reveal_strlit("spiral");
    assert("spiral"@.len() == 6);
    assert("spiral"@[0] == 's');
    assert("spiral"@[1] == 'p');
}

/// Names are exact: upper case, surrounding spaces or anything else picks
/// no shape.
pub proof fn lemma_other_names()
    ensures
        shape_named("Heart"@) is None,
        shape_named("heart "@) is None,
        shape_named(Seq::empty()) is None,
        shape_named("gear"@) is None,
{
    reveal_strlit("ellipse");
    assert("ellipse"@.len() == 7);
    assert("ellipse"@[0] == 'e');
    assert("ellipse"@[1] == 'l');
    reveal_strlit("elips");
    assert("elips"@.len() == 5);
    assert("elips"@[0] == 'e');
    assert("elips"@[1] == 'l');
    reveal_strlit("circle");
    assert("circle"@.len() == 6);
    assert("circle"@[0] == 'c');
    assert("circle"@[1] == 'i');
    reveal_strlit("cember");
    assert("cember"@.len() == 6);
    assert("cember"@[0] == 'c');
    assert("cember"@[1] == 'e');
    reveal_strlit("figure8");
    assert("figure8"@.len() == 7);
    assert("figure8"@[0] == 'f');
    assert("figure8"@[1] == 'i');
    reveal_strlit("sekiz");
    assert("sekiz"@.len() == 5);
    assert("sekiz"@[0] == 's');
    assert("sekiz"@[1] == 'e');
    reveal_strlit("heart");
    assert("heart"@.len() == 5);
    assert("heart"@[0] == 'h');
    assert("heart"@[1] == 'e');
    reveal_strlit("kalp");
    assert("kalp"@.len() == 4);
    assert("kalp"@[0] == 'k');
    assert("kalp"@[1] == 'a');
    reveal_strlit("star");
    assert("star"@.len() == 4);
    assert("star"@[0] == 's');
    assert("star"@[1] == 't');
    reveal_strlit("yildiz");
    assert("yildiz"@.len() == 6);
    assert("yildiz"@[0] == 'y');
    assert("yildiz"@[1] == 'i');
    reveal_strlit("rose");
    assert("rose"@.len() == 4);
    assert("rose"@[0] == 'r');
    assert("rose"@[1] == 'o');
    reveal_strlit("gul");
    assert("gul"@.len() == 3);
    assert("gul"@[0] == 'g');
    assert("gul"@[1] == 'u');
    reveal_strlit("cicek");
    assert("cicek"@.len() == 5);
    assert("cicek"@[0] == 'c');
    assert("cicek"@[1] == 'i');
    reveal_strlit("flower");
    assert("flower"@.len() == 6);
    assert("flower"@[0] == 'f');
    assert("flower"@[1] == 'l');
    reveal_strlit("butterfly");
    assert("butterfly"@.len() == 9);
    assert("butterfly"@[0] == 'b');
    assert("butterfly"@[1] == 'u');
    reveal_strlit("kelebek");
    assert("kelebek"@.len() == 7);
    assert("kelebek"@[0] == 'k');
    assert("kelebek"@[1] == 'e');
    reveal_strlit("spiral");
    assert("spiral"@.len() == 6);
    assert("spiral"@[0] == 's');
    assert("spiral"@[1] == 'p');
    reveal_strlit("Heart");
    assert("Heart"@.len() == 5);
    assert("Heart"@[0] == 'H');
    assert("Heart"@[1] == 'e');
    reveal_strlit("heart ");
    assert("heart "@.len() == 6);
    assert("heart "@[0] == 'h');
    assert("heart "@[1] == 'e');
    reveal_strlit("gear");
    assert("gear"@.len() == 4);
    assert("gear"@[0] == 'g');
    assert("gear"@[1] == 'e');
}

impl Shape {
    /// The cycling order of the button.
    pub const ALL: [Shape; 8] = [
        Shape::Ellipse,
        Shape::Circle,
        Shape::Figure8,
        Shape::Heart,
        Shape::Star,
        Shape::Rose,
        Shape::Butterfly,
        Shape::Spiral,
    ];

    /// The next shape in `ALL`, wrapping from the last back to the first.
    pub fn next(self) -> (r: Shape)
        ensures
            r == spec_next(self),
            spec_index(r) == (spec_index(self) + 1) % 8,
    {
        let all = Self::ALL;
        let i = (self.index() + 1) % all.len();
        all[i]
    }

    /// The 0-based position of this shape in `ALL`.
    pub fn index(self) -> (i: usize)
        ensures
            i == spec_index(self),
            i < SHAPE_COUNT,
            all_shapes()[i as int] == self,
    {
        match self {
            Shape::Ellipse => 0,
            Shape::Circle => 1,
            Shape::Figure8 => 2,
            Shape::Heart => 3,
            Shape::Star => 4,
            Shape::Rose => 5,
            Shape::Butterfly => 6,
            Shape::Spiral => 7,
        }
    }

    /// The shape that the settings-file name `s` denotes; `None` for any
    /// other text, so that the caller keeps its default.
    pub fn from_name(s: &str) -> (r: Option<Shape>)
        ensures
            r == shape_named(s@),
    {
        let v = to_chars(s);
        Self::from_chars(v.as_slice())
    }

    /// `from_name` on the characters of a name.
    pub fn from_chars(s: &[char]) -> (r: Option<Shape>)
        ensures
            r == shape_named(s@),
    {
        if spells(s, "ellipse") || spells(s, "elips") {
            Some(Shape::Ellipse)
        } else if spells(s, "circle") || spells(s, "cember") {
            Some(Shape::Circle)
        } else if spells(s, "figure8") || spells(s, "sekiz") {
            Some(Shape::Figure8)
        } else if spells(s, "heart") || spells(s, "kalp") {
            Some(Shape::Heart)
        } else if spells(s, "star") || spells(s, "yildiz") {
            Some(Shape::Star)
        } else if spells(s, "rose") || spells(s, "gul") || spells(s, "cicek") || spells(
            s,
            "flower",
        ) {
            Some(Shape::Rose)
        } else if spells(s, "butterfly") || spells(s, "kelebek") {
            Some(Shape::Butterfly)
        } else if spells(s, "spiral") {
            Some(Shape::Spiral)
        } else {
            None
        }
    }
}

} // verus!
