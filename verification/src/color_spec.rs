//! How colours are coded.

use vstd::prelude::*;

use crate::text;
use crate::text::{invalid_message, same_text};

verus! {

/// The matrix between RGB and the luma and chroma planes.
#[derive(Clone, Copy, Debug, PartialEq, Eq, Structural)]
pub enum ColorMatrix {
    Bt601,
    Bt709,
}

impl ColorMatrix {
    pub open spec fn text(self) -> Seq<char> {
        match self {
            ColorMatrix::Bt601 => "bt601"@,
            ColorMatrix::Bt709 => "bt709"@,
        }
    }

    pub fn name(self) -> (r: &'static str)
        ensures
            r@ == self.text(),
    {
        match self {
            ColorMatrix::Bt601 => "bt601",
            ColorMatrix::Bt709 => "bt709",
        }
    }

    /// What `s` names.
    pub open spec fn named(s: Seq<char>) -> Result<ColorMatrix, Seq<char>> {
        if s == "bt601"@ {
            Ok(ColorMatrix::Bt601)
        } else if s == "bt709"@ {
            Ok(ColorMatrix::Bt709)
        } else {
            Err(text::invalid("color-matrix"@, s))
        }
    }

    pub fn parse(text: &str) -> (r: Result<ColorMatrix, String>)
        ensures
            text::agrees(r, Self::named(text@)),
    {
        if same_text(text, "bt601") {
            Ok(ColorMatrix::Bt601)
        } else if same_text(text, "bt709") {
            Ok(ColorMatrix::Bt709)
        } else {
            Err(invalid_message("color-matrix", text))
        }
    }
}

#[derive(Clone, Copy, Debug, PartialEq, Eq, Structural)]
pub struct ColorSpec {
    pub matrix: ColorMatrix,
}

impl ColorSpec {
    pub fn with_matrix(matrix: ColorMatrix) -> (r: ColorSpec)
        ensures
            r == (ColorSpec { matrix }),
    {
        ColorSpec { matrix }
    }
}

impl Default for ColorSpec {
    fn default() -> (r: ColorSpec)
        ensures
            r == (ColorSpec { matrix: ColorMatrix::Bt709 }),
    {
        ColorSpec { matrix: ColorMatrix::Bt709 }
    }
}

/// What a name says is what it is read as, and other texts name nothing.
pub proof fn law_matrix_is_read_back(matrix: ColorMatrix, other: Seq<char>)
    ensures
        ColorMatrix::named(matrix.text()) == Ok::<ColorMatrix, Seq<char>>(matrix),
        ColorMatrix::named("bt601"@) == Ok::<ColorMatrix, Seq<char>>(ColorMatrix::Bt601),
        ColorMatrix::named("bt709"@) == Ok::<ColorMatrix, Seq<char>>(ColorMatrix::Bt709),
        other != "bt601"@ && other != "bt709"@ ==> ColorMatrix::named(other) == Err::<
            ColorMatrix,
            Seq<char>,
        >("invalid "@ + "color-matrix"@ + ": "@ + other),
{
    reveal_strlit("bt601");
    reveal_strlit("bt709");
    assert("bt601"@[2] == '6' && "bt709"@[2] == '7');
}

} // verus!
