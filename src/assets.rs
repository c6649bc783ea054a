//! Names of the image files that show the pieces.

use vstd::prelude::*;

use crate::pieces::{kind_name, Color, PieceType};

verus! {

/// The word for a color in a file name.
pub open spec fn color_word(c: Color) -> Seq<char> {
    match c {
        Color::White => "white"@,
        Color::Black => "black"@,
    }
}

/// The image file name of a piece: its color word, an underscore, its
/// kind's long name, and `.png`.
pub open spec fn image_file_name(t: PieceType, c: Color) -> Seq<char> {
    color_word(c) + "_"@ + kind_name(t) + ".png"@
}

/// The image file name of a piece of kind `piece_type` and color `color`,
/// such as `white_knight.png`.
pub fn file_name(piece_type: PieceType, color: Color) -> (r: String)
    ensures
        r@ == image_file_name(piece_type, color),
{
    let color_str = match color {
        Color::White => "white",
        Color::Black => "black",
    };
    let mut s = String::new();
    s.append(color_str);
    s.append("_");
    s.append(piece_type.name());
    s.append(".png");
    assert(s@ =~= image_file_name(piece_type, color));
    s
}

} // verus!
