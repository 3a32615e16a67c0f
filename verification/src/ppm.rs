//! The plain-text PPM (P3) encoding used by the single-image renderer.

use vstd::prelude::*;
use crate::decimal::{
    decimal, digits_value, lemma_decimal_value, push_decimal, push_signed, signed_decimal,
};

verus! {

/// The P3 header text for a `width` by `height` image with 255 levels.
pub open spec fn header_text(width: nat, height: nat) -> Seq<char> {
    "P3\n"@ + decimal(width) + " "@ + decimal(height) + "\n255\n"@
}

/// The text of one pixel: its three channels separated by spaces.
pub open spec fn pixel_text(r: int, g: int, b: int) -> Seq<char> {
    signed_decimal(r) + " "@ + signed_decimal(g) + " "@ + signed_decimal(b)
}

/// The header of a P3 image of the given size.
pub fn ppm_header(width: usize, height: usize) -> (text: String)
    ensures
        text@ == header_text(width as nat, height as nat),
{
    let mut text = String::from_str("P3\n");
    push_decimal(&mut text, width as u64);
    text.append(" ");
    push_decimal(&mut text, height as u64);
    text.append("\n255\n");
    text
}

/// The text of one pixel of a P3 image.
pub fn ppm_pixel(r: i32, g: i32, b: i32) -> (text: String)
    ensures
        text@ == pixel_text(r as int, g as int, b as int),
{
    let mut text = String::new();
    push_signed(&mut text, r as i64);
    text.append(" ");
    push_signed(&mut text, g as i64);
    text.append(" ");
    push_signed(&mut text, b as i64);
    text
}

/// The line reported after converting the PPM file to PNG: success, or
/// the converter's error output behind a fixed lead-in.
pub fn conversion_outcome(success: bool, stderr: &str) -> (line: String)
    ensures
        success ==> line@ == "rendered.png created"@,
        !success ==> line@ == "Conversion failed: "@ + stderr@,
{
    if success {
        String::from_str("rendered.png created")
    } else {
        let mut line = String::from_str("Conversion failed: ");
        line.append(stderr);
        line
    }
}

/// A P3 header is `P3`, a newline, the width and height in decimal
/// separated by one space, a newline, the level count 255 and a newline; the
/// width and height read back from their fields.
pub proof fn lemma_header_shape(width: nat, height: nat)
    ensures
        ({
            let t = header_text(width, height);
            let w = decimal(width).len();
            let h = decimal(height).len();
            &&& t.len() == 3 + w + 1 + h + 5
            &&& t.subrange(0, 3) == seq!['P', '3', '\n']
            &&& digits_value(t.subrange(3, 3 + w as int)) == width
            &&& t[3 + w as int] == ' '
            &&& digits_value(t.subrange(4 + w as int, 4 + w + h as int)) == height
            &&& t.subrange(4 + w + h as int, t.len() as int) == seq!['\n', '2', '5', '5', '\n']
        }),
{
    reveal_strlit("P3\n");
    reveal_strlit(" ");
    reveal_strlit("\n255\n");
    lemma_decimal_value(width);
    lemma_decimal_value(height);
    let t = header_text(width, height);
    let w = decimal(width).len();
    let h = decimal(height).len();
    assert(t.subrange(0, 3) =~= seq!['P', '3', '\n']);
    assert(t.subrange(3, 3 + w as int) =~= decimal(width));
    assert(t.subrange(4 + w as int, 4 + w + h as int) =~= decimal(height));
    assert(t.subrange(4 + w + h as int, t.len() as int) =~= seq!['\n', '2', '5', '5', '\n']);
}

/// The text of a pixel with non-negative channels is the three channels in
/// decimal separated by single spaces, in the order red, green, blue; each
/// field reads back to its channel.
pub proof fn lemma_pixel_shape(r: nat, g: nat, b: nat)
    ensures
        ({
            let t = pixel_text(r as int, g as int, b as int);
            let lr = decimal(r).len() as int;
            let lg = decimal(g).len() as int;
            let lb = decimal(b).len() as int;
            &&& t.len() == lr + 1 + lg + 1 + lb
            &&& t[lr] == ' '
            &&& t[lr + 1 + lg] == ' '
            &&& digits_value(t.subrange(0, lr)) == r
            &&& digits_value(t.subrange(lr + 1, lr + 1 + lg)) == g
            &&& digits_value(t.subrange(lr + 1 + lg + 1, t.len() as int)) == b
        }),
{
    reveal_strlit(" ");
    lemma_decimal_value(r);
    lemma_decimal_value(g);
    lemma_decimal_value(b);
    let t = pixel_text(r as int, g as int, b as int);
    let lr = decimal(r).len() as int;
    let lg = decimal(g).len() as int;
    assert(t.subrange(0, lr) =~= decimal(r));
    assert(t.subrange(lr + 1, lr + 1 + lg) =~= decimal(g));
    assert(t.subrange(lr + 1 + lg + 1, t.len() as int) =~= decimal(b));
}

} // verus!
