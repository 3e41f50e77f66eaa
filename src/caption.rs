//! The text of the information window: the image's size in pixels.
use vstd::prelude::*;

verus! {

/// The decimal digit for `d`.
pub open spec fn digit_char(d: nat) -> char {
    ((d % 10) + ('0' as nat)) as char
}

/// The decimal notation of `n`, with no leading zeros.
pub open spec fn decimal(n: nat) -> Seq<char>
    decreases n,
{
    if n < 10 {
        seq![digit_char(n)]
    } else {
        decimal(n / 10).push(digit_char(n % 10))
    }
}

/// The caption for an image of `width` by `height` pixels.
pub open spec fn caption_text(width: nat, height: nat) -> Seq<char> {
    "x: "@ + decimal(width) + ", y: "@ + decimal(height)
}

/// The one-character text of the decimal digit `d`.
fn digit_text(d: usize) -> (r: &'static str)
    requires
        d < 10,
    ensures
        r@ == seq![digit_char(d as nat)],
{
    proof {
        reveal_strlit("0");
        reveal_strlit("1");
        reveal_strlit("2");
        reveal_strlit("3");
        reveal_strlit("4");
        reveal_strlit("5");
        reveal_strlit("6");
        reveal_strlit("7");
        reveal_strlit("8");
        reveal_strlit("9");
    }
    match d {
        0 => "0",
        1 => "1",
        2 => "2",
        3 => "3",
        4 => "4",
        5 => "5",
        6 => "6",
        7 => "7",
        8 => "8",
        _ => "9",
    }
}

/// Appends the decimal notation of `n` to `text`.
pub fn append_decimal(text: &mut String, n: usize)
    ensures
        final(text)@ == old(text)@ + decimal(n as nat),
    decreases n,
{
    if n >= 10 {
        append_decimal(text, n / 10);
    }
    text.append(digit_text(n % 10));
    proof {
        if n >= 10 {
            assert(decimal(n as nat) == decimal((n / 10) as nat).push(digit_char((n % 10) as nat)));
        }
    }
    assert(text@ =~= old(text)@ + decimal(n as nat));
}

/// The caption for an image of `width` by `height` pixels, as in
/// `x: 64, y: 32`.
pub fn image_caption(width: usize, height: usize) -> (r: String)
    ensures
        r@ == caption_text(width as nat, height as nat),
{
    let mut text = String::from_str("x: ");
    append_decimal(&mut text, width);
    text.append(", y: ");
    append_decimal(&mut text, height);
    text
}

} // verus!
