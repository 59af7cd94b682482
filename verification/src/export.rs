//! The exported form of a palette: a text of one line per entry,
//! `color<index>="<hex>"`, for a file named after what the user typed.

use vstd::prelude::*;
use vstd::string::StringExecFns;
use crate::color::{hex_text, Color};

verus! {

/// The decimal digit for `n`, where `0 <= n < 10`.
pub open spec fn decimal_digit(n: int) -> char
    recommends
        0 <= n < 10,
{
    seq!['0', '1', '2', '3', '4', '5', '6', '7', '8', '9'][n]
}

/// The decimal numeral of `n`, without leading zeros.
pub open spec fn decimal_text(n: nat) -> Seq<char>
    decreases n,
{
    if n < 10 {
        seq![decimal_digit(n as int)]
    } else {
        decimal_text(n / 10).push(decimal_digit((n % 10) as int))
    }
}

/// The line of the entry at `index`: `color<index>="<hex>"` and a line feed.
pub open spec fn export_line(index: nat, color: Color) -> Seq<char> {
    seq!['c', 'o', 'l', 'o', 'r'] + decimal_text(index) + seq!['=', '"'] + hex_text(color.srgb)
        + seq!['"', '\n']
}

/// The lines of all entries, in display order, numbered from 0.
pub open spec fn export_text(colors: Seq<Color>) -> Seq<char>
    decreases colors.len(),
{
    if colors.len() == 0 {
        Seq::empty()
    } else {
        export_text(colors.drop_last()) + export_line(
            (colors.len() - 1) as nat,
            colors.last(),
        )
    }
}

/// The name of the file for a palette exported as `name`: the name as typed,
/// and the extension `.sh`.
pub open spec fn export_file_name(name: Seq<char>) -> Seq<char> {
    name + seq!['.', 's', 'h']
}

/// What an export is to write, and under which file name.
pub struct Export {
    pub file_name: String,
    pub content: String,
}

/// The character of one decimal digit.
fn digit_char(digit: u8) -> (c: char)
    requires
        digit < 10,
    ensures
        c == decimal_digit(digit as int),
{
    (48u8 + digit) as char
}

/// Appends the decimal numeral of `n` to `text`.
fn push_decimal(text: &mut String, n: usize)
    ensures
        final(text)@ == old(text)@ + decimal_text(n as nat),
    decreases n,
{
    if n >= 10 {
        push_decimal(text, n / 10);
    }
    text.push(digit_char((n % 10) as u8));
}

/// Renders the entries as export text.
pub fn render_export(colors: &Vec<Color>) -> (text: String)
    ensures
        text@ == export_text(colors@),
{
    let mut text: String = String::new();
    let mut i: usize = 0;
    while i < colors.len()
        invariant
            i <= colors.len(),
            text@ == export_text(colors@.take(i as int)),
        decreases colors.len() - i,
    {
        let ghost before = text@;
        let hex: String = colors[i].hex_string();
        text.append("color");
        push_decimal(&mut text, i);
        text.append("=\"");
        text.append(hex.as_str());
        text.append("\"\n");
        proof {
            reveal_strlit("color");
            reveal_strlit("=\"");
            reveal_strlit("\"\n");
            assert("color"@ =~= seq!['c', 'o', 'l', 'o', 'r']);
            assert("=\""@ =~= seq!['=', '"']);
            assert("\"\n"@ =~= seq!['"', '\n']);
            assert(text@ =~= before + export_line(i as nat, colors@[i as int]));
            assert(colors@.take(i + 1).drop_last() =~= colors@.take(i as int));
        }
        i = i + 1;
    }
    proof {
        assert(colors@.take(colors.len() as int) =~= colors@);
    }
    text
}

/// The file name for a palette exported as `name`.
pub fn render_file_name(name: &String) -> (file_name: String)
    ensures
        file_name@ == export_file_name(name@),
{
    let file_name: String = name.clone().concat(".sh");
    proof {
        reveal_strlit(".sh");
        assert(".sh"@ =~= seq!['.', 's', 'h']);
    }
    file_name
}

} // verus!
