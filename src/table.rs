use vstd::prelude::*;

verus! {

/// Clears the terminal and moves the cursor to the top-left corner.
pub const CLEAR_SCREEN: &'static str = "\x1B[2J\x1B[1;1H";

/// The table's column titles.
pub const TABLE_HEADER: &'static str = "|  Code      | Trade Price   | Trade Volume | Change | Change Rate | Local Timestamp       |";

/// The line under the column titles.
pub const TABLE_RULE: &'static str = "|------------|---------------|--------------|--------|-------------|-----------------------|";

// Widths of the six columns: code, trade price, trade volume, change,
// change rate, local time.
pub const CODE_WIDTH: usize = 10;
pub const PRICE_WIDTH: usize = 13;
pub const VOLUME_WIDTH: usize = 12;
pub const CHANGE_WIDTH: usize = 6;
pub const RATE_WIDTH: usize = 11;
pub const TIME_WIDTH: usize = 21;

/// `n` spaces.
pub open spec fn spaces(n: nat) -> Seq<char> {
    Seq::new(n, |i: int| ' ')
}

/// `s` left-aligned in a field of `width` characters: spaces after it up to
/// the width, nothing cut when it is longer.
pub open spec fn padded(s: Seq<char>, width: nat) -> Seq<char> {
    if s.len() < width {
        s + spaces((width - s.len()) as nat)
    } else {
        s
    }
}

/// Left-aligns `s` in a field of `width` characters.
pub fn pad_right(s: &str, width: usize) -> (r: String)
    ensures
        r@ == padded(s@, width as nat),
{
    let mut out = String::from_str(s);
    let n = s.unicode_len();
    if n < width {
        let mut i: usize = n;
        while i < width
            invariant
                n <= i <= width,
                n == s@.len(),
                out@ == s@ + spaces((i - n) as nat),
            decreases width - i,
        {
            out.append(" ");
            proof {
                reveal_strlit(" ");
                assert(s@ + spaces((i + 1 - n) as nat) =~= s@ + spaces((i - n) as nat) + " "@);
            }
            i = i + 1;
        }
    }
    out
}

/// One table row from the six cell texts, each left-aligned in its column.
pub open spec fn row_of(
    code: Seq<char>,
    price: Seq<char>,
    volume: Seq<char>,
    change: Seq<char>,
    rate: Seq<char>,
    time: Seq<char>,
) -> Seq<char> {
    "| "@ + padded(code, CODE_WIDTH as nat) + " | "@ + padded(price, PRICE_WIDTH as nat) + " | "@
        + padded(volume, VOLUME_WIDTH as nat) + " | "@ + padded(change, CHANGE_WIDTH as nat) + " | "@
        + padded(rate, RATE_WIDTH as nat) + " | "@ + padded(time, TIME_WIDTH as nat) + " |"@
}

/// Lays out one table row. The cells come already written as text: the trade
/// price to two decimals, the volume and the change rate to four, the time as
/// `YYYY-MM-DD HH:MM:SS`.
pub fn table_row(code: &str, price: &str, volume: &str, change: &str, rate: &str, time: &str) -> (r:
    String)
    ensures
        r@ == row_of(code@, price@, volume@, change@, rate@, time@),
{
    let mut out = String::from_str("| ");
    let c = pad_right(code, CODE_WIDTH);
    out.append(c.as_str());
    out.append(" | ");
    let c = pad_right(price, PRICE_WIDTH);
    out.append(c.as_str());
    out.append(" | ");
    let c = pad_right(volume, VOLUME_WIDTH);
    out.append(c.as_str());
    out.append(" | ");
    let c = pad_right(change, CHANGE_WIDTH);
    out.append(c.as_str());
    out.append(" | ");
    let c = pad_right(rate, RATE_WIDTH);
    out.append(c.as_str());
    out.append(" | ");
    let c = pad_right(time, TIME_WIDTH);
    out.append(c.as_str());
    out.append(" |");
    out
}

} // verus!
