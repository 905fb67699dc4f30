use vstd::prelude::*;
use crate::document::RenderedPage;

verus! {

/// Which dimension of the terminal an inline image is sized to, in cells.
#[derive(Clone, Copy, Debug, PartialEq, Eq, Structural)]
pub enum Fit {
    Width(u16),
    Height(u16),
}

/// Rows and columns kept free around the image.
pub const MARGIN: u16 = 2;

/// A width and height form a landscape shape when `width / height >= 1`,
/// which for a non-zero height is `width >= height`.
pub open spec fn is_landscape(width: int, height: int) -> bool {
    width >= height
}

/// `n` less the margin, or zero when there is no room for the margin.
pub open spec fn less_margin(n: u16) -> u16 {
    if n >= MARGIN { (n - MARGIN) as u16 } else { 0 }
}

/// A portrait page on a landscape terminal fills the rows; every other
/// combination fills the columns.
pub open spec fn fit_spec(page_width: u32, page_height: u32, cols: u16, rows: u16) -> Fit {
    if !is_landscape(page_width as int, page_height as int) && is_landscape(cols as int, rows as int) {
        Fit::Height(less_margin(rows))
    } else {
        Fit::Width(less_margin(cols))
    }
}

/// Chooses how to size a page of `page_width` by `page_height` pixels on a
/// terminal of `cols` columns and `rows` rows.
pub fn display_fit(page_width: u32, page_height: u32, cols: u16, rows: u16) -> (f: Fit)
    ensures
        f == fit_spec(page_width, page_height, cols, rows),
{
    let page_landscape = page_width >= page_height;
    let term_landscape = cols >= rows;
    if !page_landscape && term_landscape {
        Fit::Height(if rows >= MARGIN { rows - MARGIN } else { 0 })
    } else {
        Fit::Width(if cols >= MARGIN { cols - MARGIN } else { 0 })
    }
}

/// The text of one decimal digit.
pub open spec fn digit_text(d: nat) -> Seq<char> {
    if d == 0 { "0"@ }
    else if d == 1 { "1"@ }
    else if d == 2 { "2"@ }
    else if d == 3 { "3"@ }
    else if d == 4 { "4"@ }
    else if d == 5 { "5"@ }
    else if d == 6 { "6"@ }
    else if d == 7 { "7"@ }
    else if d == 8 { "8"@ }
    else { "9"@ }
}

/// `n` written in decimal, without leading zeros.
pub open spec fn decimal(n: nat) -> Seq<char>
    decreases n,
{
    if n < 10 {
        digit_text(n)
    } else {
        decimal(n / 10) + digit_text(n % 10)
    }
}

fn digit_str(d: u64) -> (s: &'static str)
    requires
        d < 10,
    ensures
        s@ == digit_text(d as nat),
{
    if d == 0 { "0" }
    else if d == 1 { "1" }
    else if d == 2 { "2" }
    else if d == 3 { "3" }
    else if d == 4 { "4" }
    else if d == 5 { "5" }
    else if d == 6 { "6" }
    else if d == 7 { "7" }
    else if d == 8 { "8" }
    else { "9" }
}

/// Appends `n` in decimal to `s`.
pub fn push_decimal(s: &mut String, n: u64)
    ensures
        final(s)@ == old(s)@ + decimal(n as nat),
    decreases n,
{
    if n >= 10 {
        push_decimal(s, n / 10);
    }
    s.append(digit_str(n % 10));
}

/// The escape sequence that shows an image of `size` bytes, whose base64
/// text is `encoded`, inline in the terminal, sized as `fit` says.
pub open spec fn image_sequence(size: nat, fit: Fit, encoded: Seq<char>) -> Seq<char> {
    let dimension = match fit {
        Fit::Width(n) => ";width="@ + decimal(n as nat),
        Fit::Height(n) => ";height="@ + decimal(n as nat),
    };
    "\x1b]1337;File=inline=1;preserveAspectRatio=1;size="@ + decimal(size) + dimension + ":"@ + encoded
        + "\x07\n"@
}

/// Builds the inline image escape sequence from the base64 text `encoded` of
/// an image of `size` bytes.
pub fn image_sequence_of(size: usize, fit: Fit, encoded: &str) -> (r: String)
    ensures
        r@ == image_sequence(size as nat, fit, encoded@),
{
    let mut s = String::from_str("\x1b]1337;File=inline=1;preserveAspectRatio=1;size=");
    push_decimal(&mut s, size as u64);
    match fit {
        Fit::Width(n) => {
            s.append(";width=");
            push_decimal(&mut s, n as u64);
        },
        Fit::Height(n) => {
            s.append(";height=");
            push_decimal(&mut s, n as u64);
        },
    }
    s.append(":");
    s.append(encoded);
    s.append("\x07\n");
    proof {
        assert(s@ =~= image_sequence(size as nat, fit, encoded@));
    }
    s
}

/// What base64's standard engine, with padding, makes of these bytes.
pub uninterp spec fn base64_standard(b: Seq<u8>) -> Seq<char>;

/// Relies on `base64::Engine::encode` of `general_purpose::STANDARD`: the
/// padded base64 text of `data`. It panics only when the encoded length
/// overflows `usize`, which the bound on the input rules out.
#[verifier::external_body]
fn encode_base64(data: &Vec<u8>) -> (r: String)
    requires
        data@.len() <= usize::MAX / 2,
    ensures
        r@ == base64_standard(data@),
{
    base64::Engine::encode(&base64::engine::general_purpose::STANDARD, data)
}

/// The inline image escape sequence for `data`, sized as `fit` says.
pub fn inline_image(data: &Vec<u8>, fit: Fit) -> (r: String)
    requires
        data@.len() <= usize::MAX / 2,
    ensures
        r@ == image_sequence(data@.len(), fit, base64_standard(data@)),
{
    let encoded = encode_base64(data);
    image_sequence_of(data.len(), fit, encoded.as_str())
}

impl RenderedPage {
    /// The escape sequence that shows this page on a terminal of `cols`
    /// columns and `rows` rows.
    pub fn display(&self, cols: u16, rows: u16) -> (r: String)
        requires
            self.data@.len() <= usize::MAX / 2,
        ensures
            r@ == image_sequence(
                self.data@.len(),
                fit_spec(self.width, self.height, cols, rows),
                base64_standard(self.data@),
            ),
    {
        let fit = display_fit(self.width, self.height, cols, rows);
        inline_image(&self.data, fit)
    }
}

} // verus!
