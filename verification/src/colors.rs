//! Colouring of terminal text.

use vstd::prelude::*;

verus! {

/// A text attribute that the terminal can render.
#[derive(Clone, Copy, Debug, PartialEq, Eq)]
pub enum Paint {
    Red,
    Green,
    Yellow,
    Purple,
    Cyan,
    /// The colour with the given number in the 256-colour palette.
    Fixed(u8),
    Bold,
}

/// The character for the decimal digit `d`.
pub open spec fn digit_char(d: nat) -> char
    recommends
        d < 10,
{
    if d == 0 {
        '0'
    } else if d == 1 {
        '1'
    } else if d == 2 {
        '2'
    } else if d == 3 {
        '3'
    } else if d == 4 {
        '4'
    } else if d == 5 {
        '5'
    } else if d == 6 {
        '6'
    } else if d == 7 {
        '7'
    } else if d == 8 {
        '8'
    } else {
        '9'
    }
}

/// `n` written in decimal, without leading zeros.
pub open spec fn decimal(n: nat) -> Seq<char>
    decreases n,
{
    if n < 10 {
        seq![digit_char(n)]
    } else {
        decimal(n / 10).push(digit_char(n % 10))
    }
}

/// The parameter of the escape sequence that switches `paint` on.
pub open spec fn sgr_code(paint: Paint) -> Seq<char> {
    match paint {
        Paint::Red => seq!['3', '1'],
        Paint::Green => seq!['3', '2'],
        Paint::Yellow => seq!['3', '3'],
        Paint::Purple => seq!['3', '5'],
        Paint::Cyan => seq!['3', '6'],
        Paint::Fixed(n) => seq!['3', '8', ';', '5', ';'] + decimal(n as nat),
        Paint::Bold => seq!['1'],
    }
}

/// `text` between the escape sequence that switches `paint` on and the one
/// that resets the terminal.
pub open spec fn ansi_wrap(paint: Paint, text: Seq<char>) -> Seq<char> {
    seq!['\u{1b}', '['] + sgr_code(paint) + seq!['m'] + text + seq!['\u{1b}', '[', '0', 'm']
}

/// What `ansi_term` renders for `text` in the style that stands for `paint`
/// (`Style::paint` followed by `to_string`): the style's prefix, the text
/// and the reset sequence, as `ansi_wrap` spells them out.
#[verifier::external_body]
fn ansi_paint(paint: Paint, text: &str) -> (s: String)
    ensures
        s@ == ansi_wrap(paint, text@),
{
    let style = match paint {
        Paint::Red => ansi_term::Colour::Red.normal(),
        Paint::Green => ansi_term::Colour::Green.normal(),
        Paint::Yellow => ansi_term::Colour::Yellow.normal(),
        Paint::Purple => ansi_term::Colour::Purple.normal(),
        Paint::Cyan => ansi_term::Colour::Cyan.normal(),
        Paint::Fixed(n) => ansi_term::Colour::Fixed(n).normal(),
        Paint::Bold => ansi_term::Style::new().bold(),
    };
    style.paint(text).to_string()
}

/// The check mark that reports success.
pub open spec fn check_mark() -> Seq<char> {
    seq!['\u{2714}']
}

/// Decides whether text is decorated for the terminal.
#[derive(Clone, Copy, Debug)]
pub struct ColorScheme {
    pub enabled: bool,
}

impl ColorScheme {
    /// `text` as this scheme shows it in `paint`: wrapped in escape
    /// sequences when colours are enabled, unchanged otherwise.
    pub open spec fn styled(&self, paint: Paint, text: Seq<char>) -> Seq<char> {
        if self.enabled {
            ansi_wrap(paint, text)
        } else {
            text
        }
    }

    pub fn new(enabled: bool) -> (cs: ColorScheme)
        ensures
            cs.enabled == enabled,
    {
        ColorScheme { enabled }
    }

    /// `text` in the given paint.
    pub fn paint(&self, paint: Paint, text: &str) -> (s: String)
        ensures
            s@ == self.styled(paint, text@),
    {
        if self.enabled {
            ansi_paint(paint, text)
        } else {
            String::from_str(text)
        }
    }

    pub fn bold(&self, text: &str) -> (s: String)
        ensures
            s@ == self.styled(Paint::Bold, text@),
    {
        self.paint(Paint::Bold, text)
    }

    pub fn red(&self, text: &str) -> (s: String)
        ensures
            s@ == self.styled(Paint::Red, text@),
    {
        self.paint(Paint::Red, text)
    }

    pub fn green(&self, text: &str) -> (s: String)
        ensures
            s@ == self.styled(Paint::Green, text@),
    {
        self.paint(Paint::Green, text)
    }

    pub fn yellow(&self, text: &str) -> (s: String)
        ensures
            s@ == self.styled(Paint::Yellow, text@),
    {
        self.paint(Paint::Yellow, text)
    }

    pub fn purple(&self, text: &str) -> (s: String)
        ensures
            s@ == self.styled(Paint::Purple, text@),
    {
        self.paint(Paint::Purple, text)
    }

    pub fn cyan(&self, text: &str) -> (s: String)
        ensures
            s@ == self.styled(Paint::Cyan, text@),
    {
        self.paint(Paint::Cyan, text)
    }

    /// `text` in the grey of the 256-colour palette.
    pub fn gray(&self, text: &str) -> (s: String)
        ensures
            s@ == self.styled(Paint::Fixed(242), text@),
    {
        self.paint(Paint::Fixed(242), text)
    }

    /// The check mark in the given paint.
    pub fn success_icon_with_color(&self, paint: Paint) -> (s: String)
        ensures
            s@ == self.styled(paint, check_mark()),
    {
        let mark = "\u{2714}";
        proof {
            reveal_strlit("\u{2714}");
            assert(mark@ =~= check_mark());
        }
        self.paint(paint, mark)
    }

    /// The green check mark.
    pub fn success_icon(&self) -> (s: String)
        ensures
            s@ == self.styled(Paint::Green, check_mark()),
    {
        self.success_icon_with_color(Paint::Green)
    }
}

} // verus!
