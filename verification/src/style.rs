use vstd::prelude::*;

verus! {

/// The terminal colours that the banner uses.
pub enum Paint {
    Blue,
    Green,
    Yellow,
    Red,
    Cyan,
    BrightYellow,
}

/// The parameter of the SGR escape sequence that selects a colour.
pub open spec fn sgr_code(p: Paint) -> Seq<char> {
    match p {
        Paint::Blue => "34"@,
        Paint::Green => "32"@,
        Paint::Yellow => "33"@,
        Paint::Red => "31"@,
        Paint::Cyan => "36"@,
        Paint::BrightYellow => "38;5;11"@,
    }
}

/// `text` between the escape sequence that selects the colour and the one
/// that resets all attributes.
pub open spec fn ansi_painted(text: Seq<char>, p: Paint) -> Seq<char> {
    "\x1b["@ + sgr_code(p) + "m"@ + text + "\x1b[0m"@
}

/// `console::style(text).blue().to_string()`: the text in blue where the
/// terminal takes colours, else the text itself. Which of the two comes back
/// rests on `console::colors_enabled`, a setting of the process.
#[verifier::external_body]
fn style_blue(text: &str) -> (res: String)
    ensures
        res@ == text@ || res@ == ansi_painted(text@, Paint::Blue),
{
    console::style(text).blue().to_string()
}

/// `console::style(text).green().to_string()`: the text in green where the
/// terminal takes colours, else the text itself.
#[verifier::external_body]
fn style_green(text: &str) -> (res: String)
    ensures
        res@ == text@ || res@ == ansi_painted(text@, Paint::Green),
{
    console::style(text).green().to_string()
}

/// `console::style(text).yellow().to_string()`: the text in yellow where the
/// terminal takes colours, else the text itself.
#[verifier::external_body]
fn style_yellow(text: &str) -> (res: String)
    ensures
        res@ == text@ || res@ == ansi_painted(text@, Paint::Yellow),
{
    console::style(text).yellow().to_string()
}

/// `console::style(text).red().to_string()`: the text in red where the
/// terminal takes colours, else the text itself.
#[verifier::external_body]
fn style_red(text: &str) -> (res: String)
    ensures
        res@ == text@ || res@ == ansi_painted(text@, Paint::Red),
{
    console::style(text).red().to_string()
}

/// `console::style(text).cyan().to_string()`: the text in cyan where the
/// terminal takes colours, else the text itself.
#[verifier::external_body]
fn style_cyan(text: &str) -> (res: String)
    ensures
        res@ == text@ || res@ == ansi_painted(text@, Paint::Cyan),
{
    console::style(text).cyan().to_string()
}

/// `console::style(text).bright().yellow().to_string()`: the text in bright
/// yellow (256-colour index 11) where the terminal takes colours, else the
/// text itself.
#[verifier::external_body]
fn style_bright_yellow(text: &str) -> (res: String)
    ensures
        res@ == text@ || res@ == ansi_painted(text@, Paint::BrightYellow),
{
    console::style(text).bright().yellow().to_string()
}

/// `console::Emoji(emoji, fallback).to_string()`: the emoji where the
/// terminal wants emoji, else the fallback. Which of the two comes back rests
/// on the environment (`LANG`), read once per process.
#[verifier::external_body]
pub(crate) fn emoji_or(emoji: &str, fallback: &str) -> (res: String)
    ensures
        res@ == emoji@ || res@ == fallback@,
{
    console::Emoji(emoji, fallback).to_string()
}

/// `text` in the colour of `p`, or `text` itself where colours are off.
pub open spec fn painted(text: Seq<char>, p: Paint, on: bool) -> Seq<char> {
    if on { ansi_painted(text, p) } else { text }
}

/// Writes `text` in the colour `p`; `res@` is `painted(text@, p, on)` for
/// some `on`, `true` where the terminal takes colours.
pub fn paint(text: &str, p: Paint) -> (res: String)
    ensures
        res@ == painted(text@, p, false) || res@ == painted(text@, p, true),
{
    match p {
        Paint::Blue => style_blue(text),
        Paint::Green => style_green(text),
        Paint::Yellow => style_yellow(text),
        Paint::Red => style_red(text),
        Paint::Cyan => style_cyan(text),
        Paint::BrightYellow => style_bright_yellow(text),
    }
}

/// The colour that a status text is shown in, by its first character:
/// informational 1xx blue, success 2xx green, redirect 3xx yellow, errors
/// 4xx, 5xx and `E...` red, wildcard `W...` cyan; any other text uncoloured.
pub open spec fn status_paint(status: Seq<char>) -> Option<Paint> {
    if status.len() == 0 {
        None
    } else if status[0] == '1' {
        Some(Paint::Blue)
    } else if status[0] == '2' {
        Some(Paint::Green)
    } else if status[0] == '3' {
        Some(Paint::Yellow)
    } else if status[0] == '4' || status[0] == '5' || status[0] == 'E' {
        Some(Paint::Red)
    } else if status[0] == 'W' {
        Some(Paint::Cyan)
    } else {
        None
    }
}

/// A status text as it is shown: in its colour when colours are on.
pub open spec fn colorized(status: Seq<char>, on: bool) -> Seq<char> {
    match status_paint(status) {
        Some(p) => painted(status, p, on),
        None => status,
    }
}

/// Colours a status text by its class (see `status_paint`).
pub fn status_colorizer(status: &str) -> (res: String)
    ensures
        res@ == colorized(status@, false) || res@ == colorized(status@, true),
{
    if status.unicode_len() == 0 {
        return status.to_owned();
    }
    let first = status.get_char(0);
    if first == '1' {
        paint(status, Paint::Blue)
    } else if first == '2' {
        paint(status, Paint::Green)
    } else if first == '3' {
        paint(status, Paint::Yellow)
    } else if first == '4' || first == '5' || first == 'E' {
        paint(status, Paint::Red)
    } else if first == 'W' {
        paint(status, Paint::Cyan)
    } else {
        status.to_owned()
    }
}

} // verus!
