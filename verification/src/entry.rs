use vstd::prelude::*;

use crate::style::emoji_or;
use crate::text::push_char;

verus! {

/// The contents of one banner line: an emoji, a title and a value.
pub struct EntryModel {
    pub emoji: Seq<char>,
    pub title: Seq<char>,
    pub value: Seq<char>,
}

/// The entry with the given emoji, title and value.
pub open spec fn entry_model(emoji: Seq<char>, title: Seq<char>, value: Seq<char>) -> EntryModel {
    EntryModel { emoji, title, value }
}

/// One line of the banner: an emoji, a title and the value of a setting.
pub struct BannerEntry {
    emoji: String,
    title: String,
    value: String,
}

impl View for BannerEntry {
    type V = EntryModel;

    closed spec fn view(&self) -> EntryModel {
        EntryModel { emoji: self.emoji@, title: self.title@, value: self.value@ }
    }
}

/// The views of a list of entries.
pub open spec fn entry_views(entries: Seq<BannerEntry>) -> Seq<EntryModel> {
    entries.map_values(|e: BannerEntry| e@)
}

impl BannerEntry {
    /// A new entry from its three parts.
    pub fn new(emoji: &str, title: &str, value: &str) -> (e: Self)
        ensures
            e@ == entry_model(emoji@, title@, value@),
    {
        BannerEntry { emoji: emoji.to_owned(), title: title.to_owned(), value: value.to_owned() }
    }

    /// The entry whose three parts are empty.
    pub fn empty() -> (e: Self)
        ensures
            e@ == entry_model(Seq::empty(), Seq::empty(), Seq::empty()),
    {
        BannerEntry { emoji: String::new(), title: String::new(), value: String::new() }
    }

    /// The emoji of the entry.
    pub fn emoji(&self) -> (s: &str)
        ensures
            s@ == self@.emoji,
    {
        self.emoji.as_str()
    }

    /// The title of the entry.
    pub fn title(&self) -> (s: &str)
        ensures
            s@ == self@.title,
    {
        self.title.as_str()
    }

    /// The value of the entry.
    pub fn value(&self) -> (s: &str)
        ensures
            s@ == self@.value,
    {
        self.value.as_str()
    }

    /// A copy of the entry.
    pub fn duplicate(&self) -> (e: Self)
        ensures
            e@ == self@,
    {
        BannerEntry { emoji: self.emoji.clone(), title: self.title.clone(), value: self.value.clone() }
    }
}

impl Default for BannerEntry {
    fn default() -> (e: Self)
        ensures
            e@ == entry_model(Seq::empty(), Seq::empty(), Seq::empty()),
    {
        BannerEntry::empty()
    }
}


/// Width of the column that the emoji stands in.
pub const INDENT: usize = 3;

/// Width of the column that the title stands in.
pub const COL_WIDTH: usize = 22;

/// `s` padded with spaces on the right to `width` characters, as `{:<width$}`
/// pads it; a longer `s` stays as it is.
pub open spec fn pad_right(s: Seq<char>, width: nat) -> Seq<char> {
    if s.len() >= width {
        s
    } else {
        s + Seq::new((width - s.len()) as nat, |i: int| ' ')
    }
}

/// The terminal line of an entry whose emoji shows as `shown_emoji`: a
/// space, the emoji in its column, the title in its column, a bar, a space
/// and the value.
pub open spec fn entry_line(shown_emoji: Seq<char>, e: EntryModel) -> Seq<char> {
    " "@ + pad_right(shown_emoji, INDENT as nat) + pad_right(e.title, COL_WIDTH as nat) + "│ "@ + e.value
}

/// Appends `s` padded with spaces to `width` characters.
fn append_padded(out: &mut String, s: &str, width: usize)
    ensures
        final(out)@ == old(out)@ + pad_right(s@, width as nat),
{
    out.append(s);
    let n = s.unicode_len();
    let mut k: usize = n;
    let ghost base = old(out)@ + s@;
    while k < width
        invariant
            n == s@.len(),
            n <= k <= width || (n > width && k == n),
            out@ == base + Seq::new((k - n) as nat, |i: int| ' '),
        decreases width - k,
    {
        push_char(out, ' ');
        assert(Seq::new((k + 1 - n) as nat, |i: int| ' ') =~= Seq::new((k - n) as nat, |i: int| ' ').push(' '));
        k = k + 1;
    }
    if n >= width {
        assert(Seq::new((k - n) as nat, |i: int| ' ') =~= Seq::<char>::empty());
        assert(out@ =~= base);
    } else {
        assert(out@ =~= old(out)@ + pad_right(s@, width as nat));
    }
}

impl BannerEntry {
    /// The terminal line of the entry, its emoji shown as `shown_emoji`
    /// (the emoji itself, or blanks where the terminal takes none).
    pub fn line(&self, shown_emoji: &str) -> (s: String)
        ensures
            s@ == entry_line(shown_emoji@, self@),
    {
        let mut s = String::new();
        s.append(" ");
        append_padded(&mut s, shown_emoji, INDENT);
        append_padded(&mut s, self.title.as_str(), COL_WIDTH);
        s.append("│ ");
        s.append(self.value.as_str());
        s
    }
}

/// `n` spaces.
pub open spec fn blanks(n: nat) -> Seq<char> {
    Seq::new(n, |i: int| ' ')
}

/// How many spaces stand for an emoji of display width `width` where the
/// terminal takes no emoji: the square of the width, and at least one (a
/// single space padded to that many characters).
pub open spec fn fallback_len(width: nat) -> nat {
    if width * width >= 1 { width * width } else { 1 }
}

/// The spaces that stand for an emoji of display width `width`.
pub fn emoji_fallback(width: usize) -> (s: String)
    requires
        width * width <= usize::MAX,
    ensures
        s@ == blanks(fallback_len(width as nat)),
{
    let square = width * width;
    let n = if square >= 1 { square } else { 1 };
    let mut s = String::new();
    let mut k: usize = 0;
    while k < n
        invariant
            k <= n,
            n == fallback_len(width as nat),
            s@ == blanks(k as nat),
        decreases n - k,
    {
        push_char(&mut s, ' ');
        assert(blanks((k + 1) as nat) =~= blanks(k as nat).push(' '));
        k = k + 1;
    }
    s
}

/// What `console::measure_text_width(text)` gives: the display width of
/// `text` in terminal columns, ANSI escape sequences not counted.
pub uninterp spec fn measured_width(text: Seq<char>) -> usize;

/// `console::measure_text_width`: the display width of `text`, named
/// `measured_width`.
#[verifier::external_body]
fn text_width(text: &str) -> (w: usize)
    ensures
        w == measured_width(text@),
{
    console::measure_text_width(text)
}

impl BannerEntry {
    /// The terminal line of the entry: its emoji, or where the terminal
    /// takes no emoji as many spaces as the square of the emoji's width,
    /// then the title and the value in their columns. `None` where that
    /// square does not fit in a `usize`.
    pub fn terminal_line(&self) -> (res: Option<String>)
        ensures
            match res {
                None => measured_width(self@.emoji) * measured_width(self@.emoji) > usize::MAX,
                Some(s) => measured_width(self@.emoji) * measured_width(self@.emoji) <= usize::MAX && (
                    s@ == entry_line(self@.emoji, self@)
                    || s@ == entry_line(blanks(fallback_len(measured_width(self@.emoji) as nat)), self@)),
            },
    {
        let width = text_width(self.emoji.as_str());
        match width.checked_mul(width) {
            None => None,
            Some(_) => {
                let pad = emoji_fallback(width);
                let shown = emoji_or(self.emoji.as_str(), pad.as_str());
                Some(self.line(shown.as_str()))
            },
        }
    }
}
} // verus!
