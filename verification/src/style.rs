//! Colours and emphasis for terminal text.
//!
//! The escape sequences come from the `owo-colors` crate. Each styling
//! function here hands one text to one of its methods and returns what that
//! displays. The contracts of these functions state the sequences that the
//! crate emits; they are assumed, not proved. What a terminal shows of a
//! styled text is modelled by [`visible`], and proved to be the text itself.

use crate::text::digit_char;
use owo_colors::OwoColorize;
use vstd::prelude::*;
use vstd::string::*;

verus! {

/// The three decimal digits of `value`, with leading zeros.
pub open spec fn three_digits(value: u8) -> Seq<char> {
    seq![
        digit_char((value / 100) as nat),
        digit_char((value / 10 % 10) as nat),
        digit_char((value % 10) as nat),
    ]
}

/// The sequence that selects the foreground colour of the given red, green and blue parts.
pub open spec fn rgb_open(red: u8, green: u8, blue: u8) -> Seq<char> {
    "\x1b[38;2;"@ + three_digits(red) + ";"@ + three_digits(green) + ";"@ + three_digits(blue)
        + "m"@
}

/// `text` between the sequence `open` and the sequence that restores the default foreground.
pub open spec fn coloured(open: Seq<char>, text: Seq<char>) -> Seq<char> {
    open + text + "\x1b[39m"@
}

/// `text` between the sequence for bold and the sequence that resets every attribute.
pub open spec fn emboldened(text: Seq<char>) -> Seq<char> {
    "\x1b[1m"@ + text + "\x1b[0m"@
}

/// `OwoColorize::yellow` on `text`, displayed: the text after the sequence
/// for a yellow foreground and before the one for the default foreground.
#[verifier::external_body]
pub(crate) fn yellow(text: &str) -> (out: String)
    ensures
        out@ == coloured("\x1b[33m"@, text@),
{
    format!("{}", text.yellow())
}

/// `OwoColorize::red` on `text`, displayed: the text after the sequence for
/// a red foreground and before the one for the default foreground.
#[verifier::external_body]
pub(crate) fn red(text: &str) -> (out: String)
    ensures
        out@ == coloured("\x1b[31m"@, text@),
{
    format!("{}", text.red())
}

/// `OwoColorize::green` on `text`, displayed: the text after the sequence
/// for a green foreground and before the one for the default foreground.
#[verifier::external_body]
pub(crate) fn green(text: &str) -> (out: String)
    ensures
        out@ == coloured("\x1b[32m"@, text@),
{
    format!("{}", text.green())
}

/// `OwoColorize::blue` on `text`, displayed: the text after the sequence for
/// a blue foreground and before the one for the default foreground.
#[verifier::external_body]
pub(crate) fn blue(text: &str) -> (out: String)
    ensures
        out@ == coloured("\x1b[34m"@, text@),
{
    format!("{}", text.blue())
}

/// `OwoColorize::purple` on `text`, displayed: the text after the sequence
/// for a magenta foreground and before the one for the default foreground.
#[verifier::external_body]
pub(crate) fn purple(text: &str) -> (out: String)
    ensures
        out@ == coloured("\x1b[35m"@, text@),
{
    format!("{}", text.purple())
}

/// `OwoColorize::bold` on `text`, displayed: the text after the sequence for
/// bold and before the one that resets every attribute.
#[verifier::external_body]
pub(crate) fn bold(text: &str) -> (out: String)
    ensures
        out@ == emboldened(text@),
{
    format!("{}", text.bold())
}

/// `OwoColorize::fg_rgb` on `text`, displayed: the text after the sequence
/// that selects the colour `R`, `G`, `B`, each part written with three
/// digits, and before the sequence for the default foreground.
#[verifier::external_body]
pub(crate) fn fg_rgb<const R: u8, const G: u8, const B: u8>(text: &str) -> (out: String)
    ensures
        out@ == coloured(rgb_open(R, G, B), text@),
{
    format!("{}", text.fg_rgb::<R, G, B>())
}

/// Colours `text` in the muted grey of unset and unreadable things.
pub fn muted(text: &str) -> (out: String)
    ensures
        out@ == coloured(rgb_open(128, 128, 128), text@),
{
    fg_rgb::<128, 128, 128>(text)
}

/// What a terminal shows of `text`, read from a point inside an escape
/// sequence or outside one: every character but those of escape sequences.
/// An escape sequence begins at the escape character and ends with the next `m`.
pub open spec fn visible_in(text: Seq<char>, escaping: bool) -> Seq<char>
    decreases text.len(),
{
    if text.len() == 0 {
        Seq::empty()
    } else if escaping {
        visible_in(text.drop_first(), text[0] != 'm')
    } else if text[0] == '\x1b' {
        visible_in(text.drop_first(), true)
    } else {
        seq![text[0]] + visible_in(text.drop_first(), false)
    }
}

/// Whether the end of `text` lies inside an escape sequence.
pub open spec fn escaping_after(text: Seq<char>, escaping: bool) -> bool
    decreases text.len(),
{
    if text.len() == 0 {
        escaping
    } else if escaping {
        escaping_after(text.drop_first(), text[0] != 'm')
    } else {
        escaping_after(text.drop_first(), text[0] == '\x1b')
    }
}

/// What a terminal shows of `text`.
pub open spec fn visible(text: Seq<char>) -> Seq<char> {
    visible_in(text, false)
}

/// A text that leaves no escape sequence open.
pub open spec fn closed(text: Seq<char>) -> bool {
    !escaping_after(text, false)
}

/// One whole escape sequence: the escape character, then characters other than `m`, then `m`.
pub open spec fn escape_sequence(text: Seq<char>) -> bool {
    &&& text.len() >= 2
    &&& text[0] == '\x1b'
    &&& text.last() == 'm'
    &&& forall|i: int| 0 < i < text.len() - 1 ==> text[i] != 'm'
}

/// A text without the escape character.
pub open spec fn plain(text: Seq<char>) -> bool {
    forall|i: int| 0 <= i < text.len() ==> text[i] != '\x1b'
}

/// What shows of two texts in a row is what shows of the first, then what
/// shows of the second, read from where the first leaves off.
pub proof fn lemma_visible_concat(first: Seq<char>, second: Seq<char>, escaping: bool)
    ensures
        visible_in(first + second, escaping) == visible_in(first, escaping) + visible_in(
            second,
            escaping_after(first, escaping),
        ),
        escaping_after(first + second, escaping) == escaping_after(
            second,
            escaping_after(first, escaping),
        ),
    decreases first.len(),
{
    if first.len() == 0 {
        assert(first + second =~= second);
        assert(visible_in(first, escaping) + visible_in(second, escaping) =~= visible_in(
            second,
            escaping,
        ));
    } else {
        let all = first + second;
        assert(all.drop_first() =~= first.drop_first() + second);
        assert(all[0] == first[0]);
        let next = if escaping {
            first[0] != 'm'
        } else {
            first[0] == '\x1b'
        };
        lemma_visible_concat(first.drop_first(), second, next);
        if !escaping && first[0] != '\x1b' {
            assert(seq![first[0]] + (visible_in(first.drop_first(), false) + visible_in(
                second,
                escaping_after(first.drop_first(), false),
            )) =~= (seq![first[0]] + visible_in(first.drop_first(), false)) + visible_in(
                second,
                escaping_after(first.drop_first(), false),
            ));
        }
    }
}

/// The rest of an escape sequence shows nothing and ends the sequence.
proof fn lemma_escape_rest(text: Seq<char>)
    requires
        text.len() >= 1,
        text.last() == 'm',
        forall|i: int| 0 <= i < text.len() - 1 ==> text[i] != 'm',
    ensures
        visible_in(text, true) == Seq::<char>::empty(),
        !escaping_after(text, true),
    decreases text.len(),
{
    if text.len() > 1 {
        let rest = text.drop_first();
        assert(rest.last() == text.last());
        assert forall|i: int| 0 <= i < rest.len() - 1 implies rest[i] != 'm' by {
            assert(rest[i] == text[i + 1]);
        }
        lemma_escape_rest(rest);
        assert(text[0] != 'm');
    } else {
        assert(text[0] == 'm');
        assert(text.drop_first().len() == 0);
        assert(visible_in(text.drop_first(), false) == Seq::<char>::empty());
        assert(!escaping_after(text.drop_first(), false));
    }
}

/// An escape sequence shows nothing and leaves nothing open.
pub proof fn lemma_escape_sequence_shows_nothing(text: Seq<char>)
    requires
        escape_sequence(text),
    ensures
        visible(text) == Seq::<char>::empty(),
        closed(text),
{
    let rest = text.drop_first();
    assert(rest.last() == text.last());
    assert forall|i: int| 0 <= i < rest.len() - 1 implies rest[i] != 'm' by {
        assert(rest[i] == text[i + 1]);
    }
    lemma_escape_rest(rest);
}

/// A text without the escape character shows as it is.
pub proof fn lemma_plain_text_shows(text: Seq<char>)
    requires
        plain(text),
    ensures
        visible(text) == text,
        closed(text),
    decreases text.len(),
{
    if text.len() > 0 {
        let rest = text.drop_first();
        assert forall|i: int| 0 <= i < rest.len() implies rest[i] != '\x1b' by {
            assert(rest[i] == text[i + 1]);
        }
        lemma_plain_text_shows(rest);
        assert(seq![text[0]] + rest =~= text);
    } else {
        assert(visible(text) =~= text);
    }
}

/// The sequences that open the colours and close the styles are escape sequences.
pub proof fn lemma_style_sequences()
    ensures
        escape_sequence("\x1b[31m"@),
        escape_sequence("\x1b[32m"@),
        escape_sequence("\x1b[33m"@),
        escape_sequence("\x1b[34m"@),
        escape_sequence("\x1b[35m"@),
        escape_sequence("\x1b[39m"@),
        escape_sequence("\x1b[1m"@),
        escape_sequence("\x1b[0m"@),
{
    reveal_strlit("\x1b[31m");
    reveal_strlit("\x1b[32m");
    reveal_strlit("\x1b[33m");
    reveal_strlit("\x1b[34m");
    reveal_strlit("\x1b[35m");
    reveal_strlit("\x1b[39m");
    reveal_strlit("\x1b[1m");
    reveal_strlit("\x1b[0m");
}

/// The sequence that selects a colour by its parts is an escape sequence.
pub proof fn lemma_rgb_open_is_escape_sequence(red: u8, green: u8, blue: u8)
    ensures
        escape_sequence(rgb_open(red, green, blue)),
{
    reveal_strlit("\x1b[38;2;");
    reveal_strlit(";");
    reveal_strlit("m");
    let r = three_digits(red);
    let g = three_digits(green);
    let b = three_digits(blue);
    let whole = seq![
        '\x1b',
        '[',
        '3',
        '8',
        ';',
        '2',
        ';',
        r[0],
        r[1],
        r[2],
        ';',
        g[0],
        g[1],
        g[2],
        ';',
        b[0],
        b[1],
        b[2],
        'm',
    ];
    assert(rgb_open(red, green, blue) =~= whole);
}

/// Colour changes nothing of what shows: a coloured text shows what the text shows.
pub proof fn lemma_coloured_shows_text(open: Seq<char>, text: Seq<char>)
    requires
        escape_sequence(open),
        closed(text),
    ensures
        visible(coloured(open, text)) == visible(text),
        closed(coloured(open, text)),
{
    lemma_style_sequences();
    let close = "\x1b[39m"@;
    lemma_escape_sequence_shows_nothing(open);
    lemma_escape_sequence_shows_nothing(close);
    lemma_visible_concat(open, text, false);
    lemma_visible_concat(open + text, close, false);
    assert(visible(open + text) =~= visible(text));
    assert(visible(coloured(open, text)) =~= visible(text));
}

/// Bold changes nothing of what shows: an emboldened text shows what the text shows.
pub proof fn lemma_emboldened_shows_text(text: Seq<char>)
    requires
        closed(text),
    ensures
        visible(emboldened(text)) == visible(text),
        closed(emboldened(text)),
{
    lemma_style_sequences();
    let open = "\x1b[1m"@;
    let close = "\x1b[0m"@;
    lemma_escape_sequence_shows_nothing(open);
    lemma_escape_sequence_shows_nothing(close);
    lemma_visible_concat(open, text, false);
    lemma_visible_concat(open + text, close, false);
    assert(visible(open + text) =~= visible(text));
    assert(visible(emboldened(text)) =~= visible(text));
}

} // verus!
