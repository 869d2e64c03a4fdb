use vstd::prelude::*;

use crate::text::opt_text;

verus! {

/// What `html2text::from_read` renders from the given HTML at the given
/// width: the plain text, or `None` where it fails.
pub uninterp spec fn html2text_from_read(html: Seq<char>, width: nat) -> Option<Seq<char>>;

/// Calls `html2text::from_read` on the UTF-8 bytes of `html`. The contract
/// claims only that the outcome is a function of the HTML and the width,
/// named `html2text_from_read`, with an error turned into `None`; what the
/// rendered text looks like is not stated.
#[verifier::external_body]
fn render_plain(html: &str, width: usize) -> (r: Option<String>)
    ensures
        opt_text(r) == html2text_from_read(html@, width as nat),
{
    match html2text::from_read(html.as_bytes(), width) {
        Ok(text) => Some(text),
        Err(_) => None,
    }
}

/// The narrowest width at which card text is laid out.
pub const MIN_TEXT_WIDTH: u16 = 20;

/// The width at which card text is laid out for a terminal area of the
/// given width.
pub open spec fn layout_width(width: u16) -> nat {
    if width < MIN_TEXT_WIDTH {
        MIN_TEXT_WIDTH as nat
    } else {
        width as nat
    }
}

/// The text shown for a card side: the rendering when there is one, the
/// HTML itself otherwise.
pub open spec fn shown_text(rendered: Option<Seq<char>>, html: Seq<char>) -> Seq<char> {
    match rendered {
        Some(text) => text,
        None => html,
    }
}

/// Chooses the text shown for a card side: the rendering when there is one,
/// the HTML itself where rendering failed.
pub fn text_or_html(rendered: Option<String>, html: &str) -> (s: String)
    ensures
        s@ == shown_text(opt_text(rendered), html@),
{
    match rendered {
        Some(text) => text,
        None => String::from_str(html),
    }
}

/// Converts Anki's rendered card HTML (question/answer fields, cloze already
/// resolved) into plain text sized for the given terminal width, never
/// narrower than twenty columns.
pub fn html_to_text(html: &str, width: u16) -> (s: String)
    ensures
        s@ == shown_text(html2text_from_read(html@, layout_width(width)), html@),
{
    let w: u16 = if width < MIN_TEXT_WIDTH {
        MIN_TEXT_WIDTH
    } else {
        width
    };
    let rendered = render_plain(html, w as usize);
    text_or_html(rendered, html)
}

/// Card text is laid out at the width of the terminal area, except that an
/// area narrower than twenty columns is treated as twenty columns wide.
pub proof fn lemma_layout_width_is_at_least_twenty(width: u16)
    ensures
        width >= 20 ==> layout_width(width) == width as nat,
        width < 20 ==> layout_width(width) == 20,
{
}

} // verus!
