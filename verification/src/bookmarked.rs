//! The "Bookmarked Patchsets" screen: the text of each row, of the footer
//! and of the key hints.
use vstd::prelude::*;

use crate::layout::{
    all_digits, digit_char, digits_value, fitted, lemma_fitted_width, lemma_zero_padded_three,
    lemma_zero_padded_value, lemma_zero_padded_width, push_fitted, push_zero_padded, zero_padded,
};

verus! {

/// The colours the screen draws its text in.
#[derive(Clone, Copy, Debug, PartialEq, Eq, Structural)]
pub enum TextColor {
    Yellow,
    Green,
    Red,
}

/// A piece of text drawn in one colour.
#[derive(Debug, PartialEq, Eq)]
pub struct StyledText {
    pub text: String,
    pub color: TextColor,
}

/// What a row of the screen shows of a bookmarked patchset.
#[derive(Debug, PartialEq, Eq)]
pub struct BookmarkedPatch {
    pub title: String,
    pub author_name: String,
    pub version: usize,
    pub total_in_series: usize,
}

/// The bookmarked patchsets and which of them is selected.
#[derive(Debug, PartialEq, Eq)]
pub struct BookmarkedPatchsets {
    pub bookmarked_patchsets: Vec<BookmarkedPatch>,
    pub patchset_index: usize,
}

/// Width, in characters, of the title column.
pub const TITLE_WIDTH: usize = 70;

/// Width, in characters, of the author column.
pub const AUTHOR_WIDTH: usize = 30;

/// The row for the patchset at `index`:
/// `{index:03}. V{version:02} | #{total:02} | {title} | {author}`, with the
/// title and the author each padded or cut to the width of their column.
pub open spec fn patchset_row(index: nat, patch: BookmarkedPatch) -> Seq<char> {
    zero_padded(index, 3) + seq!['.', ' ', 'V'] + zero_padded(patch.version as nat, 2) + seq![
        ' ',
        '|',
        ' ',
        '#',
    ] + zero_padded(patch.total_in_series as nat, 2) + seq![' ', '|', ' '] + fitted(
        patch.title@,
        TITLE_WIDTH as nat,
    ) + seq![' ', '|', ' '] + fitted(patch.author_name@, AUTHOR_WIDTH as nat)
}

/// Appends the characters of `cs` to `s`.
fn push_all(s: &mut String, cs: &[char])
    ensures
        final(s)@ == old(s)@ + cs@,
{
    let mut i: usize = 0;
    while i < cs.len()
        invariant
            i <= cs@.len(),
            s@ == old(s)@ + cs@.take(i as int),
        decreases cs@.len() - i,
    {
        crate::text::push_char(s, cs[i]);
        assert(cs@.take(i + 1) =~= cs@.take(i as int).push(cs@[i as int]));
        i = i + 1;
    }
    assert(cs@.take(cs@.len() as int) =~= cs@);
}

/// The text of the row for the patchset at `index`.
pub fn patchset_row_text(index: usize, patch: &BookmarkedPatch) -> (r: String)
    ensures
        r@ == patchset_row(index as nat, *patch),
{
    let mut s = String::new();
    push_zero_padded(&mut s, index, 3);
    push_all(&mut s, &['.', ' ', 'V']);
    push_zero_padded(&mut s, patch.version, 2);
    push_all(&mut s, &[' ', '|', ' ', '#']);
    push_zero_padded(&mut s, patch.total_in_series, 2);
    push_all(&mut s, &[' ', '|', ' ']);
    push_fitted(&mut s, patch.title.as_str(), TITLE_WIDTH);
    push_all(&mut s, &[' ', '|', ' ']);
    push_fitted(&mut s, patch.author_name.as_str(), AUTHOR_WIDTH);
    assert(s@ =~= patchset_row(index as nat, *patch));
    s
}

/// The rows of the screen, one per bookmarked patchset in order, each in
/// yellow.
pub fn bookmarked_rows(bookmarked_patchsets: &BookmarkedPatchsets) -> (r: Vec<StyledText>)
    ensures
        r.len() == bookmarked_patchsets.bookmarked_patchsets.len(),
        forall|i: int|
            0 <= i < r.len() ==> (#[trigger] r[i]).text@ == patchset_row(
                i as nat,
                bookmarked_patchsets.bookmarked_patchsets[i],
            ) && r[i].color == TextColor::Yellow,
{
    let patches = &bookmarked_patchsets.bookmarked_patchsets;
    let mut rows: Vec<StyledText> = Vec::new();
    for index in 0..patches.len()
        invariant
            rows.len() == index,
            forall|i: int|
                0 <= i < index ==> (#[trigger] rows[i]).text@ == patchset_row(i as nat, patches[i])
                    && rows[i].color == TextColor::Yellow,
    {
        let text = patchset_row_text(index, &patches[index]);
        rows.push(StyledText { text, color: TextColor::Yellow });
    }
    rows
}

/// The footer of the screen: its name, in green.
pub fn mode_footer_text() -> (r: Vec<StyledText>)
    ensures
        r.len() == 1,
        r[0].text@ == "Bookmarked Patchsets"@,
        r[0].color == TextColor::Green,
{
    vec![StyledText { text: "Bookmarked Patchsets".to_owned(), color: TextColor::Green }]
}

/// The keys the screen answers to, in red.
pub fn keys_hint() -> (r: StyledText)
    ensures
        r.text@ == "(ESC / q) to return | (ENTER) to select | (?) help"@,
        r.color == TextColor::Red,
{
    StyledText {
        text: "(ESC / q) to return | (ENTER) to select | (?) help".to_owned(),
        color: TextColor::Red,
    }
}

/// A row starts with the row number, then the version and then the series
/// length, each written in decimal with zeros in front up to its width
/// (three digits for the row number, two for the others) and read back as
/// the number it was made from, separated by `". V"` and `" | #"` and
/// followed by `" | "`.
pub proof fn lemma_row_numbers(index: nat, patch: BookmarkedPatch)
    ensures
        ({
            let row = patchset_row(index, patch);
            let a = zero_padded(index, 3);
            let b = zero_padded(patch.version as nat, 2);
            let c = zero_padded(patch.total_in_series as nat, 2);
            let la = a.len() as int;
            let lb = b.len() as int;
            let lc = c.len() as int;
            &&& la >= 3 && lb >= 2 && lc >= 2
            &&& row.take(la) == a
            &&& all_digits(a) && digits_value(a) == index
            &&& row.subrange(la, la + 3) == seq!['.', ' ', 'V']
            &&& row.subrange(la + 3, la + 3 + lb) == b
            &&& all_digits(b) && digits_value(b) == patch.version
            &&& row.subrange(la + 3 + lb, la + 7 + lb) == seq![' ', '|', ' ', '#']
            &&& row.subrange(la + 7 + lb, la + 7 + lb + lc) == c
            &&& all_digits(c) && digits_value(c) == patch.total_in_series
            &&& row.subrange(la + 7 + lb + lc, la + 10 + lb + lc) == seq![' ', '|', ' ']
        }),
{
    let row = patchset_row(index, patch);
    let a = zero_padded(index, 3);
    let b = zero_padded(patch.version as nat, 2);
    let c = zero_padded(patch.total_in_series as nat, 2);
    let la = a.len() as int;
    let lb = b.len() as int;
    let lc = c.len() as int;
    lemma_zero_padded_value(index, 3);
    lemma_zero_padded_value(patch.version as nat, 2);
    lemma_zero_padded_value(patch.total_in_series as nat, 2);
    assert(row.take(la) =~= a);
    assert(row.subrange(la, la + 3) =~= seq!['.', ' ', 'V']);
    assert(row.subrange(la + 3, la + 3 + lb) =~= b);
    assert(row.subrange(la + 3 + lb, la + 7 + lb) =~= seq![' ', '|', ' ', '#']);
    assert(row.subrange(la + 7 + lb, la + 7 + lb + lc) =~= c);
    assert(row.subrange(la + 7 + lb + lc, la + 10 + lb + lc) =~= seq![' ', '|', ' ']);
}

/// For a row number below 1000, the row's first three characters are its
/// hundreds, tens and units digits, followed by `". V"`.
pub proof fn lemma_row_number_digits(index: nat, patch: BookmarkedPatch)
    requires
        index < 1000,
    ensures
        patchset_row(index, patch)[0] == digit_char(index / 100),
        patchset_row(index, patch)[1] == digit_char((index / 10) % 10),
        patchset_row(index, patch)[2] == digit_char(index % 10),
        patchset_row(index, patch).subrange(3, 6) == seq!['.', ' ', 'V'],
{
    lemma_zero_padded_three(index);
    let row = patchset_row(index, patch);
    assert(row.subrange(3, 6) =~= seq!['.', ' ', 'V']);
}

/// Rows line up: for an index below 1000 and a version and series length
/// below 100, every row is 120 characters long, and the title and author
/// columns start at the same place in every row.
pub proof fn lemma_rows_align(index: nat, patch: BookmarkedPatch)
    requires
        index < 1000,
        patch.version < 100,
        patch.total_in_series < 100,
    ensures
        patchset_row(index, patch).len() == 120,
        patchset_row(index, patch).subrange(17, 87) == fitted(patch.title@, TITLE_WIDTH as nat),
        patchset_row(index, patch).subrange(90, 120) == fitted(
            patch.author_name@,
            AUTHOR_WIDTH as nat,
        ),
{
    lemma_zero_padded_width(index, 3);
    lemma_zero_padded_width(patch.version as nat, 2);
    lemma_zero_padded_width(patch.total_in_series as nat, 2);
    lemma_fitted_width(patch.title@, TITLE_WIDTH as nat);
    lemma_fitted_width(patch.author_name@, AUTHOR_WIDTH as nat);
    assert(patchset_row(index, patch).subrange(17, 87) =~= fitted(patch.title@, TITLE_WIDTH as nat));
    assert(patchset_row(index, patch).subrange(90, 120) =~= fitted(
        patch.author_name@,
        AUTHOR_WIDTH as nat,
    ));
}

} // verus!
