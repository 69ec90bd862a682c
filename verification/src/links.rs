use vstd::prelude::*;

verus! {

/// One cell of a visible row, as the link lookup reads it: whether it is
/// the spacer half of a wide character, its character and combining marks,
/// and the OSC 8 hyperlink URI it carries, if any.
pub struct RowCell {
    pub spacer: bool,
    pub ch: char,
    pub combining: Vec<char>,
    pub link: Option<String>,
}

/// The text a cell contributes to its row: nothing for a spacer, else its
/// character followed by its combining marks.
pub open spec fn cell_chars(c: RowCell) -> Seq<char> {
    if c.spacer {
        Seq::empty()
    } else {
        seq![c.ch] + c.combining@
    }
}

/// The text of a row of cells, in column order.
pub open spec fn row_chars(cells: Seq<RowCell>) -> Seq<char>
    decreases cells.len(),
{
    if cells.len() == 0 {
        Seq::empty()
    } else {
        row_chars(cells.drop_last()) + cell_chars(cells.last())
    }
}

/// The number of bytes UTF-8 encodes `c` in.
pub open spec fn utf8_width(c: char) -> nat {
    let u = c as u32;
    if u < 0x80 {
        1
    } else if u < 0x800 {
        2
    } else if u < 0x10000 {
        3
    } else {
        4
    }
}

/// The number of bytes UTF-8 encodes `s` in.
pub open spec fn utf8_len(s: Seq<char>) -> nat
    decreases s.len(),
{
    if s.len() == 0 {
        0
    } else {
        utf8_len(s.drop_last()) + utf8_width(s.last())
    }
}

/// What lies under a cell of a row, for opening a link on command-click.
pub enum CellUrl {
    /// The cell carries an OSC 8 hyperlink with this URI.
    Link(String),
    /// No hyperlink: scan the row's `text` for a URL covering the byte
    /// offset `byte` (where the cell's character starts).
    Scan { text: String, byte: usize },
    /// The column is past the row, or on the spacer half of a wide character.
    NotOverText,
}

proof fn lemma_utf8_len_concat(a: Seq<char>, b: Seq<char>)
    ensures
        utf8_len(a + b) == utf8_len(a) + utf8_len(b),
    decreases b.len(),
{
    if b.len() == 0 {
        assert(a + b =~= a);
    } else {
        assert((a + b).drop_last() =~= a + b.drop_last());
        assert((a + b).last() == b.last());
        lemma_utf8_len_concat(a, b.drop_last());
    }
}

proof fn lemma_row_chars_step(cells: Seq<RowCell>, i: int)
    requires
        0 <= i < cells.len(),
    ensures
        row_chars(cells.take(i + 1)) == row_chars(cells.take(i)) + cell_chars(cells[i]),
{
    assert(cells.take(i + 1).drop_last() =~= cells.take(i));
    assert(cells.take(i + 1).last() == cells[i]);
}

proof fn lemma_row_prefix_bound(cells: Seq<RowCell>, i: int)
    requires
        0 <= i <= cells.len(),
    ensures
        utf8_len(row_chars(cells.take(i))) <= utf8_len(row_chars(cells)),
    decreases cells.len() - i,
{
    if i == cells.len() {
        assert(cells.take(i) =~= cells);
    } else {
        lemma_row_prefix_bound(cells, i + 1);
        lemma_row_chars_step(cells, i);
        lemma_utf8_len_concat(row_chars(cells.take(i)), cell_chars(cells[i]));
    }
}

fn utf8_width_of(c: char) -> (r: usize)
    ensures
        r == utf8_width(c),
{
    let u = c as u32;
    if u < 0x80 {
        1
    } else if u < 0x800 {
        2
    } else if u < 0x10000 {
        3
    } else {
        4
    }
}

/// What lies under column `col` of a visible row: the cell's OSC 8 URI when
/// it carries one; otherwise the row's text (spacers skipped, combining
/// marks kept) with the byte offset where that cell's character starts, for
/// the URL scan; nothing when `col` is past the row or on a spacer.
pub fn url_at_cell(cells: &Vec<RowCell>, col: usize) -> (r: CellUrl)
    requires
        utf8_len(row_chars(cells@)) <= usize::MAX,
    ensures
        col >= cells@.len() ==> r is NotOverText,
        col < cells@.len() && cells@[col as int].link is Some ==> (r matches CellUrl::Link(u) && u@
            == cells@[col as int].link->Some_0@),
        col < cells@.len() && cells@[col as int].link is None && cells@[col as int].spacer
            ==> r is NotOverText,
        col < cells@.len() && cells@[col as int].link is None && !cells@[col as int].spacer ==> (
        r matches CellUrl::Scan { text, byte } && text@ == row_chars(cells@) && byte == utf8_len(
            row_chars(cells@.take(col as int)),
        )),
{
    if col >= cells.len() {
        return CellUrl::NotOverText;
    }
    match &cells[col].link {
        Some(uri) => {
            return CellUrl::Link(uri.clone());
        },
        None => {},
    }
    if cells[col].spacer {
        return CellUrl::NotOverText;
    }
    let ghost total = utf8_len(row_chars(cells@));
    let mut text = String::new();
    let mut bytes: usize = 0;
    let mut at_col: usize = 0;
    let mut i: usize = 0;
    assert(cells@.take(0) =~= Seq::<RowCell>::empty());
    while i < cells.len()
        invariant
            i <= cells@.len(),
            col < cells@.len(),
            total == utf8_len(row_chars(cells@)),
            total <= usize::MAX,
            text@ == row_chars(cells@.take(i as int)),
            bytes == utf8_len(text@),
            i > col ==> at_col == utf8_len(row_chars(cells@.take(col as int))),
        decreases cells@.len() - i,
    {
        if i == col {
            at_col = bytes;
        }
        let cell = &cells[i];
        proof {
            lemma_row_chars_step(cells@, i as int);
            lemma_row_prefix_bound(cells@, i + 1);
            lemma_utf8_len_concat(row_chars(cells@.take(i as int)), cell_chars(cells@[i as int]));
        }
        let ghost base = text@;
        let ghost cc = cell_chars(*cell);
        if !cell.spacer {
            let w = utf8_width_of(cell.ch);
            proof {
                lemma_utf8_len_concat(base, cc);
                lemma_utf8_len_concat(seq![cell.ch], cell.combining@);
                assert(seq![cell.ch].drop_last() =~= Seq::<char>::empty());
            }
            text.push(cell.ch);
            assert(text@.drop_last() =~= base);
            bytes = bytes + w;
            let mut k: usize = 0;
            assert(cell.combining@.take(0) =~= Seq::<char>::empty());
            assert(text@ =~= base + seq![cell.ch] + cell.combining@.take(0));
            while k < cell.combining.len()
                invariant
                    k <= cell.combining@.len(),
                    cc == seq![cell.ch] + cell.combining@,
                    text@ == base + seq![cell.ch] + cell.combining@.take(k as int),
                    bytes == utf8_len(text@),
                    utf8_len(base + cc) <= usize::MAX,
                decreases cell.combining@.len() - k,
            {
                let m = cell.combining[k];
                let wm = utf8_width_of(m);
                proof {
                    let pre = base + seq![cell.ch] + cell.combining@.take(k as int);
                    let rest = cell.combining@.skip(k as int);
                    assert(base + cc =~= pre + rest);
                    lemma_utf8_len_concat(pre, rest);
                    assert(rest.take(1) =~= seq![m]);
                    assert(rest =~= rest.take(1) + rest.skip(1));
                    lemma_utf8_len_concat(rest.take(1), rest.skip(1));
                    assert(seq![m].drop_last() =~= Seq::<char>::empty());
                    assert(pre.push(m).drop_last() =~= pre);
                }
                text.push(m);
                bytes = bytes + wm;
                assert(cell.combining@.take(k + 1) =~= cell.combining@.take(k as int).push(m));
                k = k + 1;
            }
            assert(cell.combining@.take(k as int) =~= cell.combining@);
            assert(text@ =~= base + cc);
        } else {
            assert(cc =~= Seq::<char>::empty());
            assert(base + cc =~= base);
        }
        i = i + 1;
    }
    assert(cells@.take(cells@.len() as int) =~= cells@);
    CellUrl::Scan { text, byte: at_col }
}

proof fn lemma_row_chars_split(cells: Seq<RowCell>, i: int)
    requires
        0 <= i <= cells.len(),
    ensures
        row_chars(cells) == row_chars(cells.take(i)) + row_chars(cells.skip(i)),
    decreases cells.len(),
{
    if i == cells.len() {
        assert(cells.take(i) =~= cells);
        assert(cells.skip(i) =~= Seq::<RowCell>::empty());
        assert(row_chars(cells) + Seq::<char>::empty() =~= row_chars(cells));
    } else {
        let init = cells.drop_last();
        lemma_row_chars_split(init, i);
        assert(init.take(i) =~= cells.take(i));
        assert(init.skip(i) =~= cells.skip(i).drop_last());
        assert(cells.skip(i).last() == cells.last());
        assert(row_chars(cells) =~= row_chars(cells.take(i)) + row_chars(cells.skip(i)));
    }
}

/// UTF-8 encodes a character in as many bytes as its code point needs: one
/// below U+0080, two below U+0800, three below U+10000, and four for
/// everything from U+10000 on (emoji and the other supplementary planes).
pub proof fn lemma_utf8_width_is_encoding_length(c: char)
    ensures
        (c as u32) < 0x80 ==> utf8_width(c) == 1,
        0x80 <= (c as u32) < 0x800 ==> utf8_width(c) == 2,
        0x800 <= (c as u32) < 0x10000 ==> utf8_width(c) == 3,
        0x10000 <= (c as u32) ==> utf8_width(c) == 4,
        1 <= utf8_width(c) <= 4,
{
}

/// The byte length of text adds up over its pieces, lies between one and
/// four bytes per character, and is exactly four per character for text of
/// supplementary-plane characters only.
pub proof fn lemma_utf8_len_counts_bytes(a: Seq<char>, b: Seq<char>)
    ensures
        utf8_len(a + b) == utf8_len(a) + utf8_len(b),
        a.len() <= utf8_len(a) <= 4 * a.len(),
        (forall|i: int| 0 <= i < a.len() ==> 0x10000 <= (#[trigger] a[i] as u32)) ==> utf8_len(a) == 4 * a.len(),
        (forall|i: int| 0 <= i < a.len() ==> (#[trigger] a[i] as u32) < 0x80) ==> utf8_len(a) == a.len(),
    decreases a.len(),
{
    lemma_utf8_len_concat(a, b);
    if a.len() > 0 {
        let init = a.drop_last();
        lemma_utf8_len_counts_bytes(init, b);
        if forall|i: int| 0 <= i < a.len() ==> 0x10000 <= (#[trigger] a[i] as u32) {
            assert forall|i: int| 0 <= i < init.len() implies 0x10000 <= (#[trigger] init[i] as u32) by {
                assert(init[i] == a[i]);
            }
            assert(0x10000 <= (a[a.len() - 1] as u32));
        }
        if forall|i: int| 0 <= i < a.len() ==> (#[trigger] a[i] as u32) < 0x80 {
            assert forall|i: int| 0 <= i < init.len() implies (#[trigger] init[i] as u32) < 0x80 by {
                assert(init[i] == a[i]);
            }
            assert((a[a.len() - 1] as u32) < 0x80);
        }
    }
}

/// The scan offset of a cell splits the row's text exactly at that cell: the
/// text is the text of the cells before `col` followed by the text from
/// `col` on, the offset is the byte length of the first part (so it is a
/// character boundary), and the second part starts with the clicked cell's
/// own character (for a cell that is not a spacer).
pub proof fn lemma_scan_offset_starts_the_cell(cells: Seq<RowCell>, col: int)
    requires
        0 <= col < cells.len(),
    ensures
        row_chars(cells) == row_chars(cells.take(col)) + row_chars(cells.skip(col)),
        utf8_len(row_chars(cells)) == utf8_len(row_chars(cells.take(col))) + utf8_len(row_chars(cells.skip(col))),
        !cells[col].spacer ==> row_chars(cells.skip(col)).len() > 0 && row_chars(cells.skip(col))[0]
            == cells[col].ch,
{
    lemma_row_chars_split(cells, col);
    lemma_utf8_len_concat(row_chars(cells.take(col)), row_chars(cells.skip(col)));
    let rest = cells.skip(col);
    lemma_row_chars_split(rest, 1);
    assert(rest.take(1).drop_last() == Seq::<RowCell>::empty());
    assert(row_chars(Seq::<RowCell>::empty()) == Seq::<char>::empty());
    assert(rest.take(1).last() == cells[col]);
    assert(Seq::<char>::empty() + cell_chars(cells[col]) =~= cell_chars(cells[col]));
    assert(row_chars(rest.take(1)) =~= cell_chars(cells[col]));
}

} // verus!
