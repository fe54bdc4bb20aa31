//! Canonical hex+ASCII rendering of payload bytes.
//!
//! A payload is split into 16-byte chunks; each chunk becomes one line:
//! the bytes as two-digit lowercase hexadecimal separated by single
//! spaces, padded to a fixed column width, then `" | "`, then the same
//! bytes as ASCII with `.` standing in for anything not printable-graphic.

use vstd::prelude::*;

verus! {

/// The lowercase hexadecimal digit for a value below 16.
pub open spec fn hex_digit(n: u8) -> char
    recommends
        n < 16,
{
    match n {
        0 => '0',
        1 => '1',
        2 => '2',
        3 => '3',
        4 => '4',
        5 => '5',
        6 => '6',
        7 => '7',
        8 => '8',
        9 => '9',
        10 => 'a',
        11 => 'b',
        12 => 'c',
        13 => 'd',
        14 => 'e',
        15 => 'f',
        _ => '0',
    }
}

/// The ASCII cell for one byte: printable-graphic bytes (0x21..=0x7e)
/// render as themselves, everything else as '.'.
pub open spec fn ascii_cell(b: u8) -> char {
    if 0x21 <= b && b <= 0x7e {
        b as char
    } else {
        '.'
    }
}

/// The hex column for one chunk: two lowercase digits per byte with a
/// single space between consecutive bytes; empty for an empty chunk.
pub open spec fn hex_column(c: Seq<u8>) -> Seq<char> {
    if c.len() == 0 {
        Seq::empty()
    } else {
        Seq::new(
            (3 * c.len() - 1) as nat,
            |k: int|
                if k % 3 == 0 {
                    hex_digit((c[k / 3] / 16) as u8)
                } else if k % 3 == 1 {
                    hex_digit((c[k / 3] % 16) as u8)
                } else {
                    ' '
                },
        )
    }
}

/// The ASCII column for one chunk.
pub open spec fn ascii_column(c: Seq<u8>) -> Seq<char> {
    Seq::new(c.len(), |j: int| ascii_cell(c[j]))
}

/// `n` spaces (none for a non-positive count).
pub open spec fn pad_spaces(n: int) -> Seq<char> {
    Seq::new(if n >= 0 { n as nat } else { 0 }, |i: int| ' ')
}

/// One rendered line: the hex column padded on the right with spaces to
/// width 47, then " | ", then the ASCII column.
pub open spec fn dump_line(c: Seq<u8>) -> Seq<char>
    recommends
        0 < c.len() <= 16,
{
    hex_column(c) + pad_spaces(47 - hex_column(c).len()) + seq![' ', '|', ' '] + ascii_column(c)
}

/// The bytes of chunk number `k`: 16 bytes, fewer for the last chunk.
pub open spec fn chunk(b: Seq<u8>, k: int) -> Seq<u8>
    recommends
        0 <= k < chunk_count(b),
{
    b.subrange(16 * k, if 16 * k + 16 <= b.len() { 16 * k + 16 } else { b.len() as int })
}

/// How many 16-byte chunks a payload starts.
pub open spec fn chunk_count(b: Seq<u8>) -> int {
    ((b.len() + 15) / 16) as int
}

/// The rendering of the first `k` chunks, joined with newlines.
pub open spec fn dump_prefix(b: Seq<u8>, k: int) -> Seq<char>
    decreases k,
{
    if k <= 0 {
        Seq::empty()
    } else if k == 1 {
        dump_line(chunk(b, 0))
    } else {
        dump_prefix(b, k - 1) + seq!['\n'] + dump_line(chunk(b, k - 1))
    }
}

/// The full hex+ASCII dump: one line per started 16-byte chunk, joined
/// with newlines; empty input renders as the empty string.
pub open spec fn dump_spec(b: Seq<u8>) -> Seq<char> {
    dump_prefix(b, chunk_count(b))
}

/// Relies on String::push: appends exactly the given character.
#[verifier::external_body]
fn push_char(s: &mut String, c: char)
    ensures
        final(s)@ == old(s)@ + seq![c],
{
    s.push(c)
}

/// The executable twin of `hex_digit`.
fn hex_char(n: u8) -> (r: char)
    requires
        n < 16,
    ensures
        r == hex_digit(n),
{
    match n {
        0 => '0',
        1 => '1',
        2 => '2',
        3 => '3',
        4 => '4',
        5 => '5',
        6 => '6',
        7 => '7',
        8 => '8',
        9 => '9',
        10 => 'a',
        11 => 'b',
        12 => 'c',
        13 => 'd',
        14 => 'e',
        _ => 'f',
    }
}

/// The executable twin of `ascii_cell`.
fn ascii_char(b: u8) -> (r: char)
    ensures
        r == ascii_cell(b),
{
    if 0x21 <= b && b <= 0x7e {
        b as char
    } else {
        '.'
    }
}

/// Renders a payload as its canonical hex+ASCII dump.
pub fn map_hex_dump(payload: &[u8]) -> (r: String)
    ensures
        r@ == dump_spec(payload@),
{
    let len = payload.len();
    let mut s = String::new();
    let mut i: usize = 0;
    let mut k: usize = 0;
    while i < len
        invariant
            len == payload@.len(),
            i <= len,
            i == 16 * k || (i == len && k == chunk_count(payload@)),
            k <= chunk_count(payload@),
            s@ == dump_prefix(payload@, k as int),
        decreases len - i,
    {
        assert(i == 16 * k);
        assert(k < chunk_count(payload@)) by {
            assert(16 * k < len);
            assert(chunk_count(payload@) == (len + 15) / 16);
        };
        if k > 0 {
            push_char(&mut s, '\n');
        }
        let end = if len - i < 16 {
            len
        } else {
            i + 16
        };
        let ghost c = chunk(payload@, k as int);
        proof {
            assert(c =~= payload@.subrange(i as int, end as int));
        }
        let ghost pre = s@;
        // hex column
        let mut j = i;
        while j < end
            invariant
                len == payload@.len(),
                i <= j <= end <= len,
                end - i <= 16,
                c == payload@.subrange(i as int, end as int),
                i < end,
                s@ == pre + if j == i {
                    Seq::<char>::empty()
                } else {
                    hex_column(c).take(3 * (j - i) - 1)
                },
            decreases end - j,
        {
            let ghost m = j - i;
            if j > i {
                push_char(&mut s, ' ');
            }
            let byte = payload[j];
            push_char(&mut s, hex_char(byte / 16));
            push_char(&mut s, hex_char(byte % 16));
            proof {
                assert(c[m as int] == byte);
                if m == 0 {
                    assert(pre + Seq::<char>::empty() =~= pre);
                    assert(s@ =~= pre + hex_column(c).take(2));
                } else {
                    assert(s@ =~= pre + hex_column(c).take(3 * (m + 1) - 1));
                }
            }
            j += 1;
        }
        proof {
            assert(hex_column(c).take(3 * c.len() - 1) =~= hex_column(c));
            assert(s@ == pre + hex_column(c));
        }
        // pad the hex column to width 47
        let clen = end - i;
        let pad = 47 - (3 * clen - 1);
        let mut p: usize = 0;
        while p < pad
            invariant
                s@ == pre + hex_column(c) + pad_spaces(p as int),
                p <= pad,
            decreases pad - p,
        {
            push_char(&mut s, ' ');
            proof {
                assert(s@ =~= pre + hex_column(c) + pad_spaces(p + 1));
            }
            p += 1;
        }
        proof {
            assert(hex_column(c).len() == 3 * c.len() - 1);
            assert(pad == 47 - hex_column(c).len());
        }
        // separator
        push_char(&mut s, ' ');
        push_char(&mut s, '|');
        push_char(&mut s, ' ');
        let ghost mid = pre + hex_column(c) + pad_spaces(47 - hex_column(c).len()) + seq![
            ' ',
            '|',
            ' ',
        ];
        proof {
            assert(s@ =~= mid);
        }
        // ASCII column
        let mut j2 = i;
        while j2 < end
            invariant
                len == payload@.len(),
                i <= j2 <= end <= len,
                c == payload@.subrange(i as int, end as int),
                s@ == mid + ascii_column(c).take(j2 - i),
            decreases end - j2,
        {
            push_char(&mut s, ascii_char(payload[j2]));
            proof {
                assert(s@ =~= mid + ascii_column(c).take(j2 - i + 1));
            }
            j2 += 1;
        }
        proof {
            assert(ascii_column(c).take(c.len() as int) =~= ascii_column(c));
            assert(s@ =~= pre + dump_line(c));
            if k == 0 {
                assert(pre =~= Seq::<char>::empty());
                assert(s@ =~= dump_prefix(payload@, 1));
            } else {
                assert(s@ =~= dump_prefix(payload@, k + 1));
            }
        }
        i = end;
        k += 1;
        proof {
            if i < len {
                assert(i == 16 * k);
            } else {
                assert(i == len);
                assert(k == chunk_count(payload@)) by {
                    assert(16 * (k - 1) < len <= 16 * k);
                };
            }
        }
    }
    proof {
        if len == 0 {
            assert(chunk_count(payload@) == 0);
        }
        assert(k == chunk_count(payload@));
    }
    s
}

/// How many newline characters a sequence holds.
pub open spec fn newline_count(s: Seq<char>) -> int
    decreases s.len(),
{
    if s.len() == 0 {
        0
    } else {
        newline_count(s.drop_last()) + if s.last() == '\n' {
            1int
        } else {
            0int
        }
    }
}

proof fn lemma_newline_count_add(a: Seq<char>, b: Seq<char>)
    ensures
        newline_count(a + b) == newline_count(a) + newline_count(b),
    decreases b.len(),
{
    if b.len() == 0 {
        assert(a + b =~= a);
    } else {
        lemma_newline_count_add(a, b.drop_last());
        assert((a + b).drop_last() =~= a + b.drop_last());
        assert((a + b).last() == b.last());
    }
}

proof fn lemma_newline_count_zero(s: Seq<char>)
    requires
        forall|i: int| 0 <= i < s.len() ==> s[i] != '\n',
    ensures
        newline_count(s) == 0,
    decreases s.len(),
{
    if s.len() > 0 {
        lemma_newline_count_zero(s.drop_last());
    }
}

/// The sixteen lowercase hexadecimal digit characters.
pub open spec fn is_lower_hex_digit(ch: char) -> bool {
    ('0' <= ch && ch <= '9') || ('a' <= ch && ch <= 'f')
}

proof fn lemma_line_char_ranges(c: Seq<u8>, t: int)
    requires
        0 < c.len() <= 16,
        0 <= t < dump_line(c).len(),
    ensures
        dump_line(c)[t] != '\n',
{
    let line = dump_line(c);
    let hex = hex_column(c);
    let pad = pad_spaces(47 - hex.len());
    let sep = seq![' ', '|', ' '];
    let ascii = ascii_column(c);
    if t < hex.len() {
        assert(line[t] == hex[t]);
        assert(hex[t] != '\n');
    } else if t < 47 {
        assert(line[t] == pad[t - hex.len()]);
    } else if t < 50 {
        assert(line[t] == sep[t - 47]);
    } else {
        assert(line[t] == ascii[t - 50]);
        assert(ascii[t - 50] == ascii_cell(c[t - 50]));
        let b = c[t - 50];
        if 0x21 <= b && b <= 0x7e {
            assert((b as char) != '\n');
        }
    }
}

proof fn lemma_chunk_len(b: Seq<u8>, k: int)
    requires
        0 <= k < chunk_count(b),
    ensures
        chunk(b, k).len() == if 16 * k + 16 <= b.len() {
            16int
        } else {
            b.len() - 16 * k
        },
        0 < chunk(b, k).len() <= 16,
        k < chunk_count(b) - 1 ==> chunk(b, k).len() == 16,
{
    let len = b.len() as int;
    assert(len + 15 == 16 * ((len + 15) / 16) + (len + 15) % 16);
}

proof fn lemma_dump_line_len(c: Seq<u8>)
    requires
        0 < c.len() <= 16,
    ensures
        dump_line(c).len() == 50 + c.len(),
{
}

/// One line per started 16-byte chunk: an empty payload renders as the
/// empty string, and a non-empty payload of n bytes renders with
/// exactly ceil(n/16) - 1 newline separators, that is, as ceil(n/16)
/// non-empty lines.
pub proof fn lemma_dump_line_count(b: Seq<u8>)
    ensures
        b.len() == 0 ==> dump_spec(b) == Seq::<char>::empty(),
        b.len() > 0 ==> newline_count(dump_spec(b)) == chunk_count(b) - 1,
        b.len() > 0 ==> dump_spec(b).len() > 0,
{
    if b.len() == 0 {
        assert(chunk_count(b) == 0);
    } else {
        assert(chunk_count(b) >= 1);
        lemma_dump_prefix_newlines(b, chunk_count(b));
        lemma_chunk_len(b, 0);
        lemma_dump_line_len(chunk(b, 0));
        if chunk_count(b) == 1 {
            assert(dump_spec(b).len() > 0);
        }
    }
}

proof fn lemma_dump_prefix_newlines(b: Seq<u8>, k: int)
    requires
        1 <= k <= chunk_count(b),
    ensures
        newline_count(dump_prefix(b, k)) == k - 1,
    decreases k,
{
    lemma_chunk_len(b, k - 1);
    let c = chunk(b, k - 1);
    lemma_dump_line_len(c);
    assert forall|t: int| 0 <= t < dump_line(c).len() implies dump_line(c)[t] != '\n' by {
        lemma_line_char_ranges(c, t);
    };
    lemma_newline_count_zero(dump_line(c));
    if k == 1 {
    } else {
        lemma_dump_prefix_newlines(b, k - 1);
        lemma_newline_count_add(dump_prefix(b, k - 1) + seq!['\n'], dump_line(c));
        lemma_newline_count_add(dump_prefix(b, k - 1), seq!['\n']);
        assert(newline_count(Seq::<char>::empty()) == 0);
        assert(seq!['\n'].drop_last() =~= Seq::<char>::empty());
        assert(seq!['\n'].last() == '\n');
        assert(newline_count(seq!['\n']) == 1);
    }
}

/// Where each byte stands in its rendered line: byte j's two hex digits
/// are the lowercase digit characters at columns 3j and 3j+1, and its
/// ASCII cell — itself when printable-graphic, '.' otherwise — is at
/// column 50 + j. Every line is 50 + chunk-length characters wide.
pub proof fn lemma_dump_line_cells(c: Seq<u8>, j: int)
    requires
        0 < c.len() <= 16,
        0 <= j < c.len(),
    ensures
        dump_line(c).len() == 50 + c.len(),
        dump_line(c)[3 * j] == hex_digit((c[j] / 16) as u8),
        dump_line(c)[3 * j + 1] == hex_digit((c[j] % 16) as u8),
        is_lower_hex_digit(dump_line(c)[3 * j]),
        is_lower_hex_digit(dump_line(c)[3 * j + 1]),
        dump_line(c)[50 + j] == ascii_cell(c[j]),
{
    lemma_dump_line_len(c);
    let line = dump_line(c);
    let hex = hex_column(c);
    assert(line[3 * j] == hex[3 * j]);
    assert(line[3 * j + 1] == hex[3 * j + 1]);
    assert(hex[3 * j] == hex_digit((c[j] / 16) as u8));
    assert(hex[3 * j + 1] == hex_digit((c[j] % 16) as u8));
    assert(line[50 + j] == ascii_column(c)[j]);
}

/// The numeric value of a lowercase hexadecimal digit character.
pub open spec fn hex_val(ch: char) -> u8 {
    match ch {
        '0' => 0,
        '1' => 1,
        '2' => 2,
        '3' => 3,
        '4' => 4,
        '5' => 5,
        '6' => 6,
        '7' => 7,
        '8' => 8,
        '9' => 9,
        'a' => 10,
        'b' => 11,
        'c' => 12,
        'd' => 13,
        'e' => 14,
        'f' => 15,
        _ => 0,
    }
}

/// Re-parsing the two hex digit characters of any byte's cell gives
/// back exactly that byte.
pub proof fn lemma_hex_cell_round_trip(b: u8)
    ensures
        16 * hex_val(hex_digit(b / 16)) + hex_val(hex_digit(b % 16)) == b,
{
    assert(b == 16 * (b / 16) + b % 16);
}

/// Re-parsing the hex column of a rendered line gives back the chunk's
/// bytes, one by one.
pub proof fn lemma_dump_line_round_trip(c: Seq<u8>, j: int)
    requires
        0 < c.len() <= 16,
        0 <= j < c.len(),
    ensures
        16 * hex_val(dump_line(c)[3 * j]) + hex_val(dump_line(c)[3 * j + 1]) == c[j],
{
    lemma_dump_line_cells(c, j);
    lemma_hex_cell_round_trip(c[j]);
}

proof fn lemma_dump_prefix_len(b: Seq<u8>, k: int)
    requires
        1 <= k <= chunk_count(b),
    ensures
        dump_prefix(b, k).len() == 67 * (k - 1) + 50 + chunk(b, k - 1).len(),
    decreases k,
{
    lemma_chunk_len(b, k - 1);
    lemma_dump_line_len(chunk(b, k - 1));
    if k > 1 {
        lemma_dump_prefix_len(b, k - 1);
        lemma_chunk_len(b, k - 2);
    }
}

proof fn lemma_dump_prefix_index(b: Seq<u8>, k: int, m: int, t: int)
    requires
        0 <= k < m <= chunk_count(b),
        0 <= t < 50 + chunk(b, k).len(),
    ensures
        dump_prefix(b, m)[67 * k + t] == dump_line(chunk(b, k))[t],
    decreases m,
{
    lemma_chunk_len(b, k);
    lemma_dump_line_len(chunk(b, k));
    if m == k + 1 {
        if k == 0 {
        } else {
            lemma_dump_prefix_len(b, k);
            lemma_chunk_len(b, k - 1);
        }
    } else {
        lemma_dump_prefix_index(b, k, m - 1, t);
        lemma_dump_prefix_len(b, m - 1);
        lemma_chunk_len(b, m - 2);
    }
}

/// Every payload byte is recoverable from the rendered dump: byte
/// number i of the payload re-parses from the two hex digit characters
/// at positions 67*(i/16) + 3*(i%16) and the one after it — 67 is the
/// stride of one full line plus its newline.
pub proof fn lemma_dump_round_trip(b: Seq<u8>, i: int)
    requires
        0 <= i < b.len(),
    ensures
        16 * hex_val(dump_spec(b)[67 * (i / 16) + 3 * (i % 16)]) + hex_val(
            dump_spec(b)[67 * (i / 16) + 3 * (i % 16) + 1],
        ) == b[i],
{
    let k = i / 16;
    let j = i % 16;
    assert(i == 16 * k + j);
    assert(0 <= j < 16);
    let len = b.len() as int;
    assert(len + 15 == 16 * ((len + 15) / 16) + (len + 15) % 16);
    assert(0 <= k < chunk_count(b));
    lemma_chunk_len(b, k);
    let c = chunk(b, k);
    assert(j < c.len());
    assert(c[j] == b[i]);
    lemma_dump_prefix_index(b, k, chunk_count(b), 3 * j);
    lemma_dump_prefix_index(b, k, chunk_count(b), 3 * j + 1);
    lemma_dump_line_round_trip(c, j);
}

} // verus!
