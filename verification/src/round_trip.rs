//! Reading a recording gives back what was written.
use vstd::prelude::*;
use vstd::utf8::*;
use crate::number::Real;
use crate::recording;
use crate::recording::{ReadError, COLUMN_COUNT};
use crate::telemetry::TelemetrySample;
use crate::text;

verus! {

/// A printable ASCII character that separates nothing.
pub open spec fn is_plain(c: char) -> bool {
    '!' <= c <= '~' && c != ','
}

/// At least one character, all of them plain.
pub open spec fn all_plain(s: Seq<char>) -> bool {
    s.len() > 0 && forall|i: int| 0 <= i < s.len() ==> is_plain(#[trigger] s[i])
}

/// A row as it is written: one text per column, each of them a number's.
pub open spec fn is_row(row: Seq<Seq<char>>) -> bool {
    &&& row.len() == COLUMN_COUNT
    &&& forall|i: int| 0 <= i < row.len() ==> text::is_number_text(#[trigger] row[i])
}

// ---- texts of numbers -------------------------------------------------------

proof fn leading_digits(s: Seq<char>)
    ensures
        text::digits_len(s) <= s.len(),
        forall|i: int| 0 <= i < text::digits_len(s) ==> text::is_digit(#[trigger] s[i]),
    decreases s.len(),
{
    if s.len() > 0 && text::is_digit(s[0]) {
        leading_digits(s.drop_first());
        assert forall|i: int| 0 <= i < text::digits_len(s) implies text::is_digit(
            #[trigger] s[i],
        ) by {
            if i > 0 {
                assert(s.drop_first()[i - 1] == s[i]);
            }
        }
    }
}

/// What is left without a sign decides whether all characters are plain.
proof fn sign_is_plain(s: Seq<char>)
    requires
        all_plain(text::unsigned_part(s)),
    ensures
        all_plain(s),
{
    assert forall|i: int| 0 <= i < s.len() implies is_plain(#[trigger] s[i]) by {
        if s[0] == '+' || s[0] == '-' {
            if i > 0 {
                assert(s.drop_first()[i - 1] == s[i]);
            }
        }
    }
}

proof fn exponent_is_plain(s: Seq<char>)
    requires
        text::is_exponent(s),
    ensures
        all_plain(s),
{
    let d = s.drop_first();
    leading_digits(text::unsigned_part(d));
    assert(all_plain(text::unsigned_part(d)));
    sign_is_plain(d);
    assert forall|i: int| 0 <= i < s.len() implies is_plain(#[trigger] s[i]) by {
        if i > 0 {
            assert(d[i - 1] == s[i]);
        }
    }
}

proof fn plain_number_is_plain(s: Seq<char>)
    requires
        text::is_plain_number(s),
    ensures
        all_plain(s),
{
    let whole = text::digits_len(s) as int;
    let m = text::mantissa_len(s) as int;
    leading_digits(s);
    leading_digits(s.skip(whole + 1));
    if m < s.len() {
        exponent_is_plain(s.skip(m));
    }
    assert forall|i: int| 0 <= i < s.len() implies is_plain(#[trigger] s[i]) by {
        if whole < i < m {
            assert(s.skip(whole + 1)[i - whole - 1] == s[i]);
        } else if m <= i {
            assert(s.skip(m)[i - m] == s[i]);
        }
    }
}

proof fn special_number_is_plain(s: Seq<char>)
    requires
        text::is_special_number(s),
    ensures
        all_plain(s),
{
    let inf = seq!['i', 'n', 'f'];
    let infinity = seq!['i', 'n', 'f', 'i', 'n', 'i', 't', 'y'];
    let nan = seq!['n', 'a', 'n'];
    assert forall|i: int| 0 <= i < s.len() implies is_plain(#[trigger] s[i]) by {
        let c = text::lower(s[i]);
        if text::same_letters(s, inf) {
            assert(c == inf[i]);
            assert('a' <= c <= 'z');
        } else if text::same_letters(s, infinity) {
            assert(c == infinity[i]);
            assert('a' <= c <= 'z');
        } else {
            assert(c == nan[i]);
            assert('a' <= c <= 'z');
        }
    }
}

/// The text of a number is not empty and holds neither white space nor a comma nor
/// a line feed.
pub proof fn number_text_is_plain(s: Seq<char>)
    requires
        text::is_number_text(s),
    ensures
        all_plain(s),
{
    let u = text::unsigned_part(s);
    if text::is_plain_number(u) {
        plain_number_is_plain(u);
    } else {
        special_number_is_plain(u);
    }
    sign_is_plain(s);
}

// ---- cells ------------------------------------------------------------------

/// Trimming leaves a text alone that has no white space at its ends.
pub proof fn trim_of_trimmed(s: Seq<char>)
    requires
        s.len() > 0,
        !text::is_space(s[0]),
        !text::is_space(s.last()),
    ensures
        text::trim(s) == s,
{
}

proof fn cell_len_before_comma(a: Seq<char>, rest: Seq<char>)
    requires
        forall|i: int| 0 <= i < a.len() ==> #[trigger] a[i] != ',',
        rest.len() == 0 || rest[0] == ',',
    ensures
        text::cell_len(a + rest) == a.len(),
    decreases a.len(),
{
    if a.len() == 0 {
        assert(a + rest =~= rest);
    } else {
        assert((a + rest).drop_first() =~= a.drop_first() + rest);
        assert forall|i: int| 0 <= i < a.drop_first().len() implies #[trigger] a.drop_first()[i]
            != ',' by {
            assert(a.drop_first()[i] == a[i + 1]);
        }
        cell_len_before_comma(a.drop_first(), rest);
        assert((a + rest)[0] == a[0]);
    }
}

proof fn cell_len_properties(s: Seq<char>)
    ensures
        text::cell_len(s) <= s.len(),
        forall|i: int| 0 <= i < text::cell_len(s) ==> #[trigger] s[i] != ',',
        text::cell_len(s) < s.len() ==> s[text::cell_len(s) as int] == ',',
    decreases s.len(),
{
    if s.len() > 0 && s[0] != ',' {
        let d = s.drop_first();
        cell_len_properties(d);
        assert forall|i: int| 0 <= i < text::cell_len(s) implies #[trigger] s[i] != ',' by {
            if i > 0 {
                assert(d[i - 1] == s[i]);
            }
        }
    }
}

/// A comma and a text without commas add one cell at the end.
proof fn cells_of_appended(s: Seq<char>, last: Seq<char>)
    requires
        forall|i: int| 0 <= i < last.len() ==> #[trigger] last[i] != ',',
    ensures
        text::cells(s + seq![','] + last) == text::cells(s).push(last),
    decreases s.len(),
{
    let all = s + seq![','] + last;
    let n = text::cell_len(s) as int;
    let a = s.take(n);
    cell_len_properties(s);
    assert forall|i: int| 0 <= i < a.len() implies #[trigger] a[i] != ',' by {
        assert(a[i] == s[i]);
    }
    if n >= s.len() {
        assert(all =~= a + (seq![','] + last));
        cell_len_before_comma(a, seq![','] + last);
        assert(all.take(n) =~= s);
        assert(all.skip(n + 1) =~= last);
        cell_len_before_comma(last, Seq::<char>::empty());
        assert(last + Seq::<char>::empty() =~= last);
        assert(text::cells(last) =~= seq![last]);
        assert(text::cells(all) =~= seq![s] + text::cells(last));
        assert(text::cells(s) =~= seq![s]);
        assert(text::cells(all) =~= text::cells(s).push(last));
    } else {
        assert(all =~= a + (s.skip(n) + seq![','] + last));
        assert((s.skip(n) + seq![','] + last)[0] == ',');
        cell_len_before_comma(a, s.skip(n) + seq![','] + last);
        assert(all.take(n) =~= a);
        assert(all.skip(n + 1) =~= s.skip(n + 1) + seq![','] + last);
        cells_of_appended(s.skip(n + 1), last);
        assert(text::cells(all) =~= seq![a] + text::cells(s.skip(n + 1)).push(last));
        assert(text::cells(all) =~= text::cells(s).push(last));
    }
}

/// Splitting at commas undoes putting pieces without commas together.
pub proof fn cells_of_joined(pieces: Seq<Seq<char>>)
    requires
        pieces.len() > 0,
        forall|i: int, j: int|
            0 <= i < pieces.len() && 0 <= j < pieces[i].len() ==> #[trigger] pieces[i][j] != ',',
    ensures
        text::cells(text::join(pieces)) == pieces,
    decreases pieces.len(),
{
    let last = pieces.last();
    assert forall|i: int| 0 <= i < last.len() implies #[trigger] last[i] != ',' by {
        assert(pieces[pieces.len() - 1][i] != ',');
    }
    if pieces.len() == 1 {
        cell_len_before_comma(last, Seq::<char>::empty());
        assert(last + Seq::<char>::empty() =~= last);
        assert(text::cells(text::join(pieces)) =~= pieces);
    } else {
        let init = pieces.drop_last();
        assert forall|i: int, j: int|
            0 <= i < init.len() && 0 <= j < init[i].len() implies #[trigger] init[i][j] != ',' by {
            assert(pieces[i][j] != ',');
        }
        cells_of_joined(init);
        cells_of_appended(text::join(init), last);
        assert(init.push(last) =~= pieces);
    }
}

/// The characters of a joined row are those of its cells, and commas.
proof fn joined_row_characters(row: Seq<Seq<char>>)
    requires
        row.len() > 0,
        forall|i: int| 0 <= i < row.len() ==> all_plain(#[trigger] row[i]),
    ensures
        text::join(row).len() > 0,
        is_plain(text::join(row)[0]),
        is_plain(text::join(row).last()),
        forall|i: int|
            0 <= i < text::join(row).len() ==> '!' <= #[trigger] text::join(row)[i] <= '~',
    decreases row.len(),
{
    assert(all_plain(row.last()));
    let last = row.last();
    assert(is_plain(last[0]) && is_plain(last[last.len() - 1]));
    if row.len() > 1 {
        let init = row.drop_last();
        assert forall|i: int| 0 <= i < init.len() implies all_plain(#[trigger] init[i]) by {
            assert(init[i] == row[i]);
        }
        joined_row_characters(init);
        let j = text::join(row);
        let k = text::join(init);
        assert(j =~= k + seq![','] + last);
        assert(j[0] == k[0]);
        assert(j.last() == last.last());
        assert forall|i: int| 0 <= i < j.len() implies '!' <= #[trigger] j[i] <= '~' by {
            if i < k.len() {
                assert(j[i] == k[i]);
            } else if i == k.len() {
                assert(j[i] == ',');
            } else {
                assert(j[i] == last[i - k.len() - 1]);
            }
        }
    }
}

/// The line of a row is read as that row.
proof fn row_line_is_read(row: Seq<Seq<char>>)
    requires
        is_row(row),
    ensures
        !recording::is_blank(text::join(row)),
        recording::row_fault(text::join(row)) is None,
        recording::row_cells(text::join(row)) == row,
        forall|i: int|
            0 <= i < text::join(row).len() ==> '!' <= #[trigger] text::join(row)[i] <= '~',
{
    assert forall|i: int| 0 <= i < row.len() implies all_plain(#[trigger] row[i]) && text::trim(
        row[i],
    ) == row[i] by {
        number_text_is_plain(row[i]);
        let c = row[i];
        assert(is_plain(c[0]) && is_plain(c[c.len() - 1]));
        trim_of_trimmed(c);
    }
    joined_row_characters(row);
    trim_of_trimmed(text::join(row));
    assert forall|i: int, j: int| 0 <= i < row.len() && 0 <= j < row[i].len() implies #[trigger] row[i][j]
        != ',' by {
        assert(all_plain(row[i]));
        assert(is_plain(row[i][j]));
    }
    cells_of_joined(row);
    assert(recording::row_cells(text::join(row)) =~= row);
}

// ---- lines ------------------------------------------------------------------

/// A line of printable ASCII characters and blanks.
pub open spec fn is_printable(line: Seq<char>) -> bool {
    forall|i: int| 0 <= i < line.len() ==> ' ' <= #[trigger] line[i] <= '~'
}

proof fn line_len_is_first_feed(b: Seq<u8>, n: int)
    requires
        0 <= n < b.len(),
        b[n] == 10,
        forall|i: int| 0 <= i < n ==> #[trigger] b[i] != 10,
    ensures
        recording::line_len(b) == n,
    decreases n,
{
    if n > 0 {
        let d = b.drop_first();
        assert forall|i: int| 0 <= i < n - 1 implies #[trigger] d[i] != 10 by {
            assert(d[i] == b[i + 1]);
        }
        line_len_is_first_feed(d, n - 1);
    }
}

proof fn lines_text_is_ascii(lines: Seq<Seq<char>>)
    requires
        forall|i: int| 0 <= i < lines.len() ==> is_printable(#[trigger] lines[i]),
    ensures
        is_ascii_chars(recording::lines_text(lines)),
    decreases lines.len(),
{
    if lines.len() > 0 {
        let d = lines.drop_first();
        assert forall|i: int| 0 <= i < d.len() implies is_printable(#[trigger] d[i]) by {
            assert(d[i] == lines[i + 1]);
        }
        lines_text_is_ascii(d);
        let x = lines[0];
        let rest = recording::lines_text(d);
        let t = recording::lines_text(lines);
        assert(is_printable(x));
        assert forall|i: int| 0 <= i < t.len() implies '\0' <= #[trigger] t[i] <= '\u{7f}' by {
            if i < x.len() {
                assert(t[i] == x[i]);
            } else if i > x.len() {
                assert(t[i] == rest[i - x.len() - 1]);
            }
        }
    }
}

/// The lines of a text that was put together from printable lines are those lines.
pub proof fn lines_are_read_back(lines: Seq<Seq<char>>)
    requires
        forall|i: int| 0 <= i < lines.len() ==> is_printable(#[trigger] lines[i]),
    ensures
        recording::raw_lines(encode_utf8(recording::lines_text(lines))) == lines.map_values(
            |l: Seq<char>| encode_utf8(l),
        ),
    decreases lines.len(),
{
    let encoded = lines.map_values(|l: Seq<char>| encode_utf8(l));
    let t = recording::lines_text(lines);
    if lines.len() == 0 {
        assert(encode_utf8(t) =~= Seq::<u8>::empty());
        assert(recording::raw_lines(encode_utf8(t)) =~= encoded);
    } else {
        let d = lines.drop_first();
        assert forall|i: int| 0 <= i < d.len() implies is_printable(#[trigger] d[i]) by {
            assert(d[i] == lines[i + 1]);
        }
        lines_are_read_back(d);
        let x = lines[0];
        let n = x.len() as int;
        let rest = recording::lines_text(d);
        assert(is_printable(x));
        lines_text_is_ascii(lines);
        lines_text_is_ascii(d);
        assert(is_ascii_chars(x)) by {
            assert forall|i: int| 0 <= i < x.len() implies '\0' <= #[trigger] x[i] <= '\u{7f}' by {}
        }
        is_ascii_chars_encode_utf8(t);
        is_ascii_chars_encode_utf8(rest);
        is_ascii_chars_encode_utf8(x);
        let b = encode_utf8(t);
        assert(t[n] == '\n');
        assert(b[n] == 10);
        assert forall|i: int| 0 <= i < n implies #[trigger] b[i] == encode_utf8(x)[i] && b[i]
            >= 32 by {
            assert(t[i] == x[i]);
            assert(b[i] == t[i] as u8);
            assert(encode_utf8(x)[i] == x[i] as u8);
        }
        line_len_is_first_feed(b, n);
        assert(b.take(n) =~= encode_utf8(x));
        assert(recording::without_return(encode_utf8(x)) == encode_utf8(x)) by {
            if n > 0 {
                assert(b[n - 1] >= 32);
            }
        }
        assert(b.skip(n + 1) =~= encode_utf8(rest)) by {
            assert forall|i: int| 0 <= i < rest.len() implies #[trigger] b.skip(n + 1)[i]
                == encode_utf8(rest)[i] by {
                assert(t[n + 1 + i] == rest[i]);
                assert(b[n + 1 + i] == t[n + 1 + i] as u8);
                assert(encode_utf8(rest)[i] == rest[i] as u8);
            }
        }
        assert(recording::raw_lines(b) =~= seq![encode_utf8(x)] + recording::raw_lines(
            encode_utf8(rest),
        ));
        assert(encoded =~= seq![encode_utf8(x)] + d.map_values(|l: Seq<char>| encode_utf8(l)));
    }
}

// ---- the header -------------------------------------------------------------

proof fn word_len_before_space(a: Seq<char>, rest: Seq<char>)
    requires
        forall|i: int| 0 <= i < a.len() ==> !text::is_space(#[trigger] a[i]),
        rest.len() == 0 || text::is_space(rest[0]),
    ensures
        text::word_len(a + rest) == a.len(),
    decreases a.len(),
{
    if a.len() == 0 {
        assert(a + rest =~= rest);
    } else {
        let d = a.drop_first();
        assert((a + rest).drop_first() =~= d + rest);
        assert forall|i: int| 0 <= i < d.len() implies !text::is_space(#[trigger] d[i]) by {
            assert(d[i] == a[i + 1]);
        }
        word_len_before_space(d, rest);
        assert((a + rest)[0] == a[0]);
    }
}

proof fn magic_line_is_accepted()
    ensures
        text::first_word(recording::magic_line()) == recording::magic(),
        recording::names_version(recording::magic_line()),
        is_printable(recording::magic_line()),
{
    reveal_strlit("#pilotrs-recording");
    reveal_strlit(" v");
    let a = recording::magic();
    let one = text::decimal(1);
    assert(one =~= seq!['1']);
    let rest = " v"@ + one;
    let line = recording::magic_line();
    assert(line =~= a + rest);
    assert(text::is_space(rest[0]));
    word_len_before_space(a, rest);
    assert(line[0] == '#');
    assert(text::trim_start(line) == line);
    assert(line.take(a.len() as int) =~= a);
    assert(line.skip(a.len() as int) =~= rest);
    let v = seq!['v', '1'];
    assert(rest.drop_first() =~= v);
    assert(text::trim_start(v) == v);
    assert(text::trim_start(rest) == v);
    word_len_before_space(v, Seq::<char>::empty());
    assert(v + Seq::<char>::empty() =~= v);
    assert(v.take(2) =~= v);
    assert(v.drop_first() =~= one);
    reveal_with_fuel(text::digits_len, 2);
    reveal_with_fuel(text::digits_value, 2);
    assert(text::all_digits(one));
    assert(one.drop_last() =~= Seq::<char>::empty());
    assert(text::digits_value(one) == 1);
    assert(text::unsigned_value(one) == Some(1u32));
}

proof fn metadata_line_is_accepted()
    ensures
        recording::metadata_line().len() > 0,
        recording::metadata_line()[0] == '#',
        is_printable(recording::metadata_line()),
{
    reveal_strlit("#format=csv kind=telemetry columns=");
    reveal_with_fuel(text::decimal, 2);
    assert(text::decimal(42) =~= seq!['4', '2']);
}

proof fn column_names_are_accepted()
    ensures
        text::trim(recording::column_names()) == recording::column_names(),
        is_printable(recording::column_names()),
{
    reveal_strlit(
        "t,tru_px,tru_py,tru_pz,tru_vx,tru_vy,tru_vz,tru_qw,tru_qx,tru_qy,tru_qz,tru_wx,tru_wy,tru_wz,est_px,est_py,est_pz,est_vx,est_vy,est_vz,est_qw,est_qx,est_qy,est_qz,est_wx,est_wy,est_wz,sp_qw,sp_qx,sp_qy,sp_qz,sp_thrust,m0,m1,m2,m3,tgb_x,tgb_y,tgb_z,egb_x,egb_y,egb_z",
    );
    let c = recording::column_names();
    assert(c[0] == 't');
    assert(c.last() == 'z');
    trim_of_trimmed(c);
}

// ---- the laws ---------------------------------------------------------------

/// The first `k` lines behind a faultless header are read as the first `k` rows.
proof fn rows_are_read_back(lines: Seq<Seq<u8>>, rows: Seq<Seq<Seq<char>>>, k: int)
    requires
        0 <= k <= rows.len(),
        lines.len() == 3 + rows.len(),
        forall|i: int| 0 <= i < rows.len() ==> is_row(#[trigger] rows[i]),
        forall|i: int|
            0 <= i < rows.len() ==> lines[3 + i] == encode_utf8(text::join(#[trigger] rows[i])),
    ensures
        recording::rows_before(lines, 3 + k) == rows.take(k),
        recording::first_fault(lines, 3) == recording::first_fault(lines, 3 + k),
    decreases k,
{
    if k == 0 {
        assert(rows.take(0) =~= Seq::<Seq<Seq<char>>>::empty());
    } else {
        rows_are_read_back(lines, rows, k - 1);
        let row = rows[k - 1];
        assert(is_row(row));
        row_line_is_read(row);
        encode_utf8_decode_utf8(text::join(row));
        encode_utf8_valid_utf8(text::join(row));
        assert(lines[3 + (k - 1)] == encode_utf8(text::join(row)));
        assert(rows.take(k) =~= rows.take(k - 1).push(row));
    }
}

/// Writing rows and reading the file gives the same rows back, cell for cell.
pub proof fn reading_undoes_writing(rows: Seq<Seq<Seq<char>>>)
    requires
        forall|i: int| 0 <= i < rows.len() ==> is_row(#[trigger] rows[i]),
    ensures
        recording::parsed(encode_utf8(recording::file_text(rows))) == Ok::<
            Seq<Seq<Seq<char>>>,
            ReadError,
        >(rows),
{
    let head = seq![
        recording::magic_line(),
        recording::metadata_line(),
        recording::column_names(),
    ];
    let texts = head + recording::row_lines(rows);
    magic_line_is_accepted();
    metadata_line_is_accepted();
    column_names_are_accepted();
    assert forall|i: int| 0 <= i < texts.len() implies is_printable(#[trigger] texts[i]) by {
        if i >= 3 {
            let row = rows[i - 3];
            assert(is_row(row));
            row_line_is_read(row);
            assert(texts[i] == text::join(row));
            assert forall|j: int| 0 <= j < texts[i].len() implies ' ' <= #[trigger] texts[i][j]
                <= '~' by {
                assert('!' <= text::join(row)[j]);
            }
        }
    }
    lines_are_read_back(texts);
    let lines = texts.map_values(|l: Seq<char>| encode_utf8(l));
    assert(recording::raw_lines(encode_utf8(recording::file_text(rows))) == lines);
    assert(lines[0] == encode_utf8(texts[0]));
    assert(lines[1] == encode_utf8(texts[1]));
    assert(lines[2] == encode_utf8(texts[2]));
    encode_utf8_decode_utf8(texts[0]);
    encode_utf8_valid_utf8(texts[0]);
    encode_utf8_decode_utf8(texts[1]);
    encode_utf8_valid_utf8(texts[1]);
    encode_utf8_decode_utf8(texts[2]);
    encode_utf8_valid_utf8(texts[2]);
    assert(recording::header_fault(lines) is None);
    assert forall|i: int| 0 <= i < rows.len() implies lines[3 + i] == encode_utf8(
        text::join(#[trigger] rows[i]),
    ) by {
        assert(lines[3 + i] == encode_utf8(texts[3 + i]));
        assert(texts[3 + i] == recording::row_lines(rows)[i]);
    }
    rows_are_read_back(lines, rows, rows.len() as int);
    assert(rows.take(rows.len() as int) =~= rows);
}

/// The row of a sample, each number written by `print`.
pub open spec fn printed_row(e: TelemetrySample, print: spec_fn(Real) -> Seq<char>) -> Seq<
    Seq<char>,
> {
    recording::values(e).map_values(print)
}

/// The file of a recording whose numbers are written by `print`.
pub open spec fn printed_file(
    samples: Seq<TelemetrySample>,
    print: spec_fn(Real) -> Seq<char>,
) -> Seq<u8> {
    encode_utf8(
        recording::file_text(samples.map_values(|e: TelemetrySample| printed_row(e, print))),
    )
}

/// Whether `print` writes every number of a sample as the text of a number.
pub open spec fn prints_numbers(e: TelemetrySample, print: spec_fn(Real) -> Seq<char>) -> bool {
    forall|i: int|
        0 <= i < COLUMN_COUNT ==> text::is_number_text(print(#[trigger] recording::values(e)[i]))
}

/// Whether `parse` reads every number of a sample back from what `print` wrote.
pub open spec fn reads_back(
    e: TelemetrySample,
    print: spec_fn(Real) -> Seq<char>,
    parse: spec_fn(Seq<char>) -> Real,
) -> bool {
    forall|i: int|
        0 <= i < COLUMN_COUNT ==> parse(print(#[trigger] recording::values(e)[i]))
            == recording::values(e)[i]
}

/// Whether the samples `back` are made of the numbers that `parse` reads in the rows of a file,
/// where the file is one that can be read.
pub open spec fn made_of(
    back: Seq<TelemetrySample>,
    file: Seq<u8>,
    parse: spec_fn(Seq<char>) -> Real,
) -> bool {
    recording::parsed(file) matches Ok(rows) ==> back.len() == rows.len() && forall|k: int|
        0 <= k < back.len() ==> recording::values(#[trigger] back[k]) == rows[k].map_values(parse)
}

/// Writing a recording and reading the file gives as many samples back, in the same order, and
/// each of their numbers is what its text reads as: no number is lost, moved or changed on the
/// way. A number that has no text of its own, such as one of the many that are not a number,
/// comes back as the number that its text stands for.
pub proof fn recording_reads_back_number_by_number(
    samples: Seq<TelemetrySample>,
    back: Seq<TelemetrySample>,
    print: spec_fn(Real) -> Seq<char>,
    parse: spec_fn(Seq<char>) -> Real,
)
    requires
        forall|k: int| 0 <= k < samples.len() ==> prints_numbers(#[trigger] samples[k], print),
        made_of(back, printed_file(samples, print), parse),
    ensures
        recording::parsed(printed_file(samples, print)) is Ok,
        back.len() == samples.len(),
        forall|k: int, i: int|
            0 <= k < samples.len() && 0 <= i < COLUMN_COUNT ==> (
            #[trigger] recording::values(back[k])[i]) == parse(
                print(recording::values(samples[k])[i]),
            ),
{
    let rows = samples.map_values(|e: TelemetrySample| printed_row(e, print));
    assert forall|k: int| 0 <= k < rows.len() implies is_row(#[trigger] rows[k]) by {
        assert(prints_numbers(samples[k], print));
        assert(recording::values(samples[k]).len() == COLUMN_COUNT);
        assert forall|i: int| 0 <= i < rows[k].len() implies text::is_number_text(
            #[trigger] rows[k][i],
        ) by {
            assert(rows[k][i] == print(recording::values(samples[k])[i]));
        }
    }
    reading_undoes_writing(rows);
    assert forall|k: int, i: int| 0 <= k < samples.len() && 0 <= i < COLUMN_COUNT implies (
    #[trigger] recording::values(back[k])[i]) == parse(
        print(recording::values(samples[k])[i]),
    ) by {
        assert(recording::values(back[k]) == rows[k].map_values(parse));
        assert(rows[k][i] == print(recording::values(samples[k])[i]));
    }
}

/// Writing a recording and reading the file gives the same samples back, in the same order
/// and bit for bit, however numbers are written: as long as each number of the recording is
/// written as the text of a number that reads back as that number.
pub proof fn recording_reads_back_bit_for_bit(
    samples: Seq<TelemetrySample>,
    back: Seq<TelemetrySample>,
    print: spec_fn(Real) -> Seq<char>,
    parse: spec_fn(Seq<char>) -> Real,
)
    requires
        forall|k: int| 0 <= k < samples.len() ==> prints_numbers(#[trigger] samples[k], print),
        forall|k: int| 0 <= k < samples.len() ==> reads_back(#[trigger] samples[k], print, parse),
        made_of(back, printed_file(samples, print), parse),
    ensures
        recording::parsed(printed_file(samples, print)) is Ok,
        back == samples,
{
    recording_reads_back_number_by_number(samples, back, print, parse);
    assert forall|k: int| 0 <= k < samples.len() implies back[k] == samples[k] by {
        assert(reads_back(samples[k], print, parse));
        let (want, got) = (recording::values(samples[k]), recording::values(back[k]));
        assert forall|i: int| 0 <= i < COLUMN_COUNT implies got[i] == want[i] by {
            assert(got[i] == parse(print(want[i])));
        }
        assert(got =~= want);
        recording::values_determine_sample(back[k], samples[k]);
    }
    assert(back =~= samples);
}

/// Two recordings have the same file only if they have the same rows.
pub proof fn files_differ_where_rows_differ(a: Seq<Seq<Seq<char>>>, b: Seq<Seq<Seq<char>>>)
    requires
        forall|i: int| 0 <= i < a.len() ==> is_row(#[trigger] a[i]),
        forall|i: int| 0 <= i < b.len() ==> is_row(#[trigger] b[i]),
    ensures
        recording::file_text(a) == recording::file_text(b) <==> a == b,
{
    reading_undoes_writing(a);
    reading_undoes_writing(b);
}

proof fn fault_is_at_a_line(lines: Seq<Seq<u8>>, at: int)
    requires
        0 <= at,
        lines.len() <= usize::MAX,
    ensures
        recording::first_fault(lines, at) matches Some(e) ==> at + 1 <= e.line <= lines.len(),
    decreases lines.len() - at,
{
    if at < lines.len() && recording::line_fault(lines[at]) is None {
        fault_is_at_a_line(lines, at + 1);
    }
}

/// A fault names a line of the file, or the one missing behind its last.
pub proof fn fault_names_its_line(input: Seq<u8>)
    requires
        input.len() <= usize::MAX,
    ensures
        recording::parsed(input) matches Err(e) ==> 1 <= e.line <= recording::raw_lines(input).len()
            + 1,
{
    recording::lines_within_bytes(input);
    fault_is_at_a_line(recording::raw_lines(input), 3);
}

/// Every row that is read has one text per column, and each is a number's.
pub proof fn rows_read_are_complete(input: Seq<u8>)
    ensures
        recording::parsed(input) matches Ok(rows) ==> forall|i: int|
            0 <= i < rows.len() ==> is_row(#[trigger] rows[i]),
{
    if recording::parsed(input) is Ok {
        let lines = recording::raw_lines(input);
        complete_up_to(lines, lines.len() as int);
    }
}

proof fn no_fault_further_on(lines: Seq<Seq<u8>>, at: int, i: int)
    requires
        0 <= at <= i < lines.len(),
        recording::first_fault(lines, at) is None,
    ensures
        recording::line_fault(lines[i]) is None,
    decreases i - at,
{
    if at < i {
        no_fault_further_on(lines, at + 1, i);
    }
}

proof fn complete_up_to(lines: Seq<Seq<u8>>, end: int)
    requires
        end <= lines.len(),
        recording::first_fault(lines, 3) is None,
    ensures
        forall|i: int|
            0 <= i < recording::rows_before(lines, end).len() ==> is_row(
                #[trigger] recording::rows_before(lines, end)[i],
            ),
    decreases end,
{
    if end > 3 {
        complete_up_to(lines, end - 1);
        no_fault_further_on(lines, 3, end - 1);
        let line = decode_utf8(lines[end - 1]);
        if recording::is_blank(line) {
            assert(recording::rows_before(lines, end) == recording::rows_before(lines, end - 1));
        } else {
            let row = recording::row_cells(line);
            assert forall|i: int| 0 <= i < row.len() implies text::is_number_text(
                #[trigger] row[i],
            ) by {
                assert(row[i] == text::trim(text::cells(line)[i]));
            }
            assert(is_row(row));
            let before = recording::rows_before(lines, end - 1);
            let all = recording::rows_before(lines, end);
            assert(all == before.push(row));
            assert forall|i: int| 0 <= i < all.len() implies is_row(#[trigger] all[i]) by {
                if i < before.len() {
                    assert(all[i] == before[i]);
                } else {
                    assert(all[i] == row);
                }
            }
        }
    }
}

} // verus!
