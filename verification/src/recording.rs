//! Recordings of a run: the file format and playing back.
//!
//! A file is text. Its first line names the format and its version, the second
//! starts with `#`, the third lists the columns; each further line that is not
//! blank holds one sample, its numbers between commas. Turning numbers into texts
//! and back is left to the caller: the library sees that every text in a row is one
//! that a number can be read from.
use vstd::prelude::*;
use vstd::utf8::*;
use crate::messages::{EstState, Quat, Setpoint, State13, Vec3};
use crate::number::Real;
use crate::telemetry::TelemetrySample;
use crate::text;

verus! {

/// The version that is written, and the only one that is read.
pub const RECORDING_VERSION: u32 = 1;

/// How many numbers a row holds.
pub const COLUMN_COUNT: usize = 42;

/// A recorded run.
#[derive(Clone, Debug)]
pub struct Recording {
    pub samples: Vec<TelemetrySample>,
}

impl View for Recording {
    type V = Seq<TelemetrySample>;

    open spec fn view(&self) -> Seq<TelemetrySample> {
        self.samples@
    }
}

// ---- a sample and its numbers -----------------------------------------------

pub open spec fn vec3_values(v: Vec3) -> Seq<Real> {
    seq![v.x, v.y, v.z]
}

pub open spec fn quat_values(q: Quat) -> Seq<Real> {
    seq![q.w, q.i, q.j, q.k]
}

/// The numbers of a sample in the order of the columns.
pub open spec fn values(s: TelemetrySample) -> Seq<Real> {
    seq![s.t] + vec3_values(s.truth.position) + vec3_values(s.truth.velocity) + quat_values(
        s.truth.attitude,
    ) + vec3_values(s.truth.angular_rate) + vec3_values(s.estimate.position) + vec3_values(
        s.estimate.velocity,
    ) + quat_values(s.estimate.attitude) + vec3_values(s.estimate.angular_rate) + quat_values(
        s.setpoint.attitude,
    ) + seq![s.setpoint.thrust] + s.motors@ + vec3_values(s.true_gyro_bias) + vec3_values(
        s.est_gyro_bias,
    )
}

/// The numbers of a sample in the order of the columns.
pub fn sample_values(s: &TelemetrySample) -> (r: [Real; 42])
    ensures
        r@ == values(*s),
{
    let t = &s.truth;
    let e = &s.estimate;
    let sp = &s.setpoint;
    let r = [
        s.t,
        t.position.x,
        t.position.y,
        t.position.z,
        t.velocity.x,
        t.velocity.y,
        t.velocity.z,
        t.attitude.w,
        t.attitude.i,
        t.attitude.j,
        t.attitude.k,
        t.angular_rate.x,
        t.angular_rate.y,
        t.angular_rate.z,
        e.position.x,
        e.position.y,
        e.position.z,
        e.velocity.x,
        e.velocity.y,
        e.velocity.z,
        e.attitude.w,
        e.attitude.i,
        e.attitude.j,
        e.attitude.k,
        e.angular_rate.x,
        e.angular_rate.y,
        e.angular_rate.z,
        sp.attitude.w,
        sp.attitude.i,
        sp.attitude.j,
        sp.attitude.k,
        sp.thrust,
        s.motors[0],
        s.motors[1],
        s.motors[2],
        s.motors[3],
        s.true_gyro_bias.x,
        s.true_gyro_bias.y,
        s.true_gyro_bias.z,
        s.est_gyro_bias.x,
        s.est_gyro_bias.y,
        s.est_gyro_bias.z,
    ];
    assert(r@ =~= values(*s));
    r
}

fn vec3_at(v: &[Real; 42], a: usize) -> (r: Vec3)
    requires
        a + 3 <= 42,
    ensures
        r == (Vec3 { x: v@[a as int], y: v@[a + 1], z: v@[a + 2] }),
{
    Vec3 { x: v[a], y: v[a + 1], z: v[a + 2] }
}

fn quat_at(v: &[Real; 42], a: usize) -> (r: Quat)
    requires
        a + 4 <= 42,
    ensures
        r == (Quat { w: v@[a as int], i: v@[a + 1], j: v@[a + 2], k: v@[a + 3] }),
{
    Quat { w: v[a], i: v[a + 1], j: v[a + 2], k: v[a + 3] }
}

/// The sample with the given numbers.
pub fn sample_from_values(v: &[Real; 42]) -> (r: TelemetrySample)
    ensures
        values(r) == v@,
{
    let r = TelemetrySample {
        t: v[0],
        truth: State13 {
            position: vec3_at(v, 1),
            velocity: vec3_at(v, 4),
            attitude: quat_at(v, 7),
            angular_rate: vec3_at(v, 11),
        },
        estimate: EstState {
            position: vec3_at(v, 14),
            velocity: vec3_at(v, 17),
            attitude: quat_at(v, 20),
            angular_rate: vec3_at(v, 24),
        },
        setpoint: Setpoint { attitude: quat_at(v, 27), thrust: v[31] },
        motors: [v[32], v[33], v[34], v[35]],
        true_gyro_bias: vec3_at(v, 36),
        est_gyro_bias: vec3_at(v, 39),
    };
    assert(values(r) =~= v@);
    r
}

/// A sample is known by its numbers: reading back the numbers that were written
/// gives the same sample, bit for bit.
pub proof fn values_determine_sample(a: TelemetrySample, b: TelemetrySample)
    requires
        values(a) == values(b),
    ensures
        a == b,
{
    let x = values(a);
    let y = values(b);
    assert(x.len() == 42);
    assert(forall|i: int| 0 <= i < 42 ==> x[i] == y[i]);
    assert(x[0] == a.t && y[0] == b.t);
    assert(x[1] == a.truth.position.x && x[2] == a.truth.position.y && x[3] == a.truth.position.z);
    assert(y[1] == b.truth.position.x && y[2] == b.truth.position.y && y[3] == b.truth.position.z);
    assert(a.truth.position == b.truth.position);
    assert(x[4] == a.truth.velocity.x && x[5] == a.truth.velocity.y && x[6] == a.truth.velocity.z);
    assert(y[4] == b.truth.velocity.x && y[5] == b.truth.velocity.y && y[6] == b.truth.velocity.z);
    assert(a.truth.velocity == b.truth.velocity);
    assert(x[7] == a.truth.attitude.w && x[8] == a.truth.attitude.i && x[9] == a.truth.attitude.j
        && x[10] == a.truth.attitude.k);
    assert(y[7] == b.truth.attitude.w && y[8] == b.truth.attitude.i && y[9] == b.truth.attitude.j
        && y[10] == b.truth.attitude.k);
    assert(a.truth.attitude == b.truth.attitude);
    assert(x[11] == a.truth.angular_rate.x && x[12] == a.truth.angular_rate.y && x[13]
        == a.truth.angular_rate.z);
    assert(y[11] == b.truth.angular_rate.x && y[12] == b.truth.angular_rate.y && y[13]
        == b.truth.angular_rate.z);
    assert(a.truth.angular_rate == b.truth.angular_rate);
    assert(x[14] == a.estimate.position.x && x[15] == a.estimate.position.y && x[16]
        == a.estimate.position.z);
    assert(y[14] == b.estimate.position.x && y[15] == b.estimate.position.y && y[16]
        == b.estimate.position.z);
    assert(a.estimate.position == b.estimate.position);
    assert(x[17] == a.estimate.velocity.x && x[18] == a.estimate.velocity.y && x[19]
        == a.estimate.velocity.z);
    assert(y[17] == b.estimate.velocity.x && y[18] == b.estimate.velocity.y && y[19]
        == b.estimate.velocity.z);
    assert(a.estimate.velocity == b.estimate.velocity);
    assert(x[20] == a.estimate.attitude.w && x[21] == a.estimate.attitude.i && x[22]
        == a.estimate.attitude.j && x[23] == a.estimate.attitude.k);
    assert(y[20] == b.estimate.attitude.w && y[21] == b.estimate.attitude.i && y[22]
        == b.estimate.attitude.j && y[23] == b.estimate.attitude.k);
    assert(a.estimate.attitude == b.estimate.attitude);
    assert(x[24] == a.estimate.angular_rate.x && x[25] == a.estimate.angular_rate.y && x[26]
        == a.estimate.angular_rate.z);
    assert(y[24] == b.estimate.angular_rate.x && y[25] == b.estimate.angular_rate.y && y[26]
        == b.estimate.angular_rate.z);
    assert(a.estimate.angular_rate == b.estimate.angular_rate);
    assert(x[27] == a.setpoint.attitude.w && x[28] == a.setpoint.attitude.i && x[29]
        == a.setpoint.attitude.j && x[30] == a.setpoint.attitude.k && x[31] == a.setpoint.thrust);
    assert(y[27] == b.setpoint.attitude.w && y[28] == b.setpoint.attitude.i && y[29]
        == b.setpoint.attitude.j && y[30] == b.setpoint.attitude.k && y[31] == b.setpoint.thrust);
    assert(a.setpoint == b.setpoint);
    assert forall|i: int| 0 <= i < 4 implies a.motors@[i] == b.motors@[i] by {
        assert(x[32 + i] == a.motors@[i]);
        assert(y[32 + i] == b.motors@[i]);
    }
    assert(a.motors@ =~= b.motors@);
    assert(a.motors =~= b.motors);
    assert(x[36] == a.true_gyro_bias.x && x[37] == a.true_gyro_bias.y && x[38]
        == a.true_gyro_bias.z);
    assert(y[36] == b.true_gyro_bias.x && y[37] == b.true_gyro_bias.y && y[38]
        == b.true_gyro_bias.z);
    assert(a.true_gyro_bias == b.true_gyro_bias);
    assert(x[39] == a.est_gyro_bias.x && x[40] == a.est_gyro_bias.y && x[41] == a.est_gyro_bias.z);
    assert(y[39] == b.est_gyro_bias.x && y[40] == b.est_gyro_bias.y && y[41] == b.est_gyro_bias.z);
    assert(a.est_gyro_bias == b.est_gyro_bias);
}

// ---- the file format: lines and rows ----------------------------------------

/// Why a file cannot be read.
#[derive(Clone, Copy, Debug, PartialEq, Eq, Structural)]
pub enum ReadErrorKind {
    /// There is no first line.
    EmptyFile,
    /// The first word of the first line is another.
    BadMagic,
    /// The second word of the first line does not name the supported version.
    UnsupportedVersion,
    /// There is no second line.
    NoMetadata,
    /// The second line does not start with `#`.
    BadMetadata,
    /// There is no third line.
    NoColumns,
    /// The third line lists other columns.
    BadColumns,
    /// A row ends before its last column.
    TooFewColumns,
    /// No number can be read from a cell.
    NonNumericField,
    /// A row goes on behind its last column.
    TooManyColumns,
    /// A line is not UTF-8.
    NotText,
}

/// Why a file cannot be read, and at which line, counted from 1.
#[derive(Clone, Copy, Debug, PartialEq, Eq, Structural)]
pub struct ReadError {
    pub line: usize,
    pub kind: ReadErrorKind,
}

/// The word that every file starts with.
pub open spec fn magic() -> Seq<char> {
    "#pilotrs-recording"@
}

/// The names of the columns, with commas between them.
pub open spec fn column_names() -> Seq<char> {
    "t,tru_px,tru_py,tru_pz,tru_vx,tru_vy,tru_vz,tru_qw,tru_qx,tru_qy,tru_qz,tru_wx,tru_wy,tru_wz,est_px,est_py,est_pz,est_vx,est_vy,est_vz,est_qw,est_qx,est_qy,est_qz,est_wx,est_wy,est_wz,sp_qw,sp_qx,sp_qy,sp_qz,sp_thrust,m0,m1,m2,m3,tgb_x,tgb_y,tgb_z,egb_x,egb_y,egb_z"@
}

/// The first line of a file.
pub open spec fn magic_line() -> Seq<char> {
    magic() + " v"@ + text::decimal(RECORDING_VERSION as nat)
}

/// The second line of a file.
pub open spec fn metadata_line() -> Seq<char> {
    "#format=csv kind=telemetry columns="@ + text::decimal(COLUMN_COUNT as nat)
}

/// The given lines, each with a line feed behind it.
pub open spec fn lines_text(lines: Seq<Seq<char>>) -> Seq<char>
    decreases lines.len(),
{
    if lines.len() == 0 {
        seq![]
    } else {
        lines[0] + seq!['\n'] + lines_text(lines.drop_first())
    }
}

/// The line of a row.
pub open spec fn row_lines(rows: Seq<Seq<Seq<char>>>) -> Seq<Seq<char>> {
    rows.map_values(|r: Seq<Seq<char>>| text::join(r))
}

/// The whole file that holds the given rows.
pub open spec fn file_text(rows: Seq<Seq<Seq<char>>>) -> Seq<char> {
    lines_text(seq![magic_line(), metadata_line(), column_names()] + row_lines(rows))
}

/// How many bytes of `b` come before its first line feed.
pub open spec fn line_len(b: Seq<u8>) -> nat
    decreases b.len(),
{
    if b.len() > 0 && b[0] != 10 {
        1 + line_len(b.drop_first())
    } else {
        0
    }
}

/// A line without the carriage return at its end, if it has one.
pub open spec fn without_return(b: Seq<u8>) -> Seq<u8> {
    if b.len() > 0 && b.last() == 13 {
        b.drop_last()
    } else {
        b
    }
}

/// The lines of a file. A line feed ends a line, together with a carriage return
/// before it; the last line needs none.
pub open spec fn raw_lines(b: Seq<u8>) -> Seq<Seq<u8>>
    decreases b.len(),
{
    let n = line_len(b) as int;
    if b.len() == 0 {
        seq![]
    } else if n >= b.len() {
        seq![b]
    } else {
        seq![without_return(b.take(n))] + raw_lines(b.skip(n + 1))
    }
}

/// Whether the second word of a line names the supported version.
pub open spec fn names_version(line: Seq<char>) -> bool {
    let w = text::first_word(text::after_first_word(line));
    &&& w.len() > 0
    &&& w[0] == 'v'
    &&& text::unsigned_value(w.drop_first()) == Some(RECORDING_VERSION)
}

/// What is wrong with the first line, if anything is.
pub open spec fn magic_fault(line: Seq<u8>) -> Option<ReadErrorKind> {
    if !valid_utf8(line) {
        Some(ReadErrorKind::NotText)
    } else if text::first_word(decode_utf8(line)) != magic() {
        Some(ReadErrorKind::BadMagic)
    } else if !names_version(decode_utf8(line)) {
        Some(ReadErrorKind::UnsupportedVersion)
    } else {
        None
    }
}

/// What is wrong with the second line, if anything is.
pub open spec fn metadata_fault(line: Seq<u8>) -> Option<ReadErrorKind> {
    if !valid_utf8(line) {
        Some(ReadErrorKind::NotText)
    } else if decode_utf8(line).len() == 0 || decode_utf8(line)[0] != '#' {
        Some(ReadErrorKind::BadMetadata)
    } else {
        None
    }
}

/// What is wrong with the third line, if anything is.
pub open spec fn columns_fault(line: Seq<u8>) -> Option<ReadErrorKind> {
    if !valid_utf8(line) {
        Some(ReadErrorKind::NotText)
    } else if text::trim(decode_utf8(line)) != column_names() {
        Some(ReadErrorKind::BadColumns)
    } else {
        None
    }
}

/// What is wrong with the first three lines, if anything is.
pub open spec fn header_fault(lines: Seq<Seq<u8>>) -> Option<ReadError> {
    if lines.len() == 0 {
        Some(ReadError { line: 1, kind: ReadErrorKind::EmptyFile })
    } else if let Some(kind) = magic_fault(lines[0]) {
        Some(ReadError { line: 1, kind })
    } else if lines.len() == 1 {
        Some(ReadError { line: 2, kind: ReadErrorKind::NoMetadata })
    } else if let Some(kind) = metadata_fault(lines[1]) {
        Some(ReadError { line: 2, kind })
    } else if lines.len() == 2 {
        Some(ReadError { line: 3, kind: ReadErrorKind::NoColumns })
    } else if let Some(kind) = columns_fault(lines[2]) {
        Some(ReadError { line: 3, kind })
    } else {
        None
    }
}

/// Whether a number can be read from every cell that has a column.
pub open spec fn all_numeric(pieces: Seq<Seq<char>>) -> bool {
    forall|i: int|
        0 <= i < pieces.len() && i < COLUMN_COUNT ==> text::is_number_text(
            text::trim(#[trigger] pieces[i]),
        )
}

/// What is wrong with a row, if anything is.
pub open spec fn row_fault(line: Seq<char>) -> Option<ReadErrorKind> {
    let pieces = text::cells(line);
    if !all_numeric(pieces) {
        Some(ReadErrorKind::NonNumericField)
    } else if pieces.len() < COLUMN_COUNT {
        Some(ReadErrorKind::TooFewColumns)
    } else if pieces.len() > COLUMN_COUNT {
        Some(ReadErrorKind::TooManyColumns)
    } else {
        None
    }
}

/// The texts of a row's numbers.
pub open spec fn row_cells(line: Seq<char>) -> Seq<Seq<char>> {
    text::cells(line).map_values(|c: Seq<char>| text::trim(c))
}

/// A line with nothing but white space holds no row.
pub open spec fn is_blank(line: Seq<char>) -> bool {
    text::trim(line).len() == 0
}

/// What is wrong with a line behind the header, if anything is.
pub open spec fn line_fault(line: Seq<u8>) -> Option<ReadErrorKind> {
    if !valid_utf8(line) {
        Some(ReadErrorKind::NotText)
    } else if is_blank(decode_utf8(line)) {
        None
    } else {
        row_fault(decode_utf8(line))
    }
}

/// The first fault among the lines from `at` on.
pub open spec fn first_fault(lines: Seq<Seq<u8>>, at: int) -> Option<ReadError>
    decreases lines.len() - at,
{
    if at >= lines.len() {
        None
    } else if let Some(kind) = line_fault(lines[at]) {
        Some(ReadError { line: (at + 1) as usize, kind })
    } else {
        first_fault(lines, at + 1)
    }
}

/// The rows in the lines behind the header, up to but without line `end`.
pub open spec fn rows_before(lines: Seq<Seq<u8>>, end: int) -> Seq<Seq<Seq<char>>>
    decreases end,
{
    if end <= 3 {
        seq![]
    } else if is_blank(decode_utf8(lines[end - 1])) {
        rows_before(lines, end - 1)
    } else {
        rows_before(lines, end - 1).push(row_cells(decode_utf8(lines[end - 1])))
    }
}

/// What reading a file gives: its rows, or the first fault from the top.
pub open spec fn parsed(input: Seq<u8>) -> Result<Seq<Seq<Seq<char>>>, ReadError> {
    let lines = raw_lines(input);
    if let Some(e) = header_fault(lines) {
        Err(e)
    } else if let Some(e) = first_fault(lines, 3) {
        Err(e)
    } else {
        Ok(rows_before(lines, lines.len() as int))
    }
}

// ---- reading ----------------------------------------------------------------

/// The text that the bytes encode; `None` if they are not UTF-8.
///
/// Calls `std::str::from_utf8`, which takes exactly the byte sequences that are
/// valid UTF-8 and gives back the text that they encode.
#[verifier::external_body]
fn utf8_text(bytes: &[u8]) -> (r: Option<&str>)
    ensures
        r is Some <==> valid_utf8(bytes@),
        r matches Some(s) ==> s@ == decode_utf8(bytes@),
{
    std::str::from_utf8(bytes).ok()
}

/// Where the line that starts at `from` ends: at a line feed, or at the end.
fn line_end(b: &[u8], from: usize) -> (r: usize)
    requires
        from <= b@.len(),
    ensures
        from <= r <= b@.len(),
        r - from == line_len(b@.skip(from as int)),
        r < b@.len() ==> b@[r as int] == 10,
{
    let mut i: usize = from;
    while i < b.len() && b[i] != 10
        invariant
            from <= i <= b@.len(),
            (i - from) + line_len(b@.skip(i as int)) == line_len(b@.skip(from as int)),
        ensures
            from <= i <= b@.len(),
            i - from == line_len(b@.skip(from as int)),
            i < b@.len() ==> b@[i as int] == 10,
        decreases b@.len() - i,
    {
        proof {
            assert(b@.skip(i as int).drop_first() =~= b@.skip(i + 1));
        }
        i = i + 1;
    }
    i
}

/// The line that starts at `from`: where its text ends, and where the next line
/// starts. `None` at the end of the file.
fn take_line(b: &[u8], from: usize) -> (r: Option<(usize, usize)>)
    requires
        from <= b@.len(),
    ensures
        r is None <==> from == b@.len(),
        r matches Some((end, next)) ==> from <= end <= next <= b@.len() && from < next && raw_lines(
            b@.skip(from as int),
        ) == seq![b@.subrange(from as int, end as int)] + raw_lines(b@.skip(next as int)),
{
    if from == b.len() {
        return None;
    }
    let stop: usize = line_end(b, from);
    let ghost rest = b@.skip(from as int);
    if stop == b.len() {
        proof {
            assert(b@.subrange(from as int, stop as int) =~= rest);
            assert(b@.skip(stop as int) =~= Seq::<u8>::empty());
            assert(raw_lines(b@.skip(stop as int)) =~= Seq::<Seq<u8>>::empty());
            assert(raw_lines(rest) =~= seq![rest] + raw_lines(b@.skip(stop as int)));
        }
        return Some((stop, stop));
    }
    proof {
        assert(rest.take(stop - from) =~= b@.subrange(from as int, stop as int));
        assert(rest.skip(stop - from + 1) =~= b@.skip(stop + 1));
    }
    let end: usize = if stop > from && b[stop - 1] == 13 {
        stop - 1
    } else {
        stop
    };
    proof {
        let line = b@.subrange(from as int, stop as int);
        if stop > from {
            assert(line.last() == b@[stop - 1]);
        }
        assert(without_return(line) =~= b@.subrange(from as int, end as int));
    }
    Some((end, stop + 1))
}

/// The cells of a row, if nothing is wrong with it.
fn read_row(line: &str) -> (r: Result<Vec<String>, ReadErrorKind>)
    ensures
        r matches Err(kind) ==> row_fault(line@) == Some(kind),
        r matches Ok(row) ==> row_fault(line@) is None && row.deep_view() == row_cells(line@),
{
    let s = text::characters(line);
    let n: usize = s.len();
    let ghost pieces = text::cells(line@);
    let mut row: Vec<String> = Vec::new();
    let mut pos: usize = 0;
    let mut more: bool = true;
    proof {
        assert(text::part(s@, 0, n as int) =~= line@);
        assert(pieces.skip(0) =~= pieces);
    }
    while row.len() < COLUMN_COUNT
        invariant
            s@ == line@,
            n == s.len(),
            pos <= n,
            pieces == text::cells(line@),
            row.len() <= COLUMN_COUNT,
            row.len() <= pieces.len(),
            more ==> pieces.skip(row.len() as int) == text::cells(
                text::part(s@, pos as int, n as int),
            ),
            !more ==> pieces.len() == row.len(),
            forall|j: int|
                #![trigger row@[j]]
                #![trigger pieces[j]]
                0 <= j < row.len() ==> row@[j]@ == text::trim(pieces[j]) && text::is_number_text(
                    text::trim(pieces[j]),
                ),
        decreases COLUMN_COUNT - row.len(),
    {
        if !more {
            return Err(ReadErrorKind::TooFewColumns);
        }
        let end: usize = text::cell_end(&s, pos, n);
        let ghost rest = text::part(s@, pos as int, n as int);
        let ghost k = row.len() as int;
        proof {
            if end < n {
                assert(rest.take(end - pos) =~= text::part(s@, pos as int, end as int));
                assert(rest.skip(end - pos + 1) =~= text::part(s@, end + 1, n as int));
                assert(pieces.skip(k)[0] == text::part(s@, pos as int, end as int));
                assert(pieces.skip(k).skip(1) =~= text::cells(text::part(s@, end + 1, n as int)));
                assert(pieces.skip(k + 1) =~= pieces.skip(k).skip(1));
            } else {
                assert(rest =~= text::part(s@, pos as int, end as int));
                assert(pieces.skip(k) =~= seq![rest]);
                assert(pieces.skip(k)[0] == rest);
                assert(pieces.skip(k).len() == 1);
            }
            assert(pieces[k] == pieces.skip(k)[0]);
        }
        let (a, b) = text::trim_range(&s, pos, end);
        if !text::number_text(&s, a, b) {
            return Err(ReadErrorKind::NonNumericField);
        }
        proof {
            assert(text::part(s@, a as int, b as int) == line@.subrange(a as int, b as int));
        }
        row.push(line.substring_char(a, b).to_owned());
        if end < n {
            pos = end + 1;
        } else {
            more = false;
        }
    }
    if more {
        proof {
            assert(pieces.skip(row.len() as int).len() > 0);
        }
        return Err(ReadErrorKind::TooManyColumns);
    }
    assert(row.deep_view() =~= row_cells(line@));
    Ok(row)
}

/// What is wrong with the first line, if anything is.
fn check_magic(line: &[u8]) -> (r: Option<ReadErrorKind>)
    ensures
        r == magic_fault(line@),
{
    let words = match utf8_text(line) {
        Some(t) => text::characters(t),
        None => return Some(ReadErrorKind::NotText),
    };
    let n: usize = words.len();
    let ghost w = words@;
    proof {
        assert(text::part(w, 0, n as int) =~= w);
    }
    let a: usize = text::skip_space(&words, 0, n);
    let b: usize = text::word_end(&words, a, n);
    proof {
        assert(text::part(w, a as int, n as int).take(b - a) =~= text::part(w, a as int, b as int));
        assert(text::part(w, a as int, n as int).skip(b - a) =~= text::part(w, b as int, n as int));
    }
    if !text::same_text(&words, a, b, "#pilotrs-recording") {
        return Some(ReadErrorKind::BadMagic);
    }
    let c: usize = text::skip_space(&words, b, n);
    let d: usize = text::word_end(&words, c, n);
    let ghost second = text::part(w, c as int, d as int);
    proof {
        assert(text::part(w, c as int, n as int).take(d - c) =~= second);
        if c < d {
            assert(second[0] == w[c as int]);
            assert(second.drop_first() =~= text::part(w, c + 1, d as int));
        }
    }
    if c == d || words[c] != 'v' {
        return Some(ReadErrorKind::UnsupportedVersion);
    }
    match text::parse_unsigned(&words, c + 1, d) {
        Some(v) => if v == RECORDING_VERSION {
            None
        } else {
            Some(ReadErrorKind::UnsupportedVersion)
        },
        None => Some(ReadErrorKind::UnsupportedVersion),
    }
}

/// What is wrong with the second line, if anything is.
fn check_metadata(line: &[u8]) -> (r: Option<ReadErrorKind>)
    ensures
        r == metadata_fault(line@),
{
    match utf8_text(line) {
        Some(t) => {
            let s = text::characters(t);
            if s.len() == 0 || s[0] != '#' {
                Some(ReadErrorKind::BadMetadata)
            } else {
                None
            }
        },
        None => Some(ReadErrorKind::NotText),
    }
}

/// What is wrong with the third line, if anything is.
fn check_columns(line: &[u8]) -> (r: Option<ReadErrorKind>)
    ensures
        r == columns_fault(line@),
{
    match utf8_text(line) {
        Some(t) => {
            let s = text::characters(t);
            let n: usize = s.len();
            proof {
                assert(text::part(s@, 0, n as int) =~= s@);
            }
            let (a, b) = text::trim_range(&s, 0, n);
            if text::same_text(
                &s,
                a,
                b,
                "t,tru_px,tru_py,tru_pz,tru_vx,tru_vy,tru_vz,tru_qw,tru_qx,tru_qy,tru_qz,tru_wx,tru_wy,tru_wz,est_px,est_py,est_pz,est_vx,est_vy,est_vz,est_qw,est_qx,est_qy,est_qz,est_wx,est_wy,est_wz,sp_qw,sp_qx,sp_qy,sp_qz,sp_thrust,m0,m1,m2,m3,tgb_x,tgb_y,tgb_z,egb_x,egb_y,egb_z",
            ) {
                None
            } else {
                Some(ReadErrorKind::BadColumns)
            }
        },
        None => Some(ReadErrorKind::NotText),
    }
}

/// The row in a line behind the header, `None` if the line is blank.
fn read_line(line: &[u8]) -> (r: Result<Option<Vec<String>>, ReadErrorKind>)
    ensures
        r matches Err(kind) ==> line_fault(line@) == Some(kind),
        r is Ok ==> line_fault(line@) is None,
        r matches Ok(None) ==> is_blank(decode_utf8(line@)),
        r matches Ok(Some(row)) ==> !is_blank(decode_utf8(line@)) && row.deep_view() == row_cells(
            decode_utf8(line@),
        ),
{
    let t = match utf8_text(line) {
        Some(t) => t,
        None => return Err(ReadErrorKind::NotText),
    };
    let s = text::characters(t);
    proof {
        assert(text::part(s@, 0, s@.len() as int) =~= s@);
    }
    let (a, b) = text::trim_range(&s, 0, s.len());
    if a == b {
        return Ok(None);
    }
    match read_row(t) {
        Ok(row) => Ok(Some(row)),
        Err(kind) => Err(kind),
    }
}

/// There are no more lines than bytes.
pub proof fn lines_within_bytes(b: Seq<u8>)
    ensures
        raw_lines(b).len() <= b.len(),
    decreases b.len(),
{
    let n = line_len(b) as int;
    if b.len() > 0 && n < b.len() {
        lines_within_bytes(b.skip(n + 1));
    }
}

/// A line taken off the front of what is left is the next one of all lines.
proof fn next_of_lines(lines: Seq<Seq<u8>>, k: int, line: Seq<u8>, rest: Seq<Seq<u8>>)
    requires
        0 <= k <= lines.len(),
        lines.skip(k) == seq![line] + rest,
    ensures
        k < lines.len(),
        lines[k] == line,
        lines.skip(k + 1) == rest,
{
    assert(lines.skip(k).len() == 1 + rest.len());
    assert(lines.skip(k)[0] == line);
    assert(lines.skip(k + 1) =~= lines.skip(k).skip(1));
    assert(lines.skip(k).skip(1) =~= rest);
}

/// Reads the three lines of the header: where the rows start, or what is wrong.
fn read_header(input: &[u8]) -> (r: Result<usize, ReadError>)
    ensures
        r matches Err(e) ==> header_fault(raw_lines(input@)) == Some(e),
        r matches Ok(n) ==> {
            &&& header_fault(raw_lines(input@)) is None
            &&& n <= input@.len()
            &&& raw_lines(input@).skip(3) == raw_lines(input@.skip(n as int))
        },
{
    let ghost lines = raw_lines(input@);
    proof {
        lines_within_bytes(input@);
        assert(input@.skip(0) =~= input@);
        assert(lines.skip(0) =~= lines);
    }
    let (e1, n1) = match take_line(input, 0) {
        Some(x) => x,
        None => {
            return Err(ReadError { line: 1, kind: ReadErrorKind::EmptyFile });
        },
    };
    proof {
        next_of_lines(
            lines,
            0,
            input@.subrange(0, e1 as int),
            raw_lines(input@.skip(n1 as int)),
        );
    }
    if let Some(kind) = check_magic(vstd::slice::slice_subrange(input, 0, e1)) {
        return Err(ReadError { line: 1, kind });
    }
    let (e2, n2) = match take_line(input, n1) {
        Some(x) => x,
        None => {
            assert(lines.skip(1).len() == 0);
            return Err(ReadError { line: 2, kind: ReadErrorKind::NoMetadata });
        },
    };
    proof {
        next_of_lines(
            lines,
            1,
            input@.subrange(n1 as int, e2 as int),
            raw_lines(input@.skip(n2 as int)),
        );
    }
    if let Some(kind) = check_metadata(vstd::slice::slice_subrange(input, n1, e2)) {
        return Err(ReadError { line: 2, kind });
    }
    let (e3, n3) = match take_line(input, n2) {
        Some(x) => x,
        None => {
            assert(lines.skip(2).len() == 0);
            return Err(ReadError { line: 3, kind: ReadErrorKind::NoColumns });
        },
    };
    proof {
        next_of_lines(
            lines,
            2,
            input@.subrange(n2 as int, e3 as int),
            raw_lines(input@.skip(n3 as int)),
        );
    }
    if let Some(kind) = check_columns(vstd::slice::slice_subrange(input, n2, e3)) {
        return Err(ReadError { line: 3, kind });
    }
    Ok(n3)
}

/// Reads the rows, which start at `from`.
fn read_rows(input: &[u8], from: usize) -> (r: Result<Vec<Vec<String>>, ReadError>)
    requires
        from <= input@.len(),
        header_fault(raw_lines(input@)) is None,
        raw_lines(input@).skip(3) == raw_lines(input@.skip(from as int)),
    ensures
        r matches Err(e) ==> first_fault(raw_lines(input@), 3) == Some(e),
        r matches Ok(rows) ==> {
            &&& first_fault(raw_lines(input@), 3) is None
            &&& rows.deep_view() == rows_before(raw_lines(input@), raw_lines(input@).len() as int)
        },
{
    let ghost lines = raw_lines(input@);
    proof {
        lines_within_bytes(input@);
    }
    let mut rows: Vec<Vec<String>> = Vec::new();
    let mut pos: usize = from;
    let mut line_no: usize = 3;
    assert(rows.deep_view() =~= rows_before(lines, 3));
    while pos < input.len()
        invariant
            pos <= input@.len(),
            lines == raw_lines(input@),
            lines.len() <= input@.len(),
            3 <= line_no <= lines.len(),
            lines.skip(line_no as int) == raw_lines(input@.skip(pos as int)),
            first_fault(lines, 3) == first_fault(lines, line_no as int),
            rows.deep_view() == rows_before(lines, line_no as int),
        decreases input@.len() - pos,
    {
        match take_line(input, pos) {
            Some((end, next)) => {
                proof {
                    next_of_lines(
                        lines,
                        line_no as int,
                        input@.subrange(pos as int, end as int),
                        raw_lines(input@.skip(next as int)),
                    );
                }
                line_no = line_no + 1;
                match read_line(vstd::slice::slice_subrange(input, pos, end)) {
                    Ok(Some(row)) => {
                        let ghost before = rows.deep_view();
                        let ghost cells = row.deep_view();
                        rows.push(row);
                        assert(rows.deep_view() =~= before.push(cells));
                    },
                    Ok(None) => {},
                    Err(kind) => {
                        return Err(ReadError { line: line_no, kind });
                    },
                }
                pos = next;
            },
            None => {},
        }
    }
    proof {
        assert(input@.skip(pos as int) =~= Seq::<u8>::empty());
        assert(lines.skip(line_no as int).len() == 0);
    }
    Ok(rows)
}

impl Recording {
    /// Reads a file: the cells of its rows, or the first thing from the top that is
    /// wrong with it, and where.
    pub fn read(input: &[u8]) -> (r: Result<Vec<Vec<String>>, ReadError>)
        ensures
            r matches Ok(rows) ==> parsed(input@) == Ok::<Seq<Seq<Seq<char>>>, ReadError>(
                rows.deep_view(),
            ),
            r matches Err(e) ==> parsed(input@) == Err::<Seq<Seq<Seq<char>>>, ReadError>(e),
    {
        match read_header(input) {
            Ok(from) => read_rows(input, from),
            Err(e) => Err(e),
        }
    }
}

// ---- writing ----------------------------------------------------------------

/// Adding a line at the end adds its text and a line feed.
proof fn lines_text_push(lines: Seq<Seq<char>>, line: Seq<char>)
    ensures
        lines_text(lines.push(line)) == lines_text(lines) + line + seq!['\n'],
    decreases lines.len(),
{
    if lines.len() == 0 {
        assert(lines.push(line).drop_first() =~= lines);
        assert(lines_text(lines) =~= Seq::<char>::empty());
        assert(lines_text(lines.push(line)) =~= lines_text(lines) + line + seq!['\n']);
    } else {
        assert(lines.push(line).drop_first() =~= lines.drop_first().push(line));
        lines_text_push(lines.drop_first(), line);
        assert(lines_text(lines.push(line)) =~= lines_text(lines) + line + seq!['\n']);
    }
}

/// Adds a row to the text: its cells with commas between them, and a line feed.
pub fn write_row(out: &mut String, row: &Vec<String>)
    ensures
        final(out)@ == old(out)@ + text::join(row.deep_view()) + seq!['\n'],
{
    let ghost start = out@;
    let ghost all = row.deep_view();
    proof {
        reveal_strlit(",");
        reveal_strlit("\n");
        assert(all.take(0) =~= Seq::<Seq<char>>::empty());
        assert(start + text::join(all.take(0)) =~= start);
    }
    let mut i: usize = 0;
    while i < row.len()
        invariant
            i <= row.len(),
            all == row.deep_view(),
            ","@ == seq![','],
            out@ == start + text::join(all.take(i as int)),
        decreases row.len() - i,
    {
        let ghost done = all.take(i as int);
        let ghost more = all.take(i + 1);
        if i > 0 {
            out.append(",");
        }
        out.append(row[i].as_str());
        proof {
            assert(more.drop_last() =~= done);
            assert(more.last() == row@[i as int]@);
            if i == 0 {
                assert(text::join(done) =~= Seq::<char>::empty());
                assert(out@ =~= start + text::join(more));
            } else {
                assert(out@ =~= start + (text::join(done) + seq![','] + more.last()));
            }
        }
        i = i + 1;
    }
    assert(all.take(row.len() as int) =~= all);
    out.append("\n");
    assert("\n"@ =~= seq!['\n']);
}

/// Adds a line to the text.
fn write_line(out: &mut String, line: &str)
    ensures
        final(out)@ == old(out)@ + line@ + seq!['\n'],
{
    proof {
        reveal_strlit("\n");
    }
    out.append(line);
    out.append("\n");
    assert("\n"@ =~= seq!['\n']);
}

impl Recording {
    /// The file that holds the given rows.
    pub fn write(rows: &Vec<Vec<String>>) -> (r: String)
        ensures
            r@ == file_text(rows.deep_view()),
    {
        let ghost all = row_lines(rows.deep_view());
        let ghost head = seq![magic_line(), metadata_line(), column_names()];
        let mut line1 = String::from_str("#pilotrs-recording");
        line1.append(" v");
        line1.append(text::decimal_text(RECORDING_VERSION as usize).as_str());
        let mut line2 = String::from_str("#format=csv kind=telemetry columns=");
        line2.append(text::decimal_text(COLUMN_COUNT).as_str());
        let mut out = String::new();
        write_line(&mut out, line1.as_str());
        write_line(&mut out, line2.as_str());
        write_line(
            &mut out,
            "t,tru_px,tru_py,tru_pz,tru_vx,tru_vy,tru_vz,tru_qw,tru_qx,tru_qy,tru_qz,tru_wx,tru_wy,tru_wz,est_px,est_py,est_pz,est_vx,est_vy,est_vz,est_qw,est_qx,est_qy,est_qz,est_wx,est_wy,est_wz,sp_qw,sp_qx,sp_qy,sp_qz,sp_thrust,m0,m1,m2,m3,tgb_x,tgb_y,tgb_z,egb_x,egb_y,egb_z",
        );
        proof {
            let none = Seq::<Seq<char>>::empty();
            lines_text_push(none, magic_line());
            lines_text_push(none.push(magic_line()), metadata_line());
            lines_text_push(none.push(magic_line()).push(metadata_line()), column_names());
            assert(none.push(magic_line()).push(metadata_line()).push(column_names()) =~= head);
            assert(head + all.take(0) =~= head);
            assert(lines_text(none) =~= Seq::<char>::empty());
        }
        let mut i: usize = 0;
        while i < rows.len()
            invariant
                i <= rows.len(),
                all == row_lines(rows.deep_view()),
                head.len() == 3,
                out@ == lines_text(head + all.take(i as int)),
            decreases rows.len() - i,
        {
            write_row(&mut out, &rows[i]);
            proof {
                assert(all[i as int] == text::join(rows@[i as int].deep_view()));
                assert(head + all.take(i + 1) =~= (head + all.take(i as int)).push(all[i as int]));
                lines_text_push(head + all.take(i as int), all[i as int]);
            }
            i = i + 1;
        }
        assert(all.take(rows.len() as int) =~= all);
        out
    }
}

// ---- what an error says -----------------------------------------------------

/// A message that names a line.
pub fn inval(line: usize, msg: &str) -> (r: String)
    ensures
        r@ == "line "@ + text::decimal(line as nat) + ": "@ + msg@,
{
    let mut r = String::from_str("line ");
    r.append(text::decimal_text(line).as_str());
    r.append(": ");
    r.append(msg);
    r
}

impl ReadErrorKind {
    pub open spec fn wording(self) -> Seq<char> {
        match self {
            ReadErrorKind::EmptyFile => "empty file"@,
            ReadErrorKind::BadMagic => "not a pilotrs recording (bad magic)"@,
            ReadErrorKind::UnsupportedVersion => "unsupported recording version"@,
            ReadErrorKind::NoMetadata => "missing metadata"@,
            ReadErrorKind::BadMetadata => "missing metadata line"@,
            ReadErrorKind::NoColumns => "missing column header"@,
            ReadErrorKind::BadColumns => "column header does not match schema"@,
            ReadErrorKind::TooFewColumns => "too few columns"@,
            ReadErrorKind::NonNumericField => "non-numeric field"@,
            ReadErrorKind::TooManyColumns => "too many columns"@,
            ReadErrorKind::NotText => "stream did not contain valid UTF-8"@,
        }
    }

    /// The fault in words.
    pub fn text(self) -> (r: &'static str)
        ensures
            r@ == self.wording(),
    {
        match self {
            ReadErrorKind::EmptyFile => "empty file",
            ReadErrorKind::BadMagic => "not a pilotrs recording (bad magic)",
            ReadErrorKind::UnsupportedVersion => "unsupported recording version",
            ReadErrorKind::NoMetadata => "missing metadata",
            ReadErrorKind::BadMetadata => "missing metadata line",
            ReadErrorKind::NoColumns => "missing column header",
            ReadErrorKind::BadColumns => "column header does not match schema",
            ReadErrorKind::TooFewColumns => "too few columns",
            ReadErrorKind::NonNumericField => "non-numeric field",
            ReadErrorKind::TooManyColumns => "too many columns",
            ReadErrorKind::NotText => "stream did not contain valid UTF-8",
        }
    }
}

impl ReadError {
    pub open spec fn wording(self) -> Seq<char> {
        "line "@ + text::decimal(self.line as nat) + ": "@ + self.kind.wording()
    }

    /// The fault in words, with its line.
    pub fn message(&self) -> (r: String)
        ensures
            r@ == self.wording(),
    {
        inval(self.line, self.kind.text())
    }
}

/// Whatever is wrong with a file, the message starts with the line that it is wrong in.
pub proof fn message_names_its_line(e: ReadError)
    ensures
        ({
            let front = "line "@ + text::decimal(e.line as nat) + ": "@;
            e.wording().len() >= front.len() && e.wording().take(front.len() as int) == front
        }),
{
    let front = "line "@ + text::decimal(e.line as nat) + ": "@;
    assert(e.wording().take(front.len() as int) =~= front);
}

/// Each column holds what its name says: the time; the true position, velocity, attitude and
/// angular rate; the estimated ones; the attitude and thrust aimed at; the four motors; the
/// true and the estimated bias of the gyros.
pub proof fn columns_hold_what_they_name(s: TelemetrySample)
    ensures
        values(s).len() == COLUMN_COUNT,
        values(s)[0] == s.t,
        ({
            let (v, x) = (values(s), s.truth);
            &&& v[1] == x.position.x && v[2] == x.position.y && v[3] == x.position.z
            &&& v[4] == x.velocity.x && v[5] == x.velocity.y && v[6] == x.velocity.z
            &&& v[7] == x.attitude.w && v[8] == x.attitude.i && v[9] == x.attitude.j && v[10]
                == x.attitude.k
            &&& v[11] == x.angular_rate.x && v[12] == x.angular_rate.y && v[13]
                == x.angular_rate.z
        }),
        ({
            let (v, x) = (values(s), s.estimate);
            &&& v[14] == x.position.x && v[15] == x.position.y && v[16] == x.position.z
            &&& v[17] == x.velocity.x && v[18] == x.velocity.y && v[19] == x.velocity.z
            &&& v[20] == x.attitude.w && v[21] == x.attitude.i && v[22] == x.attitude.j && v[23]
                == x.attitude.k
            &&& v[24] == x.angular_rate.x && v[25] == x.angular_rate.y && v[26]
                == x.angular_rate.z
        }),
        ({
            let (v, x) = (values(s), s.setpoint);
            &&& v[27] == x.attitude.w && v[28] == x.attitude.i && v[29] == x.attitude.j && v[30]
                == x.attitude.k
            &&& v[31] == x.thrust
        }),
        ({
            let (v, a, b) = (values(s), s.true_gyro_bias, s.est_gyro_bias);
            &&& v[32] == s.motors@[0] && v[33] == s.motors@[1] && v[34] == s.motors@[2] && v[35]
                == s.motors@[3]
            &&& v[36] == a.x && v[37] == a.y && v[38] == a.z
            &&& v[39] == b.x && v[40] == b.y && v[41] == b.z
        }),
{
}

/// A line feed ends a line, with the carriage return before it if there is one; what comes
/// behind makes the further lines. Bytes without a line feed are one line, kept whole.
pub proof fn feeds_end_lines(line: Seq<u8>, rest: Seq<u8>)
    requires
        forall|i: int| 0 <= i < line.len() ==> #[trigger] line[i] != 10,
        line.len() == 0 || line.last() != 13,
    ensures
        raw_lines(line + seq![10u8] + rest) == seq![line] + raw_lines(rest),
        raw_lines(line.push(13) + seq![10u8] + rest) == seq![line] + raw_lines(rest),
        raw_lines(line) == (if line.len() == 0 {
            seq![]
        } else {
            seq![line]
        }),
        raw_lines(line.push(13)) == seq![line.push(13)],
{
    first_feed(line, seq![10u8] + rest);
    assert(line + (seq![10u8] + rest) =~= line + seq![10u8] + rest);
    let ended = line + seq![10u8] + rest;
    assert(ended.take(line.len() as int) =~= line);
    assert(ended.skip(line.len() as int + 1) =~= rest);
    let with = line.push(13);
    assert forall|i: int| 0 <= i < with.len() implies #[trigger] with[i] != 10 by {
        if i < line.len() {
            assert(with[i] == line[i]);
        }
    }
    first_feed(with, seq![10u8] + rest);
    assert(with + (seq![10u8] + rest) =~= with + seq![10u8] + rest);
    let returned = with + seq![10u8] + rest;
    assert(returned.take(with.len() as int) =~= with);
    assert(returned.skip(with.len() as int + 1) =~= rest);
    assert(with.drop_last() =~= line);
    let none = Seq::<u8>::empty();
    first_feed(line, none);
    first_feed(with, none);
    assert(line + none =~= line);
    assert(with + none =~= with);
}

proof fn first_feed(line: Seq<u8>, rest: Seq<u8>)
    requires
        forall|i: int| 0 <= i < line.len() ==> #[trigger] line[i] != 10,
        rest.len() == 0 || rest[0] == 10,
    ensures
        line_len(line + rest) == line.len(),
    decreases line.len(),
{
    if line.len() == 0 {
        assert(line + rest =~= rest);
    } else {
        let d = line.drop_first();
        assert((line + rest).drop_first() =~= d + rest);
        assert((line + rest)[0] == line[0]);
        assert forall|i: int| 0 <= i < d.len() implies #[trigger] d[i] != 10 by {
            assert(d[i] == line[i + 1]);
        }
        first_feed(d, rest);
    }
}

/// Why the first line is refused: it is no text, its first word is not the one that every file
/// starts with, or its second word is not `v` and the version.
pub proof fn first_line_names_format_and_version(line: Seq<u8>)
    ensures
        ({
            let (s, f) = (decode_utf8(line), magic_fault(line));
            let w = text::first_word(text::after_first_word(s));
            let named = w.len() > 0 && w[0] == 'v' && text::unsigned_value(w.drop_first()) == Some(
                1u32,
            );
            let begun = text::first_word(s) == "#pilotrs-recording"@;
            &&& f == Some(ReadErrorKind::NotText) <==> !valid_utf8(line)
            &&& f == Some(ReadErrorKind::BadMagic) <==> valid_utf8(line) && !begun
            &&& f == Some(ReadErrorKind::UnsupportedVersion) <==> valid_utf8(line) && begun
                && !named
            &&& f is None <==> valid_utf8(line) && begun && named
        }),
{
}

/// Why the second and the third line are refused: they are no text, the second does not start
/// with `#`, the third is not the names of the columns.
pub proof fn second_line_is_a_comment_and_the_third_names_columns(line: Seq<u8>)
    ensures
        ({
            let (s, f) = (decode_utf8(line), metadata_fault(line));
            let comment = s.len() > 0 && s[0] == '#';
            &&& f == Some(ReadErrorKind::NotText) <==> !valid_utf8(line)
            &&& f == Some(ReadErrorKind::BadMetadata) <==> valid_utf8(line) && !comment
            &&& f is None <==> valid_utf8(line) && comment
        }),
        ({
            let (s, f) = (decode_utf8(line), columns_fault(line));
            &&& f == Some(ReadErrorKind::NotText) <==> !valid_utf8(line)
            &&& f == Some(ReadErrorKind::BadColumns) <==> valid_utf8(line) && text::trim(s)
                != column_names()
            &&& f is None <==> valid_utf8(line) && text::trim(s) == column_names()
        }),
{
}

/// A file without a line is empty; one that ends behind its first or second line lacks the
/// next. A fault in a line of the header comes before one in the lines behind it.
pub proof fn header_is_read_from_the_top(lines: Seq<Seq<u8>>)
    ensures
        lines.len() == 0 ==> header_fault(lines) == Some(
            (ReadError { line: 1, kind: ReadErrorKind::EmptyFile }),
        ),
        lines.len() > 0 ==> (magic_fault(lines[0]) matches Some(kind) ==> header_fault(lines)
            == Some((ReadError { line: 1, kind }))),
        lines.len() == 1 && magic_fault(lines[0]) is None ==> header_fault(lines) == Some(
            (ReadError { line: 2, kind: ReadErrorKind::NoMetadata }),
        ),
        lines.len() > 1 && magic_fault(lines[0]) is None ==> (metadata_fault(
            lines[1],
        ) matches Some(kind) ==> header_fault(lines) == Some((ReadError { line: 2, kind }))),
        lines.len() == 2 && magic_fault(lines[0]) is None && metadata_fault(lines[1]) is None
            ==> header_fault(lines) == Some(
            (ReadError { line: 3, kind: ReadErrorKind::NoColumns }),
        ),
        lines.len() > 2 && magic_fault(lines[0]) is None && metadata_fault(lines[1]) is None ==> (
        columns_fault(lines[2]) matches Some(kind) ==> header_fault(lines) == Some(
            (ReadError { line: 3, kind }),
        )),
        header_fault(lines) is None <==> lines.len() > 2 && magic_fault(lines[0]) is None
            && metadata_fault(lines[1]) is None && columns_fault(lines[2]) is None,
{
}

/// Why a row is refused: a cell that has a column holds no number; if all do, there are fewer
/// cells than columns, or more.
pub proof fn rows_have_a_number_per_column(line: Seq<char>, i: int)
    ensures
        ({
            let (c, f) = (text::cells(line), row_fault(line));
            &&& 0 <= i < c.len() && i < 42 && !text::is_number_text(text::trim(c[i])) ==> f == Some(
                ReadErrorKind::NonNumericField,
            )
            &&& f == Some(ReadErrorKind::NonNumericField) ==> exists|k: int|
                0 <= k < c.len() && k < 42 && !text::is_number_text(text::trim(#[trigger] c[k]))
            &&& f == Some(ReadErrorKind::TooFewColumns) ==> c.len() < 42
            &&& f == Some(ReadErrorKind::TooManyColumns) ==> c.len() > 42
            &&& f is None ==> c.len() == 42
            &&& f matches Some(k) ==> k == ReadErrorKind::NonNumericField || k
                == ReadErrorKind::TooFewColumns || k == ReadErrorKind::TooManyColumns
            &&& c.len() != 42 ==> f is Some
            &&& c.len() == 42 ==> f is None || f == Some(ReadErrorKind::NonNumericField)
        }),
{
    if !all_numeric(text::cells(line)) {
        let c = text::cells(line);
        let k = choose|k: int|
            0 <= k < c.len() && k < COLUMN_COUNT && !text::is_number_text(
                text::trim(#[trigger] c[k]),
            );
        assert(!text::is_number_text(text::trim(c[k])));
    }
}

/// A line behind the header is refused if it is no text, or if it is neither blank nor a row. A
/// blank one holds white space alone.
pub proof fn blank_lines_are_passed_over(line: Seq<u8>, i: int)
    ensures
        !valid_utf8(line) ==> line_fault(line) == Some(ReadErrorKind::NotText),
        valid_utf8(line) && is_blank(decode_utf8(line)) ==> line_fault(line) is None,
        valid_utf8(line) && !is_blank(decode_utf8(line)) ==> line_fault(line) == row_fault(
            decode_utf8(line),
        ),
        is_blank(decode_utf8(line)) && 0 <= i < decode_utf8(line).len() ==> text::is_space(
            decode_utf8(line)[i],
        ),
        0 <= i < decode_utf8(line).len() && !text::is_space(decode_utf8(line)[i]) ==> !is_blank(
            decode_utf8(line),
        ),
{
    let r = text::trim_leaves_out_spaces(decode_utf8(line));
    assert(text::trim(decode_utf8(line)).len() == r.1 - r.0);
}

/// The fault that is told is the first one: it is in the line that it names, and no line before
/// has one. If none is told, no line has one.
pub proof fn first_fault_is_told(lines: Seq<Seq<u8>>, at: int, i: int)
    requires
        0 <= at <= i < lines.len() <= usize::MAX,
    ensures
        first_fault(lines, at) matches Some(e) ==> at < e.line <= lines.len() && line_fault(
            lines[e.line - 1],
        ) == Some(e.kind),
        first_fault(lines, at) matches Some(e) ==> (i < e.line - 1 ==> line_fault(
            lines[i],
        ) is None),
        first_fault(lines, at) is None ==> line_fault(lines[i]) is None,
    decreases lines.len() - at,
{
    if line_fault(lines[at]) is None {
        if at < i {
            first_fault_is_told(lines, at + 1, i);
        } else if at + 1 < lines.len() {
            first_fault_is_told(lines, at + 1, at + 1);
        }
    }
}

/// Each line behind the header that is not blank is one more row: the texts between its commas,
/// without the white space around them.
pub proof fn lines_are_rows(lines: Seq<Seq<u8>>, end: int, i: int)
    requires
        3 <= end < lines.len(),
    ensures
        ({
            let (before, after) = (rows_before(lines, end), rows_before(lines, end + 1));
            let line = decode_utf8(lines[end]);
            &&& is_blank(line) ==> after == before
            &&& !is_blank(line) ==> after.len() == before.len() + 1 && after.drop_last() == before
            &&& !is_blank(line) ==> after.last().len() == text::cells(line).len()
            &&& !is_blank(line) && 0 <= i < text::cells(line).len() ==> after.last()[i]
                == text::trim(text::cells(line)[i])
        }),
        rows_before(lines, 3).len() == 0,
{
    let line = decode_utf8(lines[end]);
    let before = rows_before(lines, end);
    if !is_blank(line) {
        assert(before.push(row_cells(line)).drop_last() =~= before);
    }
}

/// A file is read exactly if neither its header nor a line behind it has a fault; the fault in
/// the header is told first.
pub proof fn faultless_files_are_read(input: Seq<u8>)
    ensures
        ({
            let lines = raw_lines(input);
            let (h, f) = (header_fault(lines), first_fault(lines, 3));
            &&& parsed(input) is Ok <==> h is None && f is None
            &&& h matches Some(e) ==> parsed(input) == Err::<Seq<Seq<Seq<char>>>, ReadError>(e)
            &&& h is None ==> (f matches Some(e) ==> parsed(input) == Err::<
                Seq<Seq<Seq<char>>>,
                ReadError,
            >(e))
            &&& parsed(input) matches Ok(rows) ==> rows == rows_before(lines, lines.len() as int)
        }),
{
}

} // verus!
