use pilotrs::messages::{EstState, Quat, Setpoint, State13, Vec3};
use pilotrs::number::Real;
use pilotrs::playback::ReplayPlayer;
use pilotrs::recording::{
    inval, sample_from_values, sample_values, ReadError, ReadErrorKind, Recording, COLUMN_COUNT,
    RECORDING_VERSION,
};
use pilotrs::telemetry::{Telemetry, TelemetrySample};

fn r(x: f64) -> Real {
    Real::from_bits(x.to_bits())
}

fn f(x: Real) -> f64 {
    f64::from_bits(x.to_bits())
}

fn v3(x: f64, y: f64, z: f64) -> Vec3 {
    Vec3::new(r(x), r(y), r(z))
}

/// Roll, pitch and yaw as a quaternion.
fn euler(roll: f64, pitch: f64, yaw: f64) -> Quat {
    let (sr, cr) = (roll * 0.5).sin_cos();
    let (sp, cp) = (pitch * 0.5).sin_cos();
    let (sy, cy) = (yaw * 0.5).sin_cos();
    Quat {
        w: r(cr * cp * cy + sr * sp * sy),
        i: r(sr * cp * cy - cr * sp * sy),
        j: r(cr * sp * cy + sr * cp * sy),
        k: r(cr * cp * sy - sr * sp * cy),
    }
}

fn sample(t: f64, seed: f64) -> TelemetrySample {
    let q = euler(0.1 + seed, -0.2, 0.3 + seed);
    TelemetrySample {
        t: r(t),
        truth: State13 {
            position: v3(seed, seed * 2.0, -seed),
            velocity: v3(0.5, -0.25, seed),
            attitude: q,
            angular_rate: v3(0.01, -0.02, 0.03),
        },
        estimate: EstState {
            position: v3(seed + 0.1, seed * 2.0, -seed),
            velocity: v3(0.5, -0.25, seed),
            attitude: q,
            angular_rate: v3(0.01, -0.02, 0.03),
        },
        setpoint: Setpoint {
            attitude: euler(0.05, 0.0, seed),
            thrust: r(4.9 + seed),
        },
        motors: [r(1.0), r(2.0), r(3.0), r(4.0 + seed)],
        true_gyro_bias: v3(0.01, -0.008, 0.005),
        est_gyro_bias: v3(0.009, -0.007, 0.004),
    }
}

fn rec(n: usize) -> Recording {
    Recording::from_samples(
        (0..n)
            .map(|i| sample(i as f64 * 0.01, i as f64 * 0.013))
            .collect(),
    )
}

/// The texts of a sample's numbers.
fn cells(s: &TelemetrySample) -> Vec<String> {
    sample_values(s).iter().map(|v| format!("{:.17e}", f(*v))).collect()
}

fn write(rec: &Recording) -> String {
    let rows: Vec<Vec<String>> = rec.samples.iter().map(cells).collect();
    Recording::write(&rows)
}

fn read(bytes: &[u8]) -> Result<Recording, ReadError> {
    let rows = Recording::read(bytes)?;
    let samples = rows
        .iter()
        .map(|row| {
            let mut v = [r(0.0); 42];
            for (slot, cell) in v.iter_mut().zip(row) {
                *slot = r(cell.parse::<f64>().unwrap());
            }
            sample_from_values(&v)
        })
        .collect();
    Ok(Recording::from_samples(samples))
}

fn duration(rec: &Recording) -> f64 {
    match rec.span() {
        Some((a, b)) => f(b) - f(a),
        None => 0.0,
    }
}

#[test]
fn round_trip_is_bit_exact() {
    let rec = rec(50);
    let back = read(write(&rec).as_bytes()).unwrap();
    assert_eq!(back.len(), rec.len());
    for (a, b) in rec.samples.iter().zip(&back.samples) {
        for (x, y) in sample_values(a).iter().zip(sample_values(b).iter()) {
            assert_eq!(x.to_bits(), y.to_bits(), "field not bit-exact");
        }
        assert_eq!(a, b);
    }
}

#[test]
fn two_identical_recordings_write_identical_bytes() {
    assert_eq!(write(&rec(20)).into_bytes(), write(&rec(20)).into_bytes());
}

#[test]
fn quaternion_round_trips() {
    let rec = rec(1);
    let back = read(write(&rec).as_bytes()).unwrap();
    let a = back.samples[0].truth.attitude;
    let b = rec.samples[0].truth.attitude;
    let dot = f(a.w) * f(b.w) + f(a.i) * f(b.i) + f(a.j) * f(b.j) + f(a.k) * f(b.k);
    assert!((1.0 - dot.abs()).abs() < 1e-15);
    assert_eq!(a, b);
}

#[test]
fn empty_and_single_recordings() {
    for n in [0, 1] {
        let rec = rec(n);
        let back = read(write(&rec).as_bytes()).unwrap();
        assert_eq!(back.len(), n);
        assert_eq!(back.is_empty(), n == 0);
        assert_eq!(duration(&back), 0.0);
    }
}

#[test]
fn special_values_round_trip() {
    let mut s = sample(0.0, 0.0);
    s.truth.position.x = r(f64::NAN);
    s.truth.position.y = r(f64::INFINITY);
    s.truth.position.z = r(f64::NEG_INFINITY);
    let rec = Recording::from_samples(vec![s]);
    let back = read(write(&rec).as_bytes()).unwrap();
    assert!(f(back.samples[0].truth.position.x).is_nan());
    assert!(
        f(back.samples[0].truth.position.y).is_infinite()
            && f(back.samples[0].truth.position.y) > 0.0
    );
    assert!(
        f(back.samples[0].truth.position.z).is_infinite()
            && f(back.samples[0].truth.position.z) < 0.0
    );
}

#[test]
fn malformed_input_errors_without_panic() {
    assert!(Recording::read(&b""[..]).is_err());
    assert!(Recording::read(&b"garbage\n"[..]).is_err());
    assert!(Recording::read(&b"#pilotrs-recording v2\n#x\nhdr\n"[..]).is_err());
    let text = write(&rec(2));
    let mut lines: Vec<&str> = text.lines().collect();
    lines[3] = "1.0,2.0,3.0"; // too few columns
    let corrupt = lines.join("\n");
    assert!(Recording::read(corrupt.as_bytes()).is_err());
}

#[test]
fn replay_sample_at_boundaries() {
    let rec = rec(10); // t = 0.00, 0.01, ..., 0.09
    let p = ReplayPlayer::new(&rec);
    assert!(p.sample_at(r(-1.0)).is_none(), "before first → None");
    assert_eq!(f(p.sample_at(r(0.0)).unwrap().t), 0.0, "exact");
    assert_eq!(
        p.sample_at(r(0.025)).unwrap().t.to_bits(),
        0.02_f64.to_bits(),
        "latest <= t"
    );
    assert_eq!(
        p.sample_at(r(100.0)).unwrap().t.to_bits(),
        0.09_f64.to_bits(),
        "after last → last"
    );
}

/// Moves a playhead on by a stretch of time.
fn advance(p: &mut ReplayPlayer, dt: f64) {
    let moved = f(p.time()) + dt * f(p.speed());
    let wrapped = match p.span() {
        Some((first, last)) => {
            let (a, b) = (f(first), f(last));
            a + (moved - a) % (b - a).max(1e-9)
        }
        None => moved,
    };
    p.advance(r(moved), r(wrapped));
}

#[test]
fn replay_advance_and_stop() {
    let rec = rec(10);
    let mut p = ReplayPlayer::new(&rec);
    for _ in 0..1000 {
        advance(&mut p, 0.01);
    }
    assert_eq!(
        p.time().to_bits(),
        0.09_f64.to_bits(),
        "playhead stops at end"
    );
}

#[test]
fn replay_iter_all_reproduces_samples() {
    let rec = rec(30);
    let p = ReplayPlayer::new(&rec);
    let back: Vec<_> = p.iter_all().iter().cloned().collect();
    assert_eq!(back.len(), 30);
    for (a, b) in rec.samples.iter().zip(&back) {
        assert_eq!(a.t.to_bits(), b.t.to_bits());
    }
}

// ---- further cases ----------------------------------------------------------

const COLUMNS: &str = "t,tru_px,tru_py,tru_pz,tru_vx,tru_vy,tru_vz,tru_qw,tru_qx,tru_qy,tru_qz,tru_wx,tru_wy,tru_wz,est_px,est_py,est_pz,est_vx,est_vy,est_vz,est_qw,est_qx,est_qy,est_qz,est_wx,est_wy,est_wz,sp_qw,sp_qx,sp_qy,sp_qz,sp_thrust,m0,m1,m2,m3,tgb_x,tgb_y,tgb_z,egb_x,egb_y,egb_z";

fn file(rows: &[&str]) -> String {
    let mut s = format!("#pilotrs-recording v1\n#format=csv kind=telemetry columns=42\n{COLUMNS}\n");
    for row in rows {
        s.push_str(row);
        s.push('\n');
    }
    s
}

fn zeros(n: usize) -> String {
    vec!["0"; n].join(",")
}

fn fault(text: &str) -> (usize, ReadErrorKind) {
    let e = Recording::read(text.as_bytes()).unwrap_err();
    (e.line, e.kind)
}

#[test]
fn header_is_written_as_documented() {
    let text = Recording::write(&Vec::new());
    assert_eq!(text, file(&[]));
    assert_eq!(COLUMNS.split(',').count(), COLUMN_COUNT);
    assert_eq!(RECORDING_VERSION, 1);
}

#[test]
fn rows_are_written_with_commas() {
    let row: Vec<String> = (0..42).map(|i| i.to_string()).collect();
    let text = Recording::write(&vec![row.clone()]);
    assert_eq!(text, file(&[&row.join(",")]));
    assert_eq!(Recording::read(text.as_bytes()).unwrap(), vec![row]);
}

#[test]
fn each_fault_names_its_line() {
    assert_eq!(fault(""), (1, ReadErrorKind::EmptyFile));
    assert_eq!(fault("\n"), (1, ReadErrorKind::BadMagic));
    assert_eq!(fault("garbage\n"), (1, ReadErrorKind::BadMagic));
    assert_eq!(fault("#pilotrs-recordingv1\n"), (1, ReadErrorKind::BadMagic));
    assert_eq!(
        fault("#pilotrs-recording v2\n#x\nhdr\n"),
        (1, ReadErrorKind::UnsupportedVersion)
    );
    assert_eq!(fault("#pilotrs-recording\n"), (1, ReadErrorKind::UnsupportedVersion));
    assert_eq!(fault("#pilotrs-recording 1\n"), (1, ReadErrorKind::UnsupportedVersion));
    assert_eq!(fault("#pilotrs-recording v-1\n"), (1, ReadErrorKind::UnsupportedVersion));
    assert_eq!(
        fault("#pilotrs-recording v4294967297\n"),
        (1, ReadErrorKind::UnsupportedVersion)
    );
    assert_eq!(fault("#pilotrs-recording v1"), (2, ReadErrorKind::NoMetadata));
    assert_eq!(fault("#pilotrs-recording v1\nx\n"), (2, ReadErrorKind::BadMetadata));
    assert_eq!(fault("#pilotrs-recording v1\n\n"), (2, ReadErrorKind::BadMetadata));
    assert_eq!(fault("#pilotrs-recording v1\n#\n"), (3, ReadErrorKind::NoColumns));
    assert_eq!(fault("#pilotrs-recording v1\n#\nt,x\n"), (3, ReadErrorKind::BadColumns));
    assert_eq!(fault(&file(&[&zeros(41)])), (4, ReadErrorKind::TooFewColumns));
    assert_eq!(fault(&file(&[&zeros(43)])), (4, ReadErrorKind::TooManyColumns));
    assert_eq!(
        fault(&file(&[&zeros(42), "", &zeros(42).replacen('0', "x", 1)])),
        (6, ReadErrorKind::NonNumericField)
    );
    // A cell that is no number comes before a missing one.
    assert_eq!(fault(&file(&["0,x"])), (4, ReadErrorKind::NonNumericField));
    // Behind the last column the cells are not looked at.
    assert_eq!(
        fault(&file(&[&(zeros(42) + ",x")])),
        (4, ReadErrorKind::TooManyColumns)
    );
}

#[test]
fn bytes_that_are_no_text_are_refused_where_they_stand() {
    let mut bytes = file(&[&zeros(42)]).into_bytes();
    bytes.extend_from_slice(&[0xff, b'\n']);
    let e = Recording::read(&bytes).unwrap_err();
    assert_eq!((e.line, e.kind), (5, ReadErrorKind::NotText));
    let e = Recording::read(&[0xc3, 0x28]).unwrap_err();
    assert_eq!((e.line, e.kind), (1, ReadErrorKind::NotText));
}

#[test]
fn lenient_forms_are_read() {
    // Blank lines, white space around cells, carriage returns, no last line feed, a
    // version with a plus sign and zeros.
    let text = format!(
        "  #pilotrs-recording \u{2003} v+001 more\r\n#\r\n {COLUMNS}\t\r\n\r\n \u{a0}\n{}",
        vec![" 1 "; 42].join(",")
    );
    let rows = Recording::read(text.as_bytes()).unwrap();
    assert_eq!(rows, vec![vec!["1".to_string(); 42]]);
}

#[test]
fn number_texts_are_those_that_parse() {
    let texts = [
        "0", "-0", "+1.5", "1.", ".5", ".", "", "+", "1e5", "1E-5", "1e", "1e+", "e5", "inf",
        "-INF", "Infinity", "infinit", "nan", "+NaN", "nano", "0x10", "1_000", "1 2", "1,5", "--1",
        "1.5.2", "1e5.0", "١", "1.7976931348623157e308", "5e-324", "1.00000000000000000e-2",
    ];
    for t in texts {
        if t.contains(',') {
            continue;
        }
        let mut row = vec!["0"; 42];
        row[7] = t;
        let got = Recording::read(file(&[&row.join(",")]).as_bytes());
        assert_eq!(got.is_ok(), t.trim().parse::<f64>().is_ok(), "{t:?}");
    }
}

#[test]
fn error_messages() {
    assert_eq!(inval(12, "too few columns"), "line 12: too few columns");
    assert_eq!(inval(0, ""), "line 0: ");
    let cases = [
        (ReadErrorKind::EmptyFile, "line 3: empty file"),
        (ReadErrorKind::BadMagic, "line 3: not a pilotrs recording (bad magic)"),
        (ReadErrorKind::UnsupportedVersion, "line 3: unsupported recording version"),
        (ReadErrorKind::NoMetadata, "line 3: missing metadata"),
        (ReadErrorKind::BadMetadata, "line 3: missing metadata line"),
        (ReadErrorKind::NoColumns, "line 3: missing column header"),
        (ReadErrorKind::BadColumns, "line 3: column header does not match schema"),
        (ReadErrorKind::TooFewColumns, "line 3: too few columns"),
        (ReadErrorKind::NonNumericField, "line 3: non-numeric field"),
        (ReadErrorKind::TooManyColumns, "line 3: too many columns"),
        (ReadErrorKind::NotText, "line 3: stream did not contain valid UTF-8"),
    ];
    for (kind, want) in cases {
        assert_eq!(ReadError { line: 3, kind }.message(), want);
    }
}

#[test]
fn a_file_that_is_no_text_is_refused_with_its_line() {
    let e = Recording::read(b"\xff\xfe\n").unwrap_err();
    assert_eq!(e, ReadError { line: 1, kind: ReadErrorKind::NotText });
    assert!(e.message().starts_with("line 1: "));
    let mut bytes = file(&[]).into_bytes();
    bytes.extend_from_slice(b"\xc0\x80\n");
    let e = Recording::read(&bytes).unwrap_err();
    assert!(e.message().starts_with("line 4: "));
}

#[test]
fn columns_are_in_order() {
    let mut v = [r(0.0); 42];
    for (i, slot) in v.iter_mut().enumerate() {
        *slot = r(i as f64);
    }
    let s = sample_from_values(&v);
    assert_eq!(f(s.t), 0.0);
    assert_eq!(f(s.truth.position.x), 1.0);
    assert_eq!(f(s.truth.velocity.z), 6.0);
    assert_eq!(f(s.truth.attitude.w), 7.0);
    assert_eq!(f(s.truth.angular_rate.z), 13.0);
    assert_eq!(f(s.estimate.position.x), 14.0);
    assert_eq!(f(s.estimate.attitude.k), 23.0);
    assert_eq!(f(s.setpoint.attitude.w), 27.0);
    assert_eq!(f(s.setpoint.thrust), 31.0);
    assert_eq!(f(s.motors[0]), 32.0);
    assert_eq!(f(s.motors[3]), 35.0);
    assert_eq!(f(s.true_gyro_bias.x), 36.0);
    assert_eq!(f(s.est_gyro_bias.z), 41.0);
    assert_eq!(sample_values(&s), v);
}

#[test]
fn telemetry_becomes_a_recording() {
    let mut t = Telemetry::new();
    assert!(t.is_empty() && t.last().is_none());
    t.push(sample(0.0, 1.0));
    t.push(sample(1.0, 2.0));
    assert_eq!(t.len(), 2);
    assert_eq!(*t.last().unwrap(), sample(1.0, 2.0));
    let rec = Recording::from_telemetry(t);
    assert_eq!(rec.samples, vec![sample(0.0, 1.0), sample(1.0, 2.0)]);
    assert_eq!(duration(&rec), 1.0);
}

#[test]
fn looping_player_wraps_and_seek_clamps() {
    let rec = rec(10);
    let mut p = ReplayPlayer::new(&rec).with_speed(r(2.0)).looping(true);
    assert_eq!(p.len(), 10);
    assert!(!p.is_empty());
    advance(&mut p, 0.05); // to 0.10, one step past the end at 0.09
    assert!((f(p.time()) - 0.01).abs() < 1e-12);
    p.seek(r(7.0));
    assert_eq!(f(p.time()), 0.09);
    p.seek(r(-7.0));
    assert_eq!(f(p.time()), 0.0);
    p.seek(r(0.055));
    assert_eq!(f(p.current().unwrap().t), 0.05);
    p.reset();
    assert_eq!(f(p.time()), 0.0);
    let (a, b) = p.first_two().unwrap();
    assert_eq!(f(b) - f(a), 0.01);
}

#[test]
fn a_loop_stays_within_its_recording() {
    let rec = rec(10);
    let mut p = ReplayPlayer::new(&rec).looping(true);
    p.advance(r(0.1), r(0.5));
    assert_eq!(f(p.time()), 0.09);
    p.advance(r(0.1), r(-0.5));
    assert_eq!(f(p.time()), 0.0);
    p.advance(r(0.05), r(7.0));
    assert_eq!(f(p.time()), 0.05);
}

#[test]
fn player_without_samples_stays_put() {
    let rec = Recording::default();
    let mut p = ReplayPlayer::new(&rec);
    p.advance(r(3.0), r(1.0));
    p.seek(r(5.0));
    assert_eq!(f(p.time()), 0.0);
    assert!(p.current().is_none());
    assert!(p.span().is_none() && p.first_two().is_none());
}

#[test]
fn a_single_sample_lasts_for_no_time() {
    assert_eq!(duration(&rec(0)), 0.0);
    let mut one = rec(1);
    one.samples[0].t = r(f64::INFINITY);
    assert_eq!(duration(&one), 0.0);
    assert!(one.span().is_none());
    assert!(rec(2).span().is_some());
}
