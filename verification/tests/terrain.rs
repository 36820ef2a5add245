use pilotrs::number::Real;
use pilotrs::terrain::{home_zone, land_band, HomeZone, Rgb, Terrain, CLOUD_PLACES};
use three_d::{vec3, CpuMesh, Indices, InnerSpace, Positions, Srgba};

/// A flat tile of a map, `z` down.
fn flat_mesh(cells: usize) -> CpuMesh {
    let mut p = Vec::new();
    for i in 0..=cells {
        for j in 0..=cells {
            p.push(vec3(i as f32, j as f32, 0.0));
        }
    }
    CpuMesh {
        normals: Some(vec![vec3(0.0, 0.0, -1.0); p.len()]),
        colors: Some(vec![Srgba::WHITE; p.len()]),
        positions: Positions::F32(p),
        indices: Indices::U32(Terrain::mesh_indices(cells)),
        ..Default::default()
    }
}

/// A smooth ball.
fn ball_mesh(bands: usize) -> CpuMesh {
    let pi = core::f32::consts::PI;
    let ring = 2 * bands;
    let mut p = Vec::new();
    for i in 0..=bands {
        for j in 0..ring {
            let (sp, cp) = (pi * i as f32 / bands as f32).sin_cos();
            let (st, ct) = (2.0 * pi * j as f32 / ring as f32).sin_cos();
            p.push(vec3(sp * ct, sp * st, cp) * 6371.0);
        }
    }
    // Normals from the neighbours, but at the poles.
    let at = |i: usize, j: usize| p[Terrain::sphere_index(bands, i, j)];
    let mut normals = Vec::new();
    for i in 0..=bands {
        for j in 0..ring {
            let up = at(i, j).normalize();
            normals.push(if i == 0 || i == bands {
                up
            } else {
                let east = at(i, j + 1) - at(i, j + ring - 1);
                let south = at(i + 1, j) - at(i - 1, j);
                south.cross(east).normalize()
            });
        }
    }
    CpuMesh {
        normals: Some(normals),
        positions: Positions::F32(p),
        indices: Indices::U32(Terrain::sphere_indices(bands)),
        ..Default::default()
    }
}

#[test]
fn mesh_counts() {
    let cells = 200;
    assert_eq!(Terrain::vertex_count(cells), 201 * 201);
    assert_eq!(Terrain::index_count(cells), 6 * 200 * 200);
    let mesh = flat_mesh(cells);
    assert_eq!(mesh.positions.len(), Terrain::vertex_count(cells));
    assert_eq!(mesh.indices.len(), Some(Terrain::index_count(cells)), "U32 index buffer length");
    assert_eq!(mesh.normals.as_ref().map(|v| v.len()), Some(Terrain::vertex_count(cells)));
    assert_eq!(mesh.colors.as_ref().map(|v| v.len()), Some(Terrain::vertex_count(cells)));
}

#[test]
fn indices_in_range() {
    let cells = 8;
    let mesh = flat_mesh(cells);
    let vcount = Terrain::vertex_count(cells) as u32;
    if let Indices::U32(ref ix) = mesh.indices {
        assert!(ix.iter().all(|&i| i < vcount), "index out of range");
    } else {
        panic!("expected U32 indices");
    }
}

#[test]
fn winding_matches_up_normal() {
    let cells = 16;
    let mesh = flat_mesh(cells);
    let (pos, ix) = match (&mesh.positions, &mesh.indices) {
        (Positions::F32(p), Indices::U32(i)) => (p, i),
        _ => panic!("expected F32/U32"),
    };
    let mut checked = 0;
    for tri in ix.chunks_exact(3) {
        let p0 = pos[tri[0] as usize];
        let u = pos[tri[1] as usize] - p0;
        let v = pos[tri[2] as usize] - p0;
        // Up in NED is -z, so an up-facing front face has cross.z < 0.
        let cz = u.x * v.y - u.y * v.x;
        assert!(cz < 0.0, "triangle winding should face up (-z): cross.z = {cz}");
        checked += 1;
    }
    assert_eq!(checked, Terrain::index_count(cells) / 3);
}

#[test]
fn sphere_mesh_is_valid() {
    let bands = 8usize;
    let m = ball_mesh(bands);
    let verts = (bands + 1) * (2 * bands);
    assert_eq!(m.positions.len(), verts);
    match (&m.positions, &m.indices, &m.normals) {
        (Positions::F32(p), Indices::U32(ix), Some(nr)) => {
            assert_eq!(ix.len(), 6 * bands * (2 * bands));
            assert!(ix.iter().all(|&i| (i as usize) < verts), "index out of range");
            let mut checked = 0;
            for (pos, n) in p.iter().zip(nr) {
                if pos.magnitude() > 1.0 {
                    assert!(n.dot(pos.normalize()) > 0.0, "normal not outward");
                    checked += 1;
                }
            }
            assert!(checked > 0);
        }
        _ => panic!("expected F32 positions, U32 indices, normals"),
    }
}

#[test]
fn sphere_mesh_winding_faces_outward() {
    let bands = 24usize;
    let lon_n = 2 * bands;
    let rows = bands + 1;
    let m = ball_mesh(bands);
    let (pos, ix) = match (&m.positions, &m.indices) {
        (Positions::F32(p), Indices::U32(i)) => (p, i),
        _ => panic!("expected F32/U32"),
    };
    // A vertex on the north (band 0) or south (band `bands`) pole row.
    let is_pole = |v: u32| {
        let band = v as usize / lon_n;
        band == 0 || band == rows - 1
    };
    let mut checked = 0;
    for tri in ix.chunks_exact(3) {
        if tri.iter().any(|&v| is_pole(v)) {
            continue; // skip the two pole-cap rows
        }
        let a = pos[tri[0] as usize];
        let b = pos[tri[1] as usize];
        let c = pos[tri[2] as usize];
        let geo = (b - a).cross(c - a);
        let centroid = (a + b + c) / 3.0;
        assert!(geo.dot(centroid) > 0.0, "body triangle winding faces inward");
        checked += 1;
    }
    assert!(checked > 100, "too few body triangles checked: {checked}");
}

#[test]
fn cells_are_split_into_two_triangles() {
    assert_eq!(Terrain::mesh_indices(1), vec![0, 1, 3, 0, 3, 2]);
    let ix = Terrain::mesh_indices(2);
    assert_eq!(&ix[18..24], &[4, 5, 8, 4, 8, 7]);
    // The last cell of a ring closes it.
    let ix = Terrain::sphere_indices(2);
    assert_eq!(&ix[0..6], &[0, 4, 5, 0, 5, 1]);
    assert_eq!(&ix[18..24], &[3, 7, 4, 3, 4, 0]);
    assert_eq!(Terrain::sphere_index(2, 1, 5), 5);
    assert_eq!(Terrain::sphere_index(2, 2, 3), 11);
}

#[test]
fn same_seed_gives_the_same_hash() {
    let a = Terrain::new(42);
    let b = Terrain::new(42);
    let samples = [(0, 0), (123, -88), (-400, 400), (12, 312), (-250, -17)];
    for (n, e) in samples {
        assert_eq!(a.hash01(n, e), b.hash01(n, e), "not reproducible at ({n}, {e})");
        assert_eq!(a.hash3_01(n, e, 7), b.hash3_01(n, e, 7));
    }
}

#[test]
fn another_seed_gives_another_hash() {
    let a = Terrain::new(1);
    let b = Terrain::new(2);
    let differs = (-400..=400).step_by(50).any(|n| a.hash01(n, 0) != b.hash01(n, 0));
    assert!(differs, "different seeds should change the field");
}

/// The hash, written out once more with wider integers.
fn reference(seed: u32, terms: &[(i32, u64)]) -> u32 {
    let word = 1u64 << 32;
    let mut h = (seed as u64 * 0xCB1A_B31F) % word;
    for (x, k) in terms {
        h = (h + (*x as u32 as u64 * k) % word) % word;
    }
    h ^= h >> 16;
    h = (h * 0x7FEB_352D) % word;
    h ^= h >> 15;
    h = (h * 0x846C_A68B) % word;
    h ^= h >> 16;
    (h >> 8) as u32
}

#[test]
fn hash_values() {
    let t = Terrain::new(0x5EED_1234);
    for x in [-70000, -1, 0, 1, 17, 123456789] {
        for y in [-5, 0, 2, 99999] {
            let want = reference(0x5EED_1234, &[(x, 0x8DA6_B343), (y, 0xD816_3841)]);
            assert_eq!(t.hash01(x, y), want);
            assert!(want < 1 << 24);
            for z in [-3, 0, 8] {
                let want = reference(
                    0x5EED_1234,
                    &[(x, 0x8DA6_B343), (y, 0xD816_3841), (z, 0x6D2B_79F5)],
                );
                assert_eq!(t.hash3_01(x, y, z), want);
            }
        }
    }
}

#[test]
fn clouds_leave_clear_sky() {
    let clouds: Vec<_> = (0..CLOUD_PLACES).filter_map(pilotrs::terrain::cloud_at).collect();
    assert!(clouds.len() > 200 && clouds.len() < 330, "{}", clouds.len());
    for c in clouds {
        assert!(c.altitude >= 780 && c.altitude <= 1110 && (c.altitude - 780) % 55 == 0);
        assert!(c.size >= 60 && c.size <= 108 && (c.size - 60) % 12 == 0);
    }
    // Place 0 hashes to 0: clear.
    assert!(pilotrs::terrain::cloud_at(0).is_none());
}

fn r(x: f64) -> Real {
    Real::from_bits(x.to_bits())
}

/// How far the land has blended in at a distance from home.
fn home_blend(d: f64, inner: f64, outer: f64) -> f64 {
    match home_zone(r(d), r(inner), r(outer)) {
        HomeZone::Flat => 0.0,
        HomeZone::Open => 1.0,
        HomeZone::Blend => (d - inner) / (outer - inner),
    }
}

#[test]
fn home_blend_handles_degenerate() {
    // Equal and inverted spans, sampled across and just past `inner`.
    for &(inner, outer) in &[(170.0_f64, 170.0_f64), (200.0, 100.0), (50.0, 50.0)] {
        let mut d = 0.0_f64;
        while d <= outer.max(inner) + 50.0 {
            let b = home_blend(d, inner, outer);
            assert!(b.is_finite(), "home_blend NaN/inf at r={d} ({inner},{outer})");
            assert!((0.0..=1.0).contains(&b), "home_blend out of [0,1]: {b}");
            assert_eq!(b, if d <= inner { 0.0 } else { 1.0 });
            d += 7.0;
        }
    }
    assert_eq!(home_blend(150.0, 100.0, 200.0), 0.5);
    assert_eq!(home_blend(200.0, 100.0, 200.0), 1.0);
}

#[test]
fn heights_have_their_colours() {
    let at = |t: f32| land_band(r(t as f64));
    assert_eq!(at(0.0).from, Rgb { r: 216, g: 205, b: 158 });
    assert_eq!(at(0.0).to, at(0.035).from);
    assert_eq!(at(0.29).to, at(0.30).from);
    assert_eq!(at(0.54).to, at(0.55).from);
    assert_eq!(at(0.77).to, at(0.78).from);
    assert_eq!(at(0.85).to, at(0.9).from);
    assert_eq!(at(1.0).width, None);
    let tan = at(0.6);
    assert_eq!(tan.start, r(0.55f32 as f64));
    assert_eq!(tan.width, Some(r(0.23f32 as f64)));
}
