//! The integers behind the terrain: the hash that its noise is made of, the clouds
//! over it, and the triangles of its meshes.
use vstd::prelude::*;
use crate::number::Real;

verus! {

/// Spreads every bit of a word over the whole word.
pub open spec fn mixed(h: u32) -> u32 {
    let a = h ^ (h >> 16u32);
    let b = a.wrapping_mul(0x7feb_352d);
    let c = b ^ (b >> 15u32);
    let d = c.wrapping_mul(0x846c_a68b);
    d ^ (d >> 16u32)
}

fn mix(h: u32) -> (r: u32)
    ensures
        r == mixed(h),
{
    let a: u32 = h ^ (h >> 16u32);
    let b: u32 = a.wrapping_mul(0x7feb_352d);
    let c: u32 = b ^ (b >> 15u32);
    let d: u32 = c.wrapping_mul(0x846c_a68b);
    d ^ (d >> 16u32)
}

/// The hash of a lattice point of the plane: 24 bits. A coordinate counts by its two's
/// complement.
pub open spec fn hash2(seed: u32, x: u32, y: u32) -> u32 {
    mixed(
        x.wrapping_mul(0x8da6_b343).wrapping_add(y.wrapping_mul(0xd816_3841)).wrapping_add(
            seed.wrapping_mul(0xcb1a_b31f),
        ),
    ) >> 8u32
}

/// The hash of a lattice point of space: 24 bits. A coordinate counts by its two's
/// complement.
pub open spec fn hash3(seed: u32, x: u32, y: u32, z: u32) -> u32 {
    mixed(
        x.wrapping_mul(0x8da6_b343).wrapping_add(y.wrapping_mul(0xd816_3841)).wrapping_add(
            z.wrapping_mul(0x6d2b_79f5),
        ).wrapping_add(seed.wrapping_mul(0xcb1a_b31f)),
    ) >> 8u32
}

/// A landscape, known by its seed.
#[derive(Clone, Copy, Debug, PartialEq, Eq, Structural)]
pub struct Terrain {
    pub seed: u32,
}

impl Terrain {
    pub fn new(seed: u32) -> (r: Terrain)
        ensures
            r == (Terrain { seed }),
    {
        Terrain { seed }
    }

    /// The hash of a lattice point of the plane. Divided by 2^24 it is the noise value
    /// there.
    pub fn hash01(&self, xi: i32, yi: i32) -> (r: u32)
        ensures
            r == hash2(self.seed, xi as u32, yi as u32),
            r < 0x100_0000,
    {
        let x: u32 = xi as u32;
        let y: u32 = yi as u32;
        let h: u32 = mix(
            x.wrapping_mul(0x8da6_b343).wrapping_add(y.wrapping_mul(0xd816_3841)).wrapping_add(
                self.seed.wrapping_mul(0xcb1a_b31f),
            ),
        );
        assert(h >> 8u32 < 0x100_0000) by (bit_vector);
        h >> 8u32
    }

    /// The hash of a lattice point of space. Divided by 2^24 it is the noise value there.
    pub fn hash3_01(&self, xi: i32, yi: i32, zi: i32) -> (r: u32)
        ensures
            r == hash3(self.seed, xi as u32, yi as u32, zi as u32),
            r < 0x100_0000,
    {
        let x: u32 = xi as u32;
        let y: u32 = yi as u32;
        let z: u32 = zi as u32;
        let h: u32 = mix(
            x.wrapping_mul(0x8da6_b343).wrapping_add(y.wrapping_mul(0xd816_3841)).wrapping_add(
                z.wrapping_mul(0x6d2b_79f5),
            ).wrapping_add(self.seed.wrapping_mul(0xcb1a_b31f)),
        );
        assert(h >> 8u32 < 0x100_0000) by (bit_vector);
        h >> 8u32
    }
}

/// A noise value lies in `[0, 1)`: the hash never reaches 2^24.
pub proof fn hash_is_below_one(seed: u32, x: u32, y: u32, z: u32)
    ensures
        hash2(seed, x, y) < 0x100_0000,
        hash3(seed, x, y, z) < 0x100_0000,
{
    let a = mixed(
        x.wrapping_mul(0x8da6_b343).wrapping_add(y.wrapping_mul(0xd816_3841)).wrapping_add(
            seed.wrapping_mul(0xcb1a_b31f),
        ),
    );
    let b = mixed(
        x.wrapping_mul(0x8da6_b343).wrapping_add(y.wrapping_mul(0xd816_3841)).wrapping_add(
            z.wrapping_mul(0x6d2b_79f5),
        ).wrapping_add(seed.wrapping_mul(0xcb1a_b31f)),
    );
    assert(a >> 8u32 < 0x100_0000) by (bit_vector);
    assert(b >> 8u32 < 0x100_0000) by (bit_vector);
}

// ---- clouds -----------------------------------------------------------------

/// How many places around the globe can have a cloud.
pub const CLOUD_PLACES: u32 = 440;

/// A cloud: its height above the datum and the size of its puffs, in metres.
#[derive(Clone, Copy, Debug, PartialEq, Eq, Structural)]
pub struct Cloud {
    pub altitude: u32,
    pub size: u32,
}

pub open spec fn cloud_hash(k: u32) -> u32 {
    let a = k.wrapping_mul(2_654_435_761);
    let b = a ^ (a >> 15u32);
    let c = b.wrapping_mul(2_246_822_519);
    c ^ (c >> 13u32)
}

/// The cloud at place `k`: two in five places are clear sky.
pub open spec fn cloud_value(k: u32) -> Option<Cloud> {
    let h = cloud_hash(k);
    if h % 100 < 40 {
        None
    } else {
        Some(
            Cloud {
                altitude: (780 + (h % 7) * 55) as u32,
                size: (60 + (h % 5) * 12) as u32,
            },
        )
    }
}

/// The cloud at place `k`, if there is one.
pub fn cloud_at(k: u32) -> (r: Option<Cloud>)
    ensures
        r == cloud_value(k),
{
    let a: u32 = k.wrapping_mul(2_654_435_761);
    let b: u32 = a ^ (a >> 15u32);
    let c: u32 = b.wrapping_mul(2_246_822_519);
    let h: u32 = c ^ (c >> 13u32);
    if h % 100 < 40 {
        None
    } else {
        Some(Cloud { altitude: 780 + (h % 7) * 55, size: 60 + (h % 5) * 12 })
    }
}

/// Clouds lie between 780 and 1110 metres and are 60 to 108 metres in size.
pub proof fn clouds_keep_to_their_decks(k: u32)
    ensures
        cloud_value(k) matches Some(c) ==> 780 <= c.altitude <= 1110 && 60 <= c.size <= 108,
{
}

// ---- the flat mesh ----------------------------------------------------------

/// How many vertices a grid of `cells` by `cells` cells has.
pub open spec fn vertices(cells: int) -> int {
    (cells + 1) * (cells + 1)
}

/// The vertex in row `i` and column `j` of a grid.
pub open spec fn grid_vertex(cells: int, i: int, j: int) -> int {
    i * (cells + 1) + j
}

/// The corners of the two triangles of the cell in row `i` and column `j`.
pub open spec fn cell_corners(cells: int, i: int, j: int) -> Seq<int> {
    let v00 = grid_vertex(cells, i, j);
    let v10 = grid_vertex(cells, i + 1, j);
    let v01 = grid_vertex(cells, i, j + 1);
    let v11 = grid_vertex(cells, i + 1, j + 1);
    seq![v00, v01, v11, v00, v11, v10]
}

/// A grid of at least one cell whose vertices can be numbered by 32 bits.
pub open spec fn is_grid(cells: int) -> bool {
    cells >= 1 && vertices(cells) <= 0x1_0000_0000
}

/// The corners of all triangles of a grid, cell by cell and row by row.
pub open spec fn grid_corners(cells: int) -> Seq<u32> {
    Seq::new(
        (6 * (cells * cells)) as nat,
        |n: int| cell_corners(cells, (n / 6) / cells, (n / 6) % cells)[n % 6] as u32,
    )
}

/// A cell's row and column, and the bounds that they keep.
proof fn cell_place(k: int, rows: int, columns: int)
    requires
        rows > 0,
        columns > 0,
        0 <= k < rows * columns,
    ensures
        0 <= k / columns < rows,
        0 <= k % columns < columns,
{
    vstd::arithmetic::div_mod::lemma_fundamental_div_mod(k, columns);
    vstd::arithmetic::div_mod::lemma_mod_bound(k, columns);
    let q = k / columns;
    let r = k % columns;
    assert(0 <= q < rows) by (nonlinear_arith)
        requires
            k == columns * q + r,
            0 <= r < columns,
            0 <= k < rows * columns,
            columns > 0,
            rows > 0,
    ;
}

/// The number of a vertex is below the number of vertices.
proof fn vertex_in_range(rows: int, columns: int, i: int, j: int)
    requires
        0 <= i < rows,
        0 <= j < columns,
    ensures
        0 <= i * columns + j < rows * columns,
{
    assert(0 <= i * columns + j < rows * columns) by (nonlinear_arith)
        requires
            0 <= i < rows,
            0 <= j < columns,
    ;
}

/// Adds the six corners of a cell to a list.
fn push_corners(out: &mut Vec<u32>, a: u32, b: u32, c: u32, d: u32, e: u32, f: u32)
    ensures
        final(out)@ == old(out)@ + seq![a, b, c, d, e, f],
{
    out.push(a);
    out.push(b);
    out.push(c);
    out.push(d);
    out.push(e);
    out.push(f);
    assert(out@ =~= old(out)@ + seq![a, b, c, d, e, f]);
}

impl Terrain {
    /// How many vertices a grid has.
    pub fn vertex_count(cells: usize) -> (r: usize)
        requires
            vertices(cells as int) <= usize::MAX,
        ensures
            r == vertices(cells as int),
    {
        assert(cells + 1 <= vertices(cells as int)) by (nonlinear_arith)
            requires
                vertices(cells as int) == (cells + 1) * (cells + 1),
                cells >= 0,
        ;
        (cells + 1) * (cells + 1)
    }

    /// How many corners its triangles have.
    pub fn index_count(cells: usize) -> (r: usize)
        requires
            6 * cells * cells <= usize::MAX,
        ensures
            r == 6 * cells * cells,
    {
        assert(cells == 0 || 6 * cells <= 6 * cells * cells) by (nonlinear_arith)
            requires
                cells >= 0,
        ;
        assert(cells == 0 ==> 6 * cells == 0);
        6 * cells * cells
    }

    /// The corners of all triangles of the flat mesh.
    pub fn mesh_indices(cells: usize) -> (r: Vec<u32>)
        requires
            is_grid(cells as int),
        ensures
            r@ == grid_corners(cells as int),
    {
        let ghost n = cells as int;
        assert(cells * cells < 0x1_0000_0000 && cells + 1 <= 0x1_0000) by (nonlinear_arith)
            requires
                (cells + 1) * (cells + 1) <= 0x1_0000_0000,
                cells >= 1,
        ;
        let total: usize = cells * cells;
        let mut out: Vec<u32> = Vec::new();
        let mut k: usize = 0;
        while k < total
            invariant
                n == cells,
                n >= 1,
                vertices(n) <= 0x1_0000_0000,
                n + 1 <= 0x1_0000,
                total == n * n,
                k <= total,
                out@.len() == 6 * k,
                forall|m: int| 0 <= m < 6 * k ==> #[trigger] out@[m] == grid_corners(n)[m],
            decreases total - k,
        {
            proof {
                cell_place(k as int, n, n);
                let i = k as int / n;
                let j = k as int % n;
                vertex_in_range(n + 1, n + 1, i + 1, j + 1);
                vertex_in_range(n + 1, n + 1, i, j);
                assert(i * (n + 1) <= (i + 1) * (n + 1)) by (nonlinear_arith)
                    requires
                        n >= 1,
                ;
            }
            let i: usize = k / cells;
            let j: usize = k % cells;
            let side: usize = cells + 1;
            let top: usize = i * side + j;
            let low: usize = (i + 1) * side + j;
            let ghost before = out@;
            push_corners(
                &mut out,
                top as u32,
                (top + 1) as u32,
                (low + 1) as u32,
                top as u32,
                (low + 1) as u32,
                low as u32,
            );
            proof {
                let want = cell_corners(n, i as int, j as int);
                let added = seq![
                    top as u32,
                    (top + 1) as u32,
                    (low + 1) as u32,
                    top as u32,
                    (low + 1) as u32,
                    low as u32,
                ];
                assert forall|m: int| 0 <= m < 6 * (k + 1) implies #[trigger] out@[m] == grid_corners(
                    n,
                )[m] by {
                    if m < 6 * k {
                        assert(out@[m] == before[m]);
                    } else {
                        let c = m - 6 * k;
                        assert(m / 6 == k && m % 6 == c);
                        assert(out@[m] == added[c]);
                        assert(c == 0 || c == 1 || c == 2 || c == 3 || c == 4 || c == 5);
                        assert(added[c] == want[c] as u32);
                    }
                }
            }
            k = k + 1;
        }
        assert(out@ =~= grid_corners(n));
        out
    }
}

/// The triangles of the flat mesh use only vertices that exist, and each has three
/// different corners.
pub proof fn grid_triangles_are_sound(cells: int, i: int, j: int)
    requires
        is_grid(cells),
        0 <= i < cells,
        0 <= j < cells,
    ensures
        forall|c: int|
            0 <= c < 6 ==> 0 <= #[trigger] cell_corners(cells, i, j)[c] < vertices(cells),
        cell_corners(cells, i, j)[0] != cell_corners(cells, i, j)[1],
        cell_corners(cells, i, j)[1] != cell_corners(cells, i, j)[2],
        cell_corners(cells, i, j)[0] != cell_corners(cells, i, j)[2],
        cell_corners(cells, i, j)[3] != cell_corners(cells, i, j)[4],
        cell_corners(cells, i, j)[4] != cell_corners(cells, i, j)[5],
        cell_corners(cells, i, j)[3] != cell_corners(cells, i, j)[5],
{
    vertex_in_range(cells + 1, cells + 1, i, j);
    vertex_in_range(cells + 1, cells + 1, i + 1, j);
    vertex_in_range(cells + 1, cells + 1, i, j + 1);
    vertex_in_range(cells + 1, cells + 1, i + 1, j + 1);
    assert((i + 1) * (cells + 1) == i * (cells + 1) + cells + 1) by (nonlinear_arith);
}

// ---- the globe --------------------------------------------------------------

/// How many vertices a globe of `bands` bands has: a ring of `2 * bands` between any
/// two bands and at each pole.
pub open spec fn globe_vertices(bands: int) -> int {
    (bands + 1) * (2 * bands)
}

/// The vertex in ring `i` at longitude step `j`. The last step of a ring leads back to
/// its first.
pub open spec fn globe_vertex(bands: int, i: int, j: int) -> int {
    i * (2 * bands) + j % (2 * bands)
}

/// The corners of the two triangles of a globe's cell.
pub open spec fn globe_cell(bands: int, i: int, j: int) -> Seq<int> {
    let v00 = globe_vertex(bands, i, j);
    let v01 = globe_vertex(bands, i, j + 1);
    let v10 = globe_vertex(bands, i + 1, j);
    let v11 = globe_vertex(bands, i + 1, j + 1);
    seq![v00, v10, v11, v00, v11, v01]
}

/// A globe of at least two bands whose vertices can be numbered by 32 bits.
pub open spec fn is_globe(bands: int) -> bool {
    bands >= 2 && globe_vertices(bands) <= 0x1_0000_0000
}

/// The corners of all triangles of a globe, ring by ring.
pub open spec fn globe_corners(bands: int) -> Seq<u32> {
    Seq::new(
        (6 * (bands * (2 * bands))) as nat,
        |n: int|
            globe_cell(bands, (n / 6) / (2 * bands), (n / 6) % (2 * bands))[n % 6] as u32,
    )
}

impl Terrain {
    /// The vertex in ring `i` at longitude step `j`.
    pub fn sphere_index(bands: usize, i: usize, j: usize) -> (r: usize)
        requires
            is_globe(bands as int),
            i <= bands,
        ensures
            r == globe_vertex(bands as int, i as int, j as int),
            r < globe_vertices(bands as int),
    {
        proof {
            let b = bands as int;
            assert(2 * b < 0x1_0000_0000) by (nonlinear_arith)
                requires
                    (b + 1) * (2 * b) <= 0x1_0000_0000,
                    b >= 2,
            ;
            vstd::arithmetic::div_mod::lemma_mod_bound(j as int, 2 * b);
            vertex_in_range(b + 1, 2 * b, i as int, j as int % (2 * b));
            assert(0 <= i * (2 * b)) by (nonlinear_arith)
                requires
                    i >= 0,
                    b >= 2,
            ;
        }
        let ring: usize = 2 * bands;
        i * ring + j % ring
    }

    /// The corners of all triangles of the globe.
    pub fn sphere_indices(bands: usize) -> (r: Vec<u32>)
        requires
            is_globe(bands as int),
        ensures
            r@ == globe_corners(bands as int),
    {
        let ghost b = bands as int;
        assert(2 * bands < 0x1_0000_0000 && bands * (2 * bands) < 0x1_0000_0000) by (nonlinear_arith)
            requires
                (bands + 1) * (2 * bands) <= 0x1_0000_0000,
                bands >= 2,
        ;
        let ring: usize = 2 * bands;
        let total: usize = bands * ring;
        let mut out: Vec<u32> = Vec::new();
        let mut k: usize = 0;
        while k < total
            invariant
                b == bands,
                is_globe(b),
                ring == 2 * b,
                total == b * (2 * b),
                k <= total,
                out@.len() == 6 * k,
                forall|m: int| 0 <= m < 6 * k ==> #[trigger] out@[m] == globe_corners(b)[m],
            decreases total - k,
        {
            proof {
                cell_place(k as int, b, 2 * b);
            }
            let i: usize = k / ring;
            let j: usize = k % ring;
            let v00: u32 = Self::sphere_index(bands, i, j) as u32;
            let v01: u32 = Self::sphere_index(bands, i, j + 1) as u32;
            let v10: u32 = Self::sphere_index(bands, i + 1, j) as u32;
            let v11: u32 = Self::sphere_index(bands, i + 1, j + 1) as u32;
            let ghost before = out@;
            push_corners(&mut out, v00, v10, v11, v00, v11, v01);
            proof {
                let want = globe_cell(b, i as int, j as int);
                let added = seq![v00, v10, v11, v00, v11, v01];
                assert forall|m: int| 0 <= m < 6 * (k + 1) implies #[trigger] out@[m]
                    == globe_corners(b)[m] by {
                    if m < 6 * k {
                        assert(out@[m] == before[m]);
                    } else {
                        let c = m - 6 * k;
                        assert(m / 6 == k && m % 6 == c);
                        assert(out@[m] == added[c]);
                        assert(c == 0 || c == 1 || c == 2 || c == 3 || c == 4 || c == 5);
                        assert(added[c] == want[c] as u32);
                    }
                }
            }
            k = k + 1;
        }
        assert(out@ =~= globe_corners(b));
        out
    }
}

/// The triangles of the globe use only vertices that exist, each has three different
/// corners, and the last cell of a ring closes it.
pub proof fn globe_triangles_are_sound(bands: int, i: int, j: int)
    requires
        is_globe(bands),
        0 <= i < bands,
        0 <= j < 2 * bands,
    ensures
        forall|c: int|
            0 <= c < 6 ==> 0 <= #[trigger] globe_cell(bands, i, j)[c] < globe_vertices(bands),
        globe_cell(bands, i, j)[0] != globe_cell(bands, i, j)[1],
        globe_cell(bands, i, j)[1] != globe_cell(bands, i, j)[2],
        globe_cell(bands, i, j)[0] != globe_cell(bands, i, j)[2],
        globe_cell(bands, i, j)[3] != globe_cell(bands, i, j)[4],
        globe_cell(bands, i, j)[4] != globe_cell(bands, i, j)[5],
        globe_cell(bands, i, j)[3] != globe_cell(bands, i, j)[5],
        globe_vertex(bands, i, 2 * bands) == globe_vertex(bands, i, 0),
{
    let ring = 2 * bands;
    let east = (j + 1) % ring;
    vstd::arithmetic::div_mod::lemma_mod_bound(j + 1, ring);
    vstd::arithmetic::div_mod::lemma_small_mod(j as nat, ring as nat);
    if j + 1 < ring {
        vstd::arithmetic::div_mod::lemma_small_mod((j + 1) as nat, ring as nat);
    } else {
        vstd::arithmetic::div_mod::lemma_mod_self_0(ring);
    }
    vstd::arithmetic::div_mod::lemma_mod_self_0(ring);
    vstd::arithmetic::div_mod::lemma_small_mod(0, ring as nat);
    vertex_in_range(bands + 1, ring, i, j);
    vertex_in_range(bands + 1, ring, i, east);
    vertex_in_range(bands + 1, ring, i + 1, j);
    vertex_in_range(bands + 1, ring, i + 1, east);
    assert((i + 1) * ring == i * ring + ring) by (nonlinear_arith);
}

/// Where a point lies with respect to the flat field around home.
#[derive(Clone, Copy, Debug, PartialEq, Eq, Structural)]
pub enum HomeZone {
    /// On the field.
    Flat,
    /// Where the field blends into the land.
    Blend,
    /// Beyond.
    Open,
}

/// Where a point at distance `r` from home lies. The field reaches to `inner`, the blend to
/// `outer`; an `outer` that is no larger leaves no room for a blend.
pub open spec fn home_zone_value(r: Real, inner: Real, outer: Real) -> HomeZone {
    if r.at_most(inner) {
        HomeZone::Flat
    } else if outer.at_most(inner) || outer.at_most(r) {
        HomeZone::Open
    } else {
        HomeZone::Blend
    }
}

/// Where a point at distance `r` from home lies.
pub fn home_zone(r: Real, inner: Real, outer: Real) -> (z: HomeZone)
    ensures
        z == home_zone_value(r, inner, outer),
{
    if r.le(inner) {
        HomeZone::Flat
    } else if outer.le(inner) || outer.le(r) {
        HomeZone::Open
    } else {
        HomeZone::Blend
    }
}

/// A blend is only ever worked out strictly between the two radii, so its width is never
/// zero.
pub proof fn blend_has_a_width(r: Real, inner: Real, outer: Real)
    requires
        r.is_number(),
        inner.is_number(),
        outer.is_number(),
        home_zone_value(r, inner, outer) is Blend,
    ensures
        inner.less(r),
        r.less(outer),
        inner.less(outer),
{
}

/// A colour.
#[derive(Clone, Copy, Debug, PartialEq, Eq, Structural)]
pub struct Rgb {
    pub r: u8,
    pub g: u8,
    pub b: u8,
}

/// A stretch of the colour ramp of the land.
#[derive(Clone, Copy, Debug, PartialEq, Eq, Structural)]
pub struct Band {
    /// The colour at the lower end.
    pub from: Rgb,
    /// The colour at the upper end.
    pub to: Rgb,
    /// Where the band starts.
    pub start: Real,
    /// How wide it is; none for the topmost, which has one colour.
    pub width: Option<Real>,
}

pub open spec fn band(from: Rgb, to: Rgb, start: u64, width: u64) -> Band {
    Band { from, to, start: Real { bits: start }, width: Some(Real { bits: width }) }
}

/// The bands of the land by height: shore, lowland, grass, dry land, rock, snow. The bounds
/// are 0.035, 0.3, 0.55, 0.78 and 0.86 as single-precision numbers have them.
pub open spec fn land_bands() -> Seq<Band> {
    let shore = Rgb { r: 216, g: 205, b: 158 };
    let lowland = Rgb { r: 54, g: 126, b: 50 };
    let grass = Rgb { r: 92, g: 152, b: 58 };
    let tan = Rgb { r: 162, g: 150, b: 102 };
    let rock = Rgb { r: 124, g: 116, b: 108 };
    let snow = Rgb { r: 245, g: 249, b: 253 };
    seq![
        band(shore, lowland, 0, 0x3fa1_eb85_2000_0000),
        band(lowland, grass, 0x3fa1_eb85_2000_0000, 0x3fd0_f5c2_8000_0000),
        band(grass, tan, 0x3fd3_3333_4000_0000, 0x3fd0_0000_0000_0000),
        band(tan, rock, 0x3fe1_9999_a000_0000, 0x3fcd_70a3_e000_0000),
        band(rock, snow, 0x3fe8_f5c2_8000_0000, 0x3fb4_7ae1_4000_0000),
        Band { from: snow, to: snow, start: Real { bits: 0x3feb_851e_c000_0000 }, width: None },
    ]
}

/// Which band a height belongs to: the lowest whose upper bound it does not reach.
pub open spec fn land_band_index(t: Real) -> int {
    if t.less(land_bands()[1].start) {
        0
    } else if t.less(land_bands()[2].start) {
        1
    } else if t.less(land_bands()[3].start) {
        2
    } else if t.less(land_bands()[4].start) {
        3
    } else if t.less(land_bands()[5].start) {
        4
    } else {
        5
    }
}

fn ramp(from: Rgb, to: Rgb, start: u64, width: u64) -> (r: Band)
    ensures
        r == band(from, to, start, width),
{
    Band { from, to, start: Real::from_bits(start), width: Some(Real::from_bits(width)) }
}

/// The band of the colour ramp that a height belongs to; `t` is the height as a share of the
/// highest.
pub fn land_band(t: Real) -> (r: Band)
    ensures
        r == land_bands()[land_band_index(t)],
{
    let shore = Rgb { r: 216, g: 205, b: 158 };
    let lowland = Rgb { r: 54, g: 126, b: 50 };
    let grass = Rgb { r: 92, g: 152, b: 58 };
    let tan = Rgb { r: 162, g: 150, b: 102 };
    let rock = Rgb { r: 124, g: 116, b: 108 };
    let snow = Rgb { r: 245, g: 249, b: 253 };
    if t.lt(Real::from_bits(0x3fa1_eb85_2000_0000)) {
        ramp(shore, lowland, 0, 0x3fa1_eb85_2000_0000)
    } else if t.lt(Real::from_bits(0x3fd3_3333_4000_0000)) {
        ramp(lowland, grass, 0x3fa1_eb85_2000_0000, 0x3fd0_f5c2_8000_0000)
    } else if t.lt(Real::from_bits(0x3fe1_9999_a000_0000)) {
        ramp(grass, tan, 0x3fd3_3333_4000_0000, 0x3fd0_0000_0000_0000)
    } else if t.lt(Real::from_bits(0x3fe8_f5c2_8000_0000)) {
        ramp(tan, rock, 0x3fe1_9999_a000_0000, 0x3fcd_70a3_e000_0000)
    } else if t.lt(Real::from_bits(0x3feb_851e_c000_0000)) {
        ramp(rock, snow, 0x3fe8_f5c2_8000_0000, 0x3fb4_7ae1_4000_0000)
    } else {
        Band {
            from: snow,
            to: snow,
            start: Real::from_bits(0x3feb_851e_c000_0000),
            width: None,
        }
    }
}

/// The ramp has no jumps: every band starts with the colour that the one below ends with,
/// and the bands follow each other upwards.
pub proof fn bands_meet(i: int)
    requires
        0 <= i < 5,
    ensures
        land_bands()[i].to == land_bands()[i + 1].from,
        land_bands()[i].start.less(land_bands()[i + 1].start),
{
}

/// A height lies within its band.
pub proof fn height_lies_in_its_band(t: Real)
    requires
        Real::zero_value().at_most(t),
    ensures
        0 <= land_band_index(t) < land_bands().len(),
        land_bands()[land_band_index(t)].start.at_most(t),
        land_band_index(t) < 5 ==> t.less(land_bands()[land_band_index(t) + 1].start),
{
}

/// The plane is the space at height 0: its noise is the same, and so is that of a landscape
/// whose seed is 0 at the origin, which is none.
pub proof fn plane_is_the_space_at_height_zero(seed: u32, x: u32, y: u32)
    ensures
        hash3(seed, x, y, 0) == hash2(seed, x, y),
        hash2(0, 0, 0) == 0,
{
    assert(0u32.wrapping_mul(0x6d2b_79f5) == 0);
    let h = x.wrapping_mul(0x8da6_b343).wrapping_add(y.wrapping_mul(0xd816_3841));
    assert(h.wrapping_add(0) == h);
    assert(0u32.wrapping_mul(0x8da6_b343) == 0);
    assert(0u32.wrapping_mul(0xd816_3841) == 0);
    assert(0u32.wrapping_mul(0xcb1a_b31f) == 0);
    assert(mixed(0) >> 8u32 == 0) by {
        assert(0u32 ^ (0u32 >> 16u32) == 0) by (bit_vector);
        assert(0u32 ^ (0u32 >> 15u32) == 0) by (bit_vector);
        assert(0u32.wrapping_mul(0x7feb_352d) == 0);
        assert(0u32.wrapping_mul(0x846c_a68b) == 0);
        assert(0u32 >> 8u32 == 0) by (bit_vector);
    }
}

/// A place has a cloud exactly if its hash says so; height and size come in steps, seven and
/// five of them.
pub proof fn clouds_come_in_steps(k: u32)
    ensures
        cloud_value(k) is Some <==> cloud_hash(k) % 100 >= 40,
        cloud_value(k) matches Some(c) ==> c.altitude == 780 + 55 * (cloud_hash(k) % 7) && c.size
            == 60 + 12 * (cloud_hash(k) % 5),
{
}

/// A cell of the flat mesh lies between two rows and two columns of vertices, and its two
/// triangles share the diagonal from its first corner to the opposite one, turning the same way.
pub proof fn grid_cell_lies_between_its_vertices(cells: int, i: int, j: int)
    ensures
        vertices(cells) == (cells + 1) * (cells + 1),
        ({
            let side = cells + 1;
            let c = cell_corners(cells, i, j);
            &&& c.len() == 6
            &&& c[0] == i * side + j && c[1] == i * side + j + 1
            &&& c[2] == (i + 1) * side + j + 1
            &&& c[3] == c[0] && c[4] == c[2] && c[5] == (i + 1) * side + j
        }),
{
}

/// The flat mesh goes through its cells row by row, six corners each.
pub proof fn grid_goes_row_by_row(cells: int, i: int, j: int, c: int)
    requires
        is_grid(cells),
        0 <= i < cells,
        0 <= j < cells,
        0 <= c < 6,
    ensures
        grid_corners(cells).len() == 6 * (cells * cells),
        grid_corners(cells)[6 * (i * cells + j) + c] == cell_corners(cells, i, j)[c],
{
    vertex_in_range(cells, cells, i, j);
    let k = i * cells + j;
    let n = 6 * k + c;
    assert(n / 6 == k && n % 6 == c);
    vstd::arithmetic::div_mod::lemma_fundamental_div_mod_converse(k, cells, i, j);
    assert(0 <= cells * cells) by (nonlinear_arith)
        requires
            cells >= 1,
    ;
    grid_triangles_are_sound(cells, i, j);
    assert(cell_corners(cells, i, j)[c] < 0x1_0000_0000);
}

/// A cell of the globe lies between two rings and two steps of longitude, the last step being
/// the first again, and its two triangles share the diagonal, turning the same way.
pub proof fn globe_cell_lies_between_its_rings(bands: int, i: int, j: int)
    requires
        bands >= 2,
        0 <= i < bands,
        0 <= j < 2 * bands,
    ensures
        globe_vertices(bands) == (bands + 1) * (2 * bands),
        ({
            let ring = 2 * bands;
            let east = if j + 1 == ring {
                0
            } else {
                j + 1
            };
            let c = globe_cell(bands, i, j);
            &&& c.len() == 6
            &&& c[0] == i * ring + j && c[1] == (i + 1) * ring + j
            &&& c[2] == (i + 1) * ring + east
            &&& c[3] == c[0] && c[4] == c[2] && c[5] == i * ring + east
        }),
{
    let ring = 2 * bands;
    vstd::arithmetic::div_mod::lemma_small_mod(j as nat, ring as nat);
    if j + 1 < ring {
        vstd::arithmetic::div_mod::lemma_small_mod((j + 1) as nat, ring as nat);
    } else {
        vstd::arithmetic::div_mod::lemma_mod_self_0(ring);
    }
}

/// The globe goes through its cells ring by ring, six corners each.
pub proof fn globe_goes_ring_by_ring(bands: int, i: int, j: int, c: int)
    requires
        is_globe(bands),
        0 <= i < bands,
        0 <= j < 2 * bands,
        0 <= c < 6,
    ensures
        globe_corners(bands).len() == 6 * (bands * (2 * bands)),
        globe_corners(bands)[6 * (i * (2 * bands) + j) + c] == globe_cell(bands, i, j)[c],
{
    let ring = 2 * bands;
    vertex_in_range(bands, ring, i, j);
    let k = i * ring + j;
    let n = 6 * k + c;
    assert(n / 6 == k && n % 6 == c);
    vstd::arithmetic::div_mod::lemma_fundamental_div_mod_converse(k, ring, i, j);
    assert(0 <= bands * ring) by (nonlinear_arith)
        requires
            bands >= 2,
            ring == 2 * bands,
    ;
    globe_triangles_are_sound(bands, i, j);
    assert(globe_cell(bands, i, j)[c] < 0x1_0000_0000);
}

/// The field around home reaches up to its inner radius; from the outer one on, or right behind
/// the field if there is no room, the land is open; in between the two blend.
pub proof fn field_ends_at_its_radius(r: Real, inner: Real, outer: Real)
    requires
        r.is_number(),
        inner.is_number(),
        outer.is_number(),
    ensures
        home_zone_value(r, inner, outer) is Flat <==> r.at_most(inner),
        home_zone_value(r, inner, outer) is Blend <==> inner.less(r) && r.less(outer),
        home_zone_value(r, inner, outer) is Open <==> inner.less(r) && outer.at_most(r),
{
}

/// There are six bands. All but the topmost have a width; that one has a single colour, the
/// brightest. The lowest starts at 0.
pub proof fn ramp_ends_in_snow(i: int)
    requires
        0 <= i < 5,
    ensures
        land_bands().len() == 6,
        land_bands()[i].width is Some,
        land_bands()[5].width is None,
        land_bands()[5].from == land_bands()[5].to,
        land_bands()[0].start == Real::zero_value(),
        land_bands()[i].from.r < land_bands()[5].to.r,
        land_bands()[i].from.g < land_bands()[5].to.g,
        land_bands()[i].from.b < land_bands()[5].to.b,
{
}

/// A height belongs to the band whose start it has reached and whose end it has not, the end of
/// a band being the start of the next: up to 0.035, 0.3, 0.55, 0.78 and 0.86 of the highest.
pub proof fn higher_land_has_a_higher_band(a: Real, b: Real)
    requires
        a.at_most(b),
    ensures
        land_band_index(a) <= land_band_index(b),
        a.less(Real { bits: 0x3fa1_eb85_2000_0000 }) <==> land_band_index(a) == 0,
        a.less(Real { bits: 0x3fd3_3333_4000_0000 }) <==> land_band_index(a) <= 1,
        a.less(Real { bits: 0x3fe1_9999_a000_0000 }) <==> land_band_index(a) <= 2,
        a.less(Real { bits: 0x3fe8_f5c2_8000_0000 }) <==> land_band_index(a) <= 3,
        a.less(Real { bits: 0x3feb_851e_c000_0000 }) <==> land_band_index(a) <= 4,
{
}

/// Without room between the two radii there is no blend, not even at a distance that is no
/// number.
pub proof fn no_room_no_blend(r: Real, inner: Real, outer: Real)
    requires
        outer.at_most(inner),
    ensures
        home_zone_value(r, inner, outer) is Flat <==> r.at_most(inner),
        home_zone_value(r, inner, outer) is Open <==> !r.at_most(inner),
{
}

} // verus!
