//! The texture metadata cache: a two-dimensional table of texture metadata
//! indexed by the base-2 logarithm of width and height, populated eagerly
//! for every power-of-two size up to the backend's default maximum texture
//! dimension, so draw-time lookups never allocate and never round a size.

use vstd::prelude::*;
use vstd::arithmetic::power2::pow2;
use vstd::arithmetic::power2::lemma_pow2_pos;
use vstd::arithmetic::power2::lemma_pow2_strictly_increases;
use vstd::arithmetic::power2::lemma_pow2_unfold;
use vstd::arithmetic::power2::lemma2_to64;

verus! {

/// The backend's default maximum two-dimensional texture extent. The cache
/// is sized from this default rather than the current device's limit, so
/// behavior is consistent across heterogeneous hardware.
pub const DEFAULT_MAX_TEXTURE_DIMENSION_2D: u32 = 8192;

/// Row alignment the backend demands of buffer-to-texture copies: the byte
/// stride of each pixel row must be a multiple of this.
pub const COPY_BYTES_PER_ROW_ALIGNMENT: u32 = 256;

/// Requesting a size that is not a power of two, or that exceeds the
/// table's bound, is a caller error, surfaced and never silently rounded.
#[derive(Clone, Copy, Debug, PartialEq, Eq, Structural)]
pub enum TextureCacheError {
    UnsupportedSize,
}

/// What the engine's logic reads of one precomputed texture object: its
/// pixel dimensions and the byte layout of a full-texture upload. The GPU
/// objects themselves (texture, view, sampler, bind group) are owned by the
/// application executor, in a table of the same shape.
#[derive(Clone, Copy, Debug, PartialEq, Eq, Structural)]
pub struct TextureMetadataEntry {
    pub width: u32,
    pub height: u32,
    pub bytes_per_row: u32,
    pub rows_per_image: u32,
}

/// The byte stride of one row of `width` RGBA8 pixels, rounded up to the
/// backend's copy alignment.
pub open spec fn aligned_bytes_per_row(width: nat) -> nat {
    ((4 * width + 255) / 256) * 256
}

/// The table entry for the size `2^w_exp` by `2^h_exp`.
pub open spec fn entry_spec(w_exp: nat, h_exp: nat) -> TextureMetadataEntry {
    TextureMetadataEntry {
        width: pow2(w_exp) as u32,
        height: pow2(h_exp) as u32,
        bytes_per_row: aligned_bytes_per_row(pow2(w_exp)) as u32,
        rows_per_image: pow2(h_exp) as u32,
    }
}

/// Both dimensions are powers of two no larger than `2^max_exp`.
pub open spec fn size_supported(max_exp: nat, width: u32, height: u32) -> bool {
    (exists|e: nat| e <= max_exp && pow2(e) == width)
        && (exists|e: nat| e <= max_exp && pow2(e) == height)
}

/// The exponent of a power of two (meaningful only when one exists).
pub open spec fn exp_of(n: u32) -> nat {
    choose|e: nat| pow2(e) == n
}

/// The eagerly populated 2-D metadata table. Entry `[w][h]` describes the
/// texture of size `2^w` by `2^h`; both axes run from 0 to `max_exponent`
/// inclusive. Zero-sized entries cannot exist: every stored width and
/// height is a power of two, hence positive.
pub struct TextureMetadataCache {
    max_exponent: u32,
    entries: Vec<Vec<TextureMetadataEntry>>,
}

impl TextureMetadataCache {
    /// The largest exponent the table covers on each axis.
    pub closed spec fn max_exp(self) -> nat {
        self.max_exponent as nat
    }

    /// The table is full and every entry holds exactly the metadata of its
    /// power-of-two size.
    pub closed spec fn wf(self) -> bool {
        &&& self.max_exponent <= 29
        &&& self.entries@.len() == self.max_exponent + 1
        &&& forall|w: int|
            0 <= w < self.entries@.len() ==> (#[trigger] self.entries@[w])@.len()
                == self.max_exponent + 1
        &&& forall|w: int, h: int|
            0 <= w <= self.max_exponent && 0 <= h <= self.max_exponent
                ==> (#[trigger] self.entries@[w]@[h]) == entry_spec(w as nat, h as nat)
    }

    /// What a lookup returns: the entry at `(log2 width, log2 height)` when
    /// the size is supported, and `UnsupportedSize` otherwise.
    pub open spec fn lookup(self, width: u32, height: u32) -> Result<
        TextureMetadataEntry,
        TextureCacheError,
    > {
        if size_supported(self.max_exp(), width, height) {
            Ok(entry_spec(exp_of(width), exp_of(height)))
        } else {
            Err(TextureCacheError::UnsupportedSize)
        }
    }

    pub fn max_exponent(&self) -> (e: u32)
        ensures
            e == self.max_exp(),
    {
        self.max_exponent
    }

    /// Builds the table, populating every entry for `width = 2^w`,
    /// `height = 2^h` with `w, h` in `[0, max_exponent]`, where
    /// `max_exponent` is the base-2 logarithm of `max_dimension` rounded up.
    /// The bound on `max_dimension` keeps every row's byte stride within
    /// the backend's 32-bit copy-layout fields.
    pub fn new(max_dimension: u32) -> (c: TextureMetadataCache)
        requires
            1 <= max_dimension <= 0x2000_0000,
        ensures
            c.wf(),
            pow2(c.max_exp()) >= max_dimension,
            c.max_exp() == 0 || pow2((c.max_exp() - 1) as nat) < max_dimension,
    {
        let max_exponent = ceil_log2(max_dimension);
        let qty = max_exponent + 1;
        let mut entries: Vec<Vec<TextureMetadataEntry>> = Vec::new();
        let mut w: u32 = 0;
        while w < qty
            invariant
                w <= qty,
                qty == max_exponent + 1,
                max_exponent <= 29,
                entries@.len() == w,
                forall|wi: int|
                    0 <= wi < w ==> (#[trigger] entries@[wi])@.len() == qty,
                forall|wi: int, hi: int|
                    0 <= wi < w && 0 <= hi < qty ==> (#[trigger] entries@[wi]@[hi]) == entry_spec(
                        wi as nat,
                        hi as nat,
                    ),
            decreases qty - w,
        {
            let width = pow2_u32(w);
            proof {
                lemma_pow2_within_u32(w as nat);
            }
            let mut row: Vec<TextureMetadataEntry> = Vec::new();
            let mut h: u32 = 0;
            while h < qty
                invariant
                    h <= qty,
                    qty <= 30,
                    w <= 29,
                    width == pow2(w as nat),
                    width <= 0x2000_0000,
                    row@.len() == h,
                    forall|hi: int|
                        0 <= hi < h ==> (#[trigger] row@[hi]) == entry_spec(w as nat, hi as nat),
                decreases qty - h,
            {
                let height = pow2_u32(h);
                let bytes_per_row = aligned_row_bytes(width);
                let entry = TextureMetadataEntry { width, height, bytes_per_row, rows_per_image: height };
                proof {
                    if h <= 29 {
                        lemma_pow2_within_u32(h as nat);
                    }
                    assert(entry == entry_spec(w as nat, h as nat));
                }
                row.push(entry);
                h = h + 1;
            }
            entries.push(row);
            w = w + 1;
        }
        TextureMetadataCache { max_exponent, entries }
    }

    /// Looks a size up without ever rounding it. The result is a pure
    /// function of the cache and the requested size, so repeated calls on
    /// an unchanged cache return the same entry.
    pub fn get_or_fail(&self, width: u32, height: u32) -> (r: Result<
        TextureMetadataEntry,
        TextureCacheError,
    >)
        requires
            self.wf(),
        ensures
            r == self.lookup(width, height),
    {
        let w_exp_opt = pow2_exponent(width);
        let h_exp_opt = pow2_exponent(height);
        if let (Some(w_exp), Some(h_exp)) = (w_exp_opt, h_exp_opt) {
            if w_exp <= self.max_exponent && h_exp <= self.max_exponent {
                proof {
                    lemma_exp_of_agrees(width, w_exp as nat);
                    lemma_exp_of_agrees(height, h_exp as nat);
                }
                return Ok(self.entries[w_exp as usize][h_exp as usize]);
            }
        }
        proof {
            if size_supported(self.max_exp(), width, height) {
                let we = choose|e: nat| e <= self.max_exp() && pow2(e) == width;
                let he = choose|e: nat| e <= self.max_exp() && pow2(e) == height;
                if w_exp_opt is Some {
                    lemma_pow2_injective(w_exp_opt->0 as nat, we);
                }
                if h_exp_opt is Some {
                    lemma_pow2_injective(h_exp_opt->0 as nat, he);
                }
            }
        }
        Err(TextureCacheError::UnsupportedSize)
    }
}

/// A well-formed table never runs past exponent 29 on either axis, so
/// every supported dimension fits 32 bits with room for its byte layout.
pub proof fn lemma_wf_max_exp(cache: TextureMetadataCache)
    requires
        cache.wf(),
    ensures
        cache.max_exp() <= 29,
{
}

/// `pow2` never repeats a value.
pub proof fn lemma_pow2_injective(a: nat, b: nat)
    requires
        pow2(a) == pow2(b),
    ensures
        a == b,
{
    if a < b {
        lemma_pow2_strictly_increases(a, b);
    } else if b < a {
        lemma_pow2_strictly_increases(b, a);
    }
}

/// `exp_of` picks exactly the exponent a witness exhibits.
pub proof fn lemma_exp_of_agrees(n: u32, e: nat)
    requires
        pow2(e) == n,
    ensures
        exp_of(n) == e,
{
    let c = choose|x: nat| pow2(x) == n;
    lemma_pow2_injective(c, e);
}

/// Powers of two up to `2^29` fit comfortably in 32 bits.
pub(crate) proof fn lemma_pow2_within_u32(e: nat)
    requires
        e <= 29,
    ensures
        pow2(e) <= 0x2000_0000,
{
    lemma2_to64();
    if e < 29 {
        lemma_pow2_strictly_increases(e, 29);
    }
}

/// No power of two has an odd factor greater than one.
proof fn lemma_odd_factor_not_pow2(m: nat, e: nat, f: nat)
    requires
        m % 2 == 1,
        m > 1,
    ensures
        pow2(f) != m * pow2(e),
    decreases f + e,
{
    let pe = pow2(e);
    let pf = pow2(f);
    if e == 0 {
        lemma2_to64();
        assert(m * pe == m) by (nonlinear_arith)
            requires
                pe == 1,
        ;
        if f > 0 {
            lemma_pow2_unfold(f);
        }
    } else {
        let pe1 = pow2((e - 1) as nat);
        lemma_pow2_unfold(e);
        lemma_pow2_pos((e - 1) as nat);
        if f == 0 {
            lemma2_to64();
            assert(m * pe >= pe) by (nonlinear_arith)
                requires
                    m >= 1,
                    pe >= 0,
            ;
        } else {
            let pf1 = pow2((f - 1) as nat);
            lemma_pow2_unfold(f);
            lemma_odd_factor_not_pow2(m, (e - 1) as nat, (f - 1) as nat);
            assert(m * pe == 2 * (m * pe1)) by (nonlinear_arith)
                requires
                    pe == 2 * pe1,
            ;
        }
    }
}

/// Computes the exponent of a power of two, or reports that none exists.
pub(crate) fn pow2_exponent(n: u32) -> (r: Option<u32>)
    ensures
        r matches Some(e) ==> e <= 31 && pow2(e as nat) == n,
        r is None ==> forall|e: nat| pow2(e) != n,
{
    if n == 0 {
        proof {
            assert forall|e: nat| pow2(e) != n by {
                lemma_pow2_pos(e);
            }
        }
        return None;
    }
    let mut m: u32 = n;
    let mut e: u32 = 0;
    proof {
        lemma2_to64();
    }
    while m % 2 == 0
        invariant
            1 <= m,
            e <= 31,
            n > 0,
            pow2(e as nat) * m == n,
        decreases m,
    {
        proof {
            lemma_pow2_unfold((e + 1) as nat);
            assert(pow2((e + 1) as nat) * (m / 2) as nat == pow2(e as nat) * m) by (nonlinear_arith)
                requires
                    m % 2 == 0,
                    m >= 2,
                    pow2((e + 1) as nat) == 2 * pow2(e as nat),
            ;
            if e + 1 >= 32 {
                lemma2_to64();
                if e + 1 > 32 {
                    lemma_pow2_strictly_increases(32, (e + 1) as nat);
                }
                assert(pow2((e + 1) as nat) * (m / 2) as nat >= pow2((e + 1) as nat))
                    by (nonlinear_arith)
                    requires
                        (m / 2) as nat >= 1,
                        pow2((e + 1) as nat) > 0,
                ;
            }
        }
        m = m / 2;
        e = e + 1;
    }
    if m == 1 {
        Some(e)
    } else {
        proof {
            assert forall|f: nat| pow2(f) != n by {
                lemma_odd_factor_not_pow2(m as nat, e as nat, f);
                assert(m as nat * pow2(e as nat) == pow2(e as nat) * m as nat) by (nonlinear_arith);
            }
        }
        None
    }
}

/// Computes `2^exp` for exponents the table can hold.
fn pow2_u32(exp: u32) -> (r: u32)
    requires
        exp <= 31,
    ensures
        r == pow2(exp as nat),
{
    let mut i: u32 = 0;
    let mut p: u32 = 1;
    proof {
        lemma2_to64();
    }
    while i < exp
        invariant
            i <= exp <= 31,
            p == pow2(i as nat),
        decreases exp - i,
    {
        proof {
            lemma_pow2_unfold((i + 1) as nat);
            lemma2_to64();
            if i + 1 < 31 {
                lemma_pow2_strictly_increases((i + 1) as nat, 31);
            }
        }
        p = p * 2;
        i = i + 1;
    }
    p
}

/// The smallest exponent whose power of two reaches `n`.
fn ceil_log2(n: u32) -> (e: u32)
    requires
        1 <= n <= 0x2000_0000,
    ensures
        e <= 29,
        pow2(e as nat) >= n,
        e == 0 || pow2((e - 1) as nat) < n,
{
    let mut e: u32 = 0;
    let mut p: u32 = 1;
    proof {
        lemma2_to64();
    }
    while p < n
        invariant
            n <= 0x2000_0000,
            p == pow2(e as nat),
            e <= 29,
            e == 0 || pow2((e - 1) as nat) < n,
        decreases 2 * n - p,
    {
        proof {
            lemma_pow2_pos(e as nat);
            lemma_pow2_unfold((e + 1) as nat);
            lemma2_to64();
            if e + 1 > 29 {
                lemma_pow2_strictly_increases(29, (e + 1) as nat);
            }
        }
        p = p * 2;
        e = e + 1;
    }
    e
}

/// Rounds a row of `width` RGBA8 pixels up to the copy alignment.
fn aligned_row_bytes(width: u32) -> (r: u32)
    requires
        width <= 0x2000_0000,
    ensures
        r == aligned_bytes_per_row(width as nat),
{
    ((4 * width + 255) / 256) * 256
}

/// Every supported power-of-two size is cached: a lookup succeeds, yields
/// the entry whose pixel dimensions are exactly the requested size (never
/// zero-sized), and — the lookup being a pure function of the unchanged
/// cache — repeated calls yield that same entry.
pub proof fn lemma_get_or_fail_supported_stable(cache: TextureMetadataCache, width: u32, height: u32)
    requires
        cache.wf(),
        size_supported(cache.max_exp(), width, height),
    ensures
        cache.lookup(width, height) matches Ok(entry) && entry.width == width && entry.height
            == height && entry.width > 0 && entry.height > 0,
{
    let we = choose|e: nat| e <= cache.max_exp() && pow2(e) == width;
    let he = choose|e: nat| e <= cache.max_exp() && pow2(e) == height;
    lemma_exp_of_agrees(width, we);
    lemma_exp_of_agrees(height, he);
    lemma_pow2_pos(we);
    lemma_pow2_pos(he);
}

/// A size that is not a power of two on both axes, or that exceeds the
/// table's bound, is never served: the lookup fails with `UnsupportedSize`.
pub proof fn lemma_get_or_fail_unsupported_fails(
    cache: TextureMetadataCache,
    width: u32,
    height: u32,
)
    requires
        cache.wf(),
        !size_supported(cache.max_exp(), width, height),
    ensures
        cache.lookup(width, height) == Err::<TextureMetadataEntry, TextureCacheError>(
            TextureCacheError::UnsupportedSize,
        ),
{
}

} // verus!
