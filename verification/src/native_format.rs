//! Which of a device's native media types to capture in.
//!
//! MJPG comes first: its samples are JPEG images already and go to the browser as they
//! are. RGB32 comes second: each sample is turned into a JPEG image. Within one of the
//! two, the size nearest to the requested one wins, and the first of equals.
use vstd::prelude::*;

verus! {

/// The media subtype GUID of MJPG, as a 128-bit number.
pub const SUBTYPE_MJPG: u128 = 0x47504A4D_0000_0010_8000_00AA00389B71;

/// The media subtype GUID of RGB32, as a 128-bit number.
pub const SUBTYPE_RGB32: u128 = 0x00000016_0000_0010_8000_00AA00389B71;

/// A native media type as the device reports it.
///
/// An attribute that the device does not report is `None`.
#[derive(Clone, Copy, Debug)]
pub struct NativeType {
    /// The subtype GUID.
    pub subtype: Option<u128>,
    /// The frame size: the width in the upper and the height in the lower 32 bits.
    pub frame_size: Option<u64>,
}

/// The format in which frames are captured.
#[derive(Clone, Copy, Debug, PartialEq, Eq, Structural)]
pub struct ChosenFormat {
    pub width: u32,
    pub height: u32,
    /// Whether samples are JPEG images already; otherwise they are RGB32.
    pub is_mjpg: bool,
}

/// A format together with the place of its media type in the device's list.
#[derive(Clone, Copy, Debug, PartialEq, Eq, Structural)]
pub struct NativeChoice {
    pub index: usize,
    pub format: ChosenFormat,
}

impl NativeType {
    pub open spec fn is_mjpg(self) -> bool {
        self.subtype == Some(SUBTYPE_MJPG)
    }

    pub open spec fn is_rgb32(self) -> bool {
        self.subtype == Some(SUBTYPE_RGB32)
    }

    /// The packed frame size; a size that is not reported counts as zero.
    pub open spec fn packed(self) -> int {
        match self.frame_size {
            Some(size) => size as int,
            None => 0,
        }
    }

    pub open spec fn width(self) -> int {
        self.packed() / 0x1_0000_0000
    }

    pub open spec fn height(self) -> int {
        self.packed() % 0x1_0000_0000
    }

    /// The reported frame size as width and height.
    pub fn size(&self) -> (r: (u32, u32))
        ensures
            r.0 == self.width(),
            r.1 == self.height(),
    {
        let packed: u64 = match self.frame_size {
            Some(size) => size,
            None => 0,
        };
        assert(packed >> 32 == packed / 0x1_0000_0000) by (bit_vector);
        assert(packed & 0xFFFF_FFFF == packed % 0x1_0000_0000) by (bit_vector);
        ((packed >> 32) as u32, (packed & 0xFFFF_FFFF) as u32)
    }
}

/// How far the size `w` by `h` is from the requested size `rw` by `rh`.
pub open spec fn distance(w: int, h: int, rw: int, rh: int) -> int {
    (if w < rw { rw - w } else { w - rw }) + (if h < rh { rh - h } else { h - rh })
}

/// Whether the size `w` by `h` is nearer to the requested size than the best size so far.
/// Any size is nearer than none.
pub fn better_fit(best: &Option<(u32, u32)>, w: u32, h: u32, rw: u32, rh: u32) -> (r: bool)
    ensures
        r == match *best {
            None => true,
            Some((bw, bh)) => distance(w as int, h as int, rw as int, rh as int) < distance(
                bw as int,
                bh as int,
                rw as int,
                rh as int,
            ),
        },
{
    match best {
        None => true,
        Some((bw, bh)) => fit_distance(w, h, rw, rh) < fit_distance(*bw, *bh, rw, rh),
    }
}

/// The distance between two sizes.
fn fit_distance(w: u32, h: u32, rw: u32, rh: u32) -> (r: i64)
    ensures
        r == distance(w as int, h as int, rw as int, rh as int),
{
    let dw: i64 = w as i64 - rw as i64;
    let dh: i64 = h as i64 - rh as i64;
    (if dw < 0 { -dw } else { dw }) + (if dh < 0 { -dh } else { dh })
}

impl NativeType {
    /// How far the type's frame size is from the requested size.
    pub open spec fn distance(self, rw: u32, rh: u32) -> int {
        distance(self.width(), self.height(), rw as int, rh as int)
    }
}

/// Whether `k` is the first of the types that satisfy `kind` whose size is nearest to the
/// requested one.
pub open spec fn is_nearest(
    types: Seq<NativeType>,
    kind: spec_fn(NativeType) -> bool,
    rw: u32,
    rh: u32,
    k: int,
) -> bool {
    &&& 0 <= k < types.len()
    &&& kind(types[k])
    &&& forall|j: int|
        0 <= j < types.len() && kind(#[trigger] types[j]) ==> {
            &&& types[k].distance(rw, rh) <= types[j].distance(rw, rh)
            &&& j < k ==> types[k].distance(rw, rh) < types[j].distance(rw, rh)
        }
}

pub open spec fn mjpg() -> spec_fn(NativeType) -> bool {
    |t: NativeType| t.is_mjpg()
}

pub open spec fn rgb32() -> spec_fn(NativeType) -> bool {
    |t: NativeType| t.is_rgb32()
}

/// Whether some type satisfies `kind`.
pub open spec fn offers(types: Seq<NativeType>, kind: spec_fn(NativeType) -> bool) -> bool {
    exists|j: int| 0 <= j < types.len() && kind(#[trigger] types[j])
}

/// Whether `c` is the choice among `types`: the nearest MJPG type if there is any, and
/// otherwise the nearest RGB32 type. The format is that of the type at `c.index`.
pub open spec fn is_choice(types: Seq<NativeType>, rw: u32, rh: u32, c: NativeChoice) -> bool {
    &&& c.format.is_mjpg == offers(types, mjpg())
    &&& is_nearest(
        types,
        if c.format.is_mjpg {
            mjpg()
        } else {
            rgb32()
        },
        rw,
        rh,
        c.index as int,
    )
    &&& c.format.width == types[c.index as int].width()
    &&& c.format.height == types[c.index as int].height()
}

/// What the search has found of one kind among the first `n` types.
spec fn found_so_far(
    types: Seq<NativeType>,
    kind: spec_fn(NativeType) -> bool,
    rw: u32,
    rh: u32,
    n: int,
    best: Option<(u32, u32)>,
    at: usize,
) -> bool {
    match best {
        None => !offers(types.take(n), kind),
        Some((w, h)) => {
            &&& is_nearest(types.take(n), kind, rw, rh, at as int)
            &&& w == types[at as int].width()
            &&& h == types[at as int].height()
        },
    }
}

/// Chooses the media type to capture in, or `None` if the device offers neither MJPG nor
/// RGB32.
pub fn choose_native_format(types: &Vec<NativeType>, rw: u32, rh: u32) -> (r: Option<NativeChoice>)
    ensures
        match r {
            Some(c) => is_choice(types@, rw, rh, c),
            None => !offers(types@, mjpg()) && !offers(types@, rgb32()),
        },
{
    let mut best_mjpg: Option<(u32, u32)> = None;
    let mut mjpg_at: usize = 0;
    let mut best_rgb: Option<(u32, u32)> = None;
    let mut rgb_at: usize = 0;
    let mut index: usize = 0;
    while index < types.len()
        invariant
            index <= types.len(),
            found_so_far(types@, mjpg(), rw, rh, index as int, best_mjpg, mjpg_at),
            found_so_far(types@, rgb32(), rw, rh, index as int, best_rgb, rgb_at),
        decreases types.len() - index,
    {
        let t: NativeType = types[index];
        let (w, h) = t.size();
        let subtype: u128 = match t.subtype {
            Some(guid) => guid,
            None => 0,
        };
        proof {
            lemma_extend(types@, mjpg(), rw, rh, index as int, best_mjpg, mjpg_at);
            lemma_extend(types@, rgb32(), rw, rh, index as int, best_rgb, rgb_at);
        }
        if subtype == SUBTYPE_MJPG {
            if better_fit(&best_mjpg, w, h, rw, rh) {
                best_mjpg = Some((w, h));
                mjpg_at = index;
            }
        } else if subtype == SUBTYPE_RGB32 {
            if better_fit(&best_rgb, w, h, rw, rh) {
                best_rgb = Some((w, h));
                rgb_at = index;
            }
        }
        index += 1;
    }
    assert(types@.take(index as int) =~= types@);
    if let Some((width, height)) = best_mjpg {
        Some(NativeChoice { index: mjpg_at, format: ChosenFormat { width, height, is_mjpg: true } })
    } else if let Some((width, height)) = best_rgb {
        Some(NativeChoice { index: rgb_at, format: ChosenFormat { width, height, is_mjpg: false } })
    } else {
        None
    }
}

/// What one more type does to a search: one of another kind, or no nearer, leaves it; the
/// first of its kind, or a nearer one, becomes the find.
proof fn lemma_extend(
    types: Seq<NativeType>,
    kind: spec_fn(NativeType) -> bool,
    rw: u32,
    rh: u32,
    n: int,
    best: Option<(u32, u32)>,
    at: usize,
)
    requires
        0 <= n < types.len(),
        n <= usize::MAX,
        found_so_far(types, kind, rw, rh, n, best, at),
    ensures
        ({
            let t = types[n];
            let nearer = kind(t) && match best {
                None => true,
                Some((bw, bh)) => t.distance(rw, rh) < distance(
                    bw as int,
                    bh as int,
                    rw as int,
                    rh as int,
                ),
            };
            if nearer {
                forall|w: u32, h: u32|
                    w == t.width() && h == t.height() ==> #[trigger] found_so_far(
                        types,
                        kind,
                        rw,
                        rh,
                        n + 1,
                        Some((w, h)),
                        n as usize,
                    )
            } else {
                found_so_far(types, kind, rw, rh, n + 1, best, at)
            }
        }),
{
    let before = types.take(n);
    let after = types.take(n + 1);
    assert forall|j: int| 0 <= j < n implies #[trigger] after[j] == before[j] by {}
    assert(after[n] == types[n]);
    match best {
        None => {
            assert forall|j: int| 0 <= j < after.len() && kind(#[trigger] after[j]) implies j
                == n by {
                if j < n {
                    assert(kind(before[j]));
                }
            }
        },
        Some(_) => {
            assert(after[at as int] == before[at as int]);
            assert forall|j: int| 0 <= j < n && kind(#[trigger] after[j]) implies kind(
                before[j],
            ) by {}
        },
    }
}

/// A device's types and the requested size leave room for one choice only.
pub proof fn choice_is_unique(
    types: Seq<NativeType>,
    rw: u32,
    rh: u32,
    a: NativeChoice,
    b: NativeChoice,
)
    requires
        is_choice(types, rw, rh, a),
        is_choice(types, rw, rh, b),
    ensures
        a == b,
{
    assert(types[a.index as int].distance(rw, rh) <= types[b.index as int].distance(rw, rh));
}

/// MJPG is preferred: the choice is MJPG whenever the device offers any, however far its
/// sizes are from the requested one.
pub proof fn mjpg_is_preferred(types: Seq<NativeType>, rw: u32, rh: u32, c: NativeChoice, j: int)
    requires
        is_choice(types, rw, rh, c),
        0 <= j < types.len(),
        types[j].is_mjpg(),
    ensures
        c.format.is_mjpg,
        types[c.index as int].is_mjpg(),
{
    assert(mjpg()(types[j]));
}

/// If the device offers the requested size in the subtype that is captured, that size is
/// the one captured.
pub proof fn requested_size_is_met(
    types: Seq<NativeType>,
    rw: u32,
    rh: u32,
    c: NativeChoice,
    j: int,
)
    requires
        is_choice(types, rw, rh, c),
        0 <= j < types.len(),
        types[j].width() == rw,
        types[j].height() == rh,
        types[j].is_mjpg() || (types[j].is_rgb32() && !offers(types, mjpg())),
    ensures
        c.format.width == rw,
        c.format.height == rh,
{
    assert(mjpg()(types[j]) || rgb32()(types[j]));
    assert(types[j].distance(rw, rh) == 0);
}

/// The distance counts columns and rows alike, and does not care which of two sizes was asked
/// for: it is the number of columns by which they differ and the number of rows.
pub proof fn distance_is_symmetric(w: int, h: int, rw: int, rh: int)
    ensures
        distance(w, h, rw, rh) == distance(rw, h, w, rh),
        distance(w, h, rw, rh) == distance(w, rh, rw, h),
        distance(w, h, rw, rh) == distance(h, w, rh, rw),
        w >= rw && h >= rh ==> distance(w, h, rw, rh) == (w - rw) + (h - rh),
        distance(w, h, rw, rh) == vstd::math::abs(w - rw) + vstd::math::abs(h - rh),
        distance(w, h, rw, rh) == 0 <==> w == rw && h == rh,
{
}

/// A size is the better fit if it differs from the requested one by fewer columns and rows,
/// taken together, than the best so far; without a best, any size is.
pub proof fn better_fit_is_nearer(
    best: (u32, u32),
    w: u32,
    h: u32,
    rw: u32,
    rh: u32,
    r: bool,
    first: bool,
)
    requires
        call_ensures(better_fit, (&Some(best), w, h, rw, rh), r),
        call_ensures(better_fit, (&None::<(u32, u32)>, w, h, rw, rh), first),
    ensures
        r <==> vstd::math::abs(w - rw) + vstd::math::abs(h - rh) < vstd::math::abs(best.0 - rw)
            + vstd::math::abs(best.1 - rh),
        first,
{
}

/// A frame size is packed with the width in the upper and the height in the lower 32 bits, and
/// is read back as that width and height. One that is not reported is no columns by no rows.
pub proof fn frame_size_is_unpacked(
    t: NativeType,
    width: u32,
    height: u32,
    r: (u32, u32),
)
    requires
        call_ensures(NativeType::size, (&t,), r),
        t.frame_size matches Some(packed) ==> packed == width * 0x1_0000_0000 + height,
        t.frame_size is None ==> width == 0 && height == 0,
    ensures
        r == (width, height),
        t.width() == width,
        t.height() == height,
{
}

/// What is chosen among a device's types: an MJPG type if there is one, else an RGB32 type, and
/// nothing if there is neither. No other type of that kind differs from the requested size by
/// fewer columns and rows, and no earlier one by as few. The capture is in the size of the type.
pub proof fn nearest_type_is_chosen(
    types: Vec<NativeType>,
    rw: u32,
    rh: u32,
    r: Option<NativeChoice>,
)
    requires
        call_ensures(choose_native_format, (&types, rw, rh), r),
    ensures
        r is None <==> forall|j: int|
            0 <= j < types@.len() ==> (#[trigger] types@[j]).subtype != Some(SUBTYPE_MJPG)
                && types@[j].subtype != Some(SUBTYPE_RGB32),
        r matches Some(c) ==> {
            let kind = if c.format.is_mjpg {
                SUBTYPE_MJPG
            } else {
                SUBTYPE_RGB32
            };
            &&& c.index < types@.len()
            &&& types@[c.index as int].subtype == Some(kind)
            &&& c.format.width == types@[c.index as int].width()
            &&& c.format.height == types@[c.index as int].height()
            &&& !c.format.is_mjpg ==> forall|j: int|
                0 <= j < types@.len() ==> (#[trigger] types@[j]).subtype != Some(SUBTYPE_MJPG)
            &&& forall|j: int|
                0 <= j < types@.len() && (#[trigger] types@[j]).subtype == Some(kind) ==> {
                    let chosen = vstd::math::abs(c.format.width - rw) + vstd::math::abs(
                        c.format.height - rh,
                    );
                    let other = vstd::math::abs(types@[j].width() - rw) + vstd::math::abs(
                        types@[j].height() - rh,
                    );
                    chosen <= other && (j < c.index ==> chosen < other)
                }
        },
{
    assert forall|j: int| 0 <= j < types@.len() implies mjpg()(#[trigger] types@[j]) == (
    types@[j].subtype == Some(SUBTYPE_MJPG)) && rgb32()(types@[j]) == (types@[j].subtype == Some(
        SUBTYPE_RGB32,
    )) by {}
    match r {
        Some(c) => {
            assert(mjpg()(types@[c.index as int]) || rgb32()(types@[c.index as int]));
            assert forall|j: int|
                0 <= j < types@.len() && (#[trigger] types@[j]).subtype == Some(
                    SUBTYPE_MJPG,
                ) implies c.format.is_mjpg by {
                assert(mjpg()(types@[j]));
            }
        },
        None => {
            assert forall|j: int| 0 <= j < types@.len() implies (#[trigger] types@[j]).subtype
                != Some(SUBTYPE_MJPG) && types@[j].subtype != Some(SUBTYPE_RGB32) by {
                assert(!mjpg()(types@[j]) && !rgb32()(types@[j]));
            }
        },
    }
}

/// The subtype of MJPG is the family of GUIDs that begin with a four-letter code, with the code
/// `MJPG`; that of RGB32 begins with the number of its pixel format instead.
pub proof fn subtypes_begin_with_their_codes()
    ensures
        SUBTYPE_MJPG == ('M' as int + 'J' as int * 0x100 + 'P' as int * 0x1_0000 + 'G' as int
            * 0x100_0000) * 0x1_0000_0000_0000_0000_0000_0000 + 0x0010_8000_00AA_0038_9B71,
        SUBTYPE_RGB32 == 22 * 0x1_0000_0000_0000_0000_0000_0000 + 0x0010_8000_00AA_0038_9B71,
{
}

} // verus!
