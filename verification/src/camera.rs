//! Camera enumeration as the recorder's embedding sees it. The device
//! query itself is an outside affair; its results arrive here as plain
//! values, and everything computed from them — existence checks and the
//! side-by-side display layout — is verified.

use vstd::prelude::*;

verus! {

/// The camera treated as primary.
pub const PRIMARY_CAMERA_IDX: usize = 0;

/// One enumerated camera: its display name and native resolution.
#[derive(Clone, Debug)]
pub struct CameraInfo {
    pub name: String,
    pub width: i32,
    pub height: i32,
}

/// A resolution in pixels.
#[derive(Clone, Copy, Debug, PartialEq, Eq, Structural)]
pub struct Resolution {
    pub width: i32,
    pub height: i32,
}

/// The display record published for each camera: cameras are laid out
/// side by side on one virtual desktop, each at the x offset where the
/// previous one ends.
#[derive(Clone, Debug)]
pub struct DisplayInfo {
    pub x: i32,
    pub y: i32,
    pub name: String,
    pub width: i32,
    pub height: i32,
    pub online: bool,
    pub cursor_embedded: bool,
    pub original_resolution: Option<Resolution>,
}

/// A camera's width, clamped below at zero.
pub open spec fn spec_clamped_width(c: CameraInfo) -> int {
    if c.width >= 0 {
        c.width as int
    } else {
        0
    }
}

/// A camera's height, clamped below at zero.
pub open spec fn spec_clamped_height(c: CameraInfo) -> int {
    if c.height >= 0 {
        c.height as int
    } else {
        0
    }
}

/// The x offset of camera `i` in the side-by-side layout: the sum of the
/// clamped widths of all cameras before it.
pub open spec fn spec_x_offset(cams: Seq<CameraInfo>, i: int) -> int
    decreases i,
{
    if i <= 0 {
        0
    } else {
        spec_x_offset(cams, i - 1) + spec_clamped_width(cams[i - 1])
    }
}

/// X offsets grow along the layout: widths are clamped nonnegative.
pub proof fn lemma_x_offset_monotone(cams: Seq<CameraInfo>, i: int, j: int)
    requires
        0 <= i <= j,
    ensures
        spec_x_offset(cams, i) <= spec_x_offset(cams, j),
    decreases j - i,
{
    if i < j {
        lemma_x_offset_monotone(cams, i, j - 1);
    }
}

/// Why a capturer could not be produced.
#[derive(Clone, Copy, Debug, PartialEq, Eq, Structural)]
pub enum CameraError {
    /// No camera at the requested index.
    NotFound,
    /// The device could not be opened.
    Open,
}

/// Opens a capture device for one enumerated camera. Implementations live
/// outside the library (they talk to the device); nothing is assumed of
/// them.
pub trait CameraBackend: Sized {
    /// Opens camera `index`, described by `info`.
    fn open(index: usize, info: &CameraInfo) -> Result<Self, CameraError>;
}

/// Camera queries and the layout computed from them.
pub struct Cameras;

impl Cameras {
    /// Whether camera `index` exists in the enumerated list.
    pub fn camera_exists(cameras: &Vec<CameraInfo>, index: usize) -> (r: bool)
        ensures
            r == (index < cameras@.len()),
    {
        index < cameras.len()
    }

    /// The native resolution of camera `index`, if it exists.
    pub fn get_camera_resolution(cameras: &Vec<CameraInfo>, index: usize) -> (r: Option<
        Resolution,
    >)
        ensures
            match r {
                Some(res) => index < cameras@.len() && res.width == spec_clamped_width(
                    cameras@[index as int],
                ) && res.height == spec_clamped_height(cameras@[index as int]),
                None => index >= cameras@.len(),
            },
    {
        if index < cameras.len() {
            let c = &cameras[index];
            Some(
                Resolution {
                    width: if c.width >= 0 {
                        c.width
                    } else {
                        0
                    },
                    height: if c.height >= 0 {
                        c.height
                    } else {
                        0
                    },
                },
            )
        } else {
            None
        }
    }

    /// Produces a capturer for camera `current`: the index is checked
    /// against the enumerated list, then the embedding's camera backend
    /// opens the device (the open itself is outside the library and may
    /// fail for its own reasons).
    pub fn get_capturer<C: CameraBackend>(cameras: &Vec<CameraInfo>, current: usize) -> (r:
        Result<C, CameraError>)
        ensures
            current >= cameras@.len() ==> r == Err::<C, CameraError>(CameraError::NotFound),
            r is Ok ==> current < cameras@.len(),
    {
        if current >= cameras.len() {
            return Err(CameraError::NotFound);
        }
        C::open(current, &cameras[current])
    }

    /// Lays the enumerated cameras out side by side: one display record
    /// per camera, in order, each at the cumulative x offset of the
    /// widths before it, marked online, with the camera's (clamped)
    /// resolution both as its size and as its original resolution.
    pub fn all_info(cameras: &Vec<CameraInfo>) -> (r: Vec<DisplayInfo>)
        requires
            spec_x_offset(cameras@, cameras@.len() as int) <= i32::MAX,
        ensures
            r@.len() == cameras@.len(),
            forall|i: int|
                0 <= i < r@.len() ==> {
                    let d = #[trigger] r@[i];
                    let c = cameras@[i];
                    &&& d.x == spec_x_offset(cameras@, i)
                    &&& d.y == 0
                    &&& d.name@ == c.name@
                    &&& d.width == spec_clamped_width(c)
                    &&& d.height == spec_clamped_height(c)
                    &&& d.online
                    &&& !d.cursor_embedded
                    &&& d.original_resolution matches Some(res) && res.width == d.width
                        && res.height == d.height
                },
    {
        let ghost cams = cameras@;
        let mut out: Vec<DisplayInfo> = Vec::new();
        let mut x: i32 = 0;
        let mut i: usize = 0;
        while i < cameras.len()
            invariant
                i <= cams.len(),
                cameras@ == cams,
                x == spec_x_offset(cams, i as int),
                spec_x_offset(cams, cams.len() as int) <= i32::MAX,
                out@.len() == i,
                forall|k: int|
                    0 <= k < i ==> {
                        let d = #[trigger] out@[k];
                        let c = cams[k];
                        &&& d.x == spec_x_offset(cams, k)
                        &&& d.y == 0
                        &&& d.name@ == c.name@
                        &&& d.width == spec_clamped_width(c)
                        &&& d.height == spec_clamped_height(c)
                        &&& d.online
                        &&& !d.cursor_embedded
                        &&& d.original_resolution matches Some(res) && res.width == d.width
                            && res.height == d.height
                    },
            decreases cams.len() - i,
        {
            let c = &cameras[i];
            let width = if c.width >= 0 {
                c.width
            } else {
                0
            };
            let height = if c.height >= 0 {
                c.height
            } else {
                0
            };
            proof {
                lemma_x_offset_monotone(cams, i as int + 1, cams.len() as int);
            }
            out.push(
                DisplayInfo {
                    x,
                    y: 0,
                    name: c.name.clone(),
                    width,
                    height,
                    online: true,
                    cursor_embedded: false,
                    original_resolution: Some(Resolution { width, height }),
                },
            );
            x = x + width;
            i = i + 1;
        }
        out
    }
}

/// Whether the primary camera exists.
pub fn primary_camera_exists(cameras: &Vec<CameraInfo>) -> (r: bool)
    ensures
        r == (PRIMARY_CAMERA_IDX < cameras@.len()),
{
    Cameras::camera_exists(cameras, PRIMARY_CAMERA_IDX)
}

} // verus!
