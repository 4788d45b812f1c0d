use vstd::prelude::*;

verus! {

/// Index of the camera that stands for the primary one.
pub const PRIMARY_CAMERA_IDX: usize = 0;

/// Why no capturer could be had.
#[derive(PartialEq, Eq, Structural)]
pub enum CameraError {
    /// The index does not fit the 32-bit device index of the capture backend.
    IndexOutOfRange,
    /// No camera was listed.
    NoCamera,
}

/// A listed camera and the highest resolution it opened with.
pub struct CameraInfo {
    pub name: String,
    pub width: i32,
    pub height: i32,
}

/// A camera presented as a display.
pub struct CameraDisplay {
    pub x: i32,
    pub y: i32,
    pub name: String,
    pub width: i32,
    pub height: i32,
    pub online: bool,
    pub cursor_embedded: bool,
    /// Resolution the camera delivers: (width, height).
    pub original_resolution: (i32, i32),
}

/// Sum of the widths of the first `n` cameras.
pub open spec fn widths_upto(cams: Seq<CameraInfo>, n: int) -> int
    decreases n,
{
    if n <= 0 {
        0
    } else {
        widths_upto(cams, n - 1) + cams[n - 1].width
    }
}

/// Widths are non-negative and their running sum fits a coordinate.
pub open spec fn widths_fit(cams: Seq<CameraInfo>) -> bool {
    &&& forall|i: int| 0 <= i < cams.len() ==> #[trigger] cams[i].width >= 0
    &&& widths_upto(cams, cams.len() as int) <= i32::MAX
}

/// Display `i` among `cams` laid out left to right, starting at `x`.
pub open spec fn displays_as(d: CameraDisplay, c: CameraInfo, x: int) -> bool {
    &&& d.x == x
    &&& d.y == 0
    &&& d.name@ == c.name@
    &&& d.width == c.width
    &&& d.height == c.height
    &&& d.online
    &&& !d.cursor_embedded
    &&& d.original_resolution == (c.width, c.height)
}

proof fn lemma_widths_monotone(cams: Seq<CameraInfo>, i: int, j: int)
    requires
        0 <= i <= j <= cams.len(),
        forall|k: int| 0 <= k < cams.len() ==> #[trigger] cams[k].width >= 0,
    ensures
        0 <= widths_upto(cams, i) <= widths_upto(cams, j),
    decreases j,
{
    if j > 0 {
        if i < j {
            lemma_widths_monotone(cams, i, j - 1);
            assert(cams[j - 1].width >= 0);
        } else {
            lemma_widths_monotone(cams, i - 1, j - 1);
            assert(cams[j - 1].width >= 0);
        }
    }
}

fn camera_display(c: &CameraInfo, x: i32) -> (r: CameraDisplay)
    ensures
        displays_as(r, *c, x as int),
{
    CameraDisplay {
        x,
        y: 0,
        name: c.name.clone(),
        width: c.width,
        height: c.height,
        online: true,
        cursor_embedded: false,
        original_resolution: (c.width, c.height),
    }
}

/// The cameras the platform lists; `count` is how many it listed, `None` when
/// listing failed.
pub struct Cameras;

/// A capturer bound to one camera device.
pub struct CameraCapturer {
    /// Device index of the camera.
    pub index: u32,
    /// The last decoded frame, RGBA.
    pub data: Vec<u8>,
}

impl Cameras {
    /// The listed cameras as displays. With `first_only` (where one physical
    /// camera is listed more than once) only the first is shown, and an empty
    /// list is an error; otherwise they stand side by side from x = 0.
    pub fn all_info(cams: &Vec<CameraInfo>, first_only: bool) -> (r: Result<
        Vec<CameraDisplay>,
        CameraError,
    >)
        requires
            widths_fit(cams@),
        ensures
            first_only && cams@.len() == 0 ==> r == Err::<Vec<CameraDisplay>, CameraError>(
                CameraError::NoCamera,
            ),
            first_only && cams@.len() > 0 ==> match r {
                Ok(v) => v@.len() == 1 && displays_as(v@[0], cams@[0], 0),
                Err(_) => false,
            },
            !first_only ==> match r {
                Ok(v) => v@.len() == cams@.len() && forall|i: int|
                    0 <= i < v@.len() ==> displays_as(#[trigger] v@[i], cams@[i], widths_upto(cams@, i)),
                Err(_) => false,
            },
    {
        if first_only {
            if cams.len() == 0 {
                return Err(CameraError::NoCamera);
            }
            let mut v: Vec<CameraDisplay> = Vec::new();
            v.push(camera_display(&cams[0], 0));
            return Ok(v);
        }
        let mut v: Vec<CameraDisplay> = Vec::new();
        let mut x: i32 = 0;
        let mut i: usize = 0;
        while i < cams.len()
            invariant
                i <= cams.len(),
                widths_fit(cams@),
                x == widths_upto(cams@, i as int),
                v@.len() == i,
                forall|k: int| 0 <= k < i ==> displays_as(#[trigger] v@[k], cams@[k], widths_upto(cams@, k)),
            decreases cams.len() - i,
        {
            proof {
                lemma_widths_monotone(cams@, i + 1, cams@.len() as int);
            }
            v.push(camera_display(&cams[i], x));
            x = x + cams[i].width;
            i = i + 1;
        }
        Ok(v)
    }

    /// Whether camera `index` is among those listed.
    pub fn camera_exists(index: usize, count: Option<usize>) -> (r: bool)
        ensures
            r == match count {
                Some(n) => index < n,
                None => false,
            },
    {
        match count {
            Some(n) => index < n,
            None => false,
        }
    }

    /// A capturer for camera `current`, with no frame taken yet.
    pub fn get_capturer(current: usize) -> (r: Result<CameraCapturer, CameraError>)
        ensures
            current <= u32::MAX ==> match r {
                Ok(c) => c.index == current && c.data@.len() == 0,
                Err(_) => false,
            },
            current > u32::MAX ==> r == Err::<CameraCapturer, CameraError>(
                CameraError::IndexOutOfRange,
            ),
    {
        if current > u32::MAX as usize {
            Err(CameraError::IndexOutOfRange)
        } else {
            Ok(CameraCapturer { index: current as u32, data: Vec::new() })
        }
    }
}

/// Whether the primary camera is among the `count` cameras listed.
pub fn primary_camera_exists(count: Option<usize>) -> (r: bool)
    ensures
        r == match count {
            Some(n) => PRIMARY_CAMERA_IDX < n,
            None => false,
        },
{
    Cameras::camera_exists(PRIMARY_CAMERA_IDX, count)
}

} // verus!
