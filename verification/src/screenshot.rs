//! Screenshot capture pipeline: monitor and window descriptors, primary
//! monitor selection, window lookup, region capture and PNG encoding.
//!
//! The platform capture provider runs in the surrounding application and
//! hands this module plain values: raw per-monitor and per-window attributes
//! (each possibly missing, when the platform accessor failed) and captured
//! frames as raw RGBA buffers. Everything from there to the encoded PNG
//! bytes is verified, with the PNG encoder itself called through a trusted
//! wrapper.

use vstd::prelude::*;

use crate::region::{
    clamp_region, clamped_extent, clamped_start, crop_rgba, cropped_bytes,
};

verus! {

/// Immutable description of one monitor at enumeration time.
#[derive(Debug, Clone)]
pub struct MonitorInfo {
    pub id: u32,
    pub name: String,
    pub width: u32,
    pub height: u32,
    pub x: i32,
    pub y: i32,
    pub is_primary: bool,
}

/// Immutable description of one capturable window at enumeration time.
#[derive(Debug, Clone)]
pub struct WindowInfo {
    pub id: u32,
    pub app_name: String,
    pub title: String,
    pub x: i32,
    pub y: i32,
    pub width: u32,
    pub height: u32,
}

/// One monitor's attributes as the platform hands them back: each accessor
/// may fail independently, in which case a default takes its place.
pub struct RawMonitor {
    pub id: Option<u32>,
    pub name: Option<String>,
    pub width: Option<u32>,
    pub height: Option<u32>,
    pub x: Option<i32>,
    pub y: Option<i32>,
    pub is_primary: Option<bool>,
}

/// One window's attributes as the platform hands them back.
pub struct RawWindow {
    pub id: Option<u32>,
    pub app_name: Option<String>,
    pub title: Option<String>,
    pub x: Option<i32>,
    pub y: Option<i32>,
    pub width: Option<u32>,
    pub height: Option<u32>,
}

/// A captured image as a raw RGBA8 buffer: four bytes per pixel, rows in
/// top-to-bottom order.
pub struct Frame {
    pub width: u32,
    pub height: u32,
    pub pixels: Vec<u8>,
}

impl Frame {
    /// The buffer holds exactly the pixels the dimensions announce.
    pub open spec fn wf(&self) -> bool {
        self.pixels@.len() == 4 * self.width * self.height
    }
}

/// How a capture request can fail before or at the encoding step.
#[derive(Debug)]
pub enum CaptureError {
    /// No enumerated monitor is flagged primary.
    NoPrimaryMonitor,
    /// No enumerated window carries the requested id.
    WindowNotFound,
    /// The requested region, clamped to the image, has zero area.
    InvalidRegionDimensions,
    /// The PNG encoder refused the frame; carries its message.
    EncodeFailed(String),
}

impl CaptureError {
    /// Human-readable description, surfaced verbatim to the caller.
    pub fn message(&self) -> (r: String)
        ensures
            self is NoPrimaryMonitor ==> r@ == "No primary monitor found"@,
            self is WindowNotFound ==> r@ == "Window not found"@,
            self is InvalidRegionDimensions ==> r@ == "Invalid region dimensions"@,
            self matches CaptureError::EncodeFailed(m) ==> r@ == m@,
    {
        match self {
            CaptureError::NoPrimaryMonitor => String::from_str("No primary monitor found"),
            CaptureError::WindowNotFound => String::from_str("Window not found"),
            CaptureError::InvalidRegionDimensions => String::from_str(
                "Invalid region dimensions",
            ),
            CaptureError::EncodeFailed(m) => m.clone(),
        }
    }
}

/// The PNG encoding of an RGBA8 buffer with the given dimensions: a
/// function of the pixel data and dimensions alone.
pub uninterp spec fn png_of(pixels: Seq<u8>, width: u32, height: u32) -> Seq<u8>;

/// Relies on image::codecs::png::PngEncoder::write_image to encode an RGBA8
/// buffer as PNG bytes, a deterministic function of the buffer and the
/// dimensions. The encoder asserts that the buffer length matches the
/// dimensions, so that is demanded of every caller here; with the length
/// pinned, the underlying PNG writer fails exactly on a zero width or
/// height, and writing into a Vec cannot fail.
#[verifier::external_body]
fn encode_png(pixels: &Vec<u8>, width: u32, height: u32) -> (r: Result<Vec<u8>, String>)
    requires
        pixels@.len() == 4 * width * height,
    ensures
        r is Ok <==> (width > 0 && height > 0),
        r matches Ok(b) ==> b@ == png_of(pixels@, width, height),
{
    let mut bytes: Vec<u8> = Vec::new();
    let encoder = image::codecs::png::PngEncoder::new(&mut bytes);
    match image::ImageEncoder::write_image(
        encoder,
        pixels,
        width,
        height,
        image::ExtendedColorType::Rgba8,
    ) {
        Ok(()) => Ok(bytes),
        Err(e) => Err(format!("{}", e)),
    }
}

/// Encode a captured full-monitor frame as PNG bytes. Succeeds exactly
/// when the frame has positive dimensions.
pub fn capture_fullscreen(frame: &Frame) -> (r: Result<Vec<u8>, CaptureError>)
    requires
        frame.wf(),
    ensures
        r is Ok <==> (frame.width > 0 && frame.height > 0),
        r matches Ok(b) ==> b@ == png_of(frame.pixels@, frame.width, frame.height),
        r matches Err(e) ==> e is EncodeFailed,
{
    match encode_png(&frame.pixels, frame.width, frame.height) {
        Ok(b) => Ok(b),
        Err(m) => Err(CaptureError::EncodeFailed(m)),
    }
}

/// Encode a captured window frame as PNG bytes. Succeeds exactly when the
/// frame has positive dimensions.
pub fn capture_window(frame: &Frame) -> (r: Result<Vec<u8>, CaptureError>)
    requires
        frame.wf(),
    ensures
        r is Ok <==> (frame.width > 0 && frame.height > 0),
        r matches Ok(b) ==> b@ == png_of(frame.pixels@, frame.width, frame.height),
        r matches Err(e) ==> e is EncodeFailed,
{
    match encode_png(&frame.pixels, frame.width, frame.height) {
        Ok(b) => Ok(b),
        Err(m) => Err(CaptureError::EncodeFailed(m)),
    }
}

/// Crop a captured monitor frame to a requested region and encode the crop
/// as PNG bytes. The region is clamped to the frame first: the capture
/// succeeds exactly when the clamped region still has positive area, and a
/// clamped region of zero area is rejected, never encoded as a degenerate
/// image.
pub fn capture_region(frame: &Frame, x: i32, y: i32, width: u32, height: u32) -> (r: Result<
    Vec<u8>,
    CaptureError,
>)
    requires
        frame.wf(),
    ensures
        ({
            let sx = clamped_start(x);
            let sy = clamped_start(y);
            let cw = clamped_extent(width, frame.width, sx);
            let ch = clamped_extent(height, frame.height, sy);
            &&& (r is Ok <==> (cw > 0 && ch > 0))
            &&& ((cw == 0 || ch == 0) <==> (r matches Err(
                CaptureError::InvalidRegionDimensions,
            )))
            &&& (r matches Ok(b) ==> b@ == png_of(
                cropped_bytes(frame.pixels@, frame.width, sx, sy, cw, ch as int),
                cw,
                ch,
            ))
            &&& (r matches Err(e) ==> e is InvalidRegionDimensions)
        }),
{
    match clamp_region(x, y, width, height, frame.width, frame.height) {
        None => Err(CaptureError::InvalidRegionDimensions),
        Some(reg) => {
            let cropped = crop_rgba(&frame.pixels, frame.width, frame.height, &reg);
            match encode_png(&cropped, reg.width, reg.height) {
                Ok(b) => Ok(b),
                Err(m) => Err(CaptureError::EncodeFailed(m)),
            }
        },
    }
}

/// A descriptor carries a raw monitor's attributes with each missing value
/// replaced by its default.
pub open spec fn monitor_matches(m: MonitorInfo, r: RawMonitor) -> bool {
    &&& m.id == r.id.unwrap_or(0u32)
    &&& m.name@ == (match r.name {
        Some(n) => n@,
        None => ""@,
    })
    &&& m.width == r.width.unwrap_or(0u32)
    &&& m.height == r.height.unwrap_or(0u32)
    &&& m.x == r.x.unwrap_or(0i32)
    &&& m.y == r.y.unwrap_or(0i32)
    &&& m.is_primary == r.is_primary.unwrap_or(false)
}

/// A descriptor carries a raw window's attributes with each missing value
/// replaced by its default.
pub open spec fn window_matches(w: WindowInfo, r: RawWindow) -> bool {
    &&& w.id == r.id.unwrap_or(0u32)
    &&& w.app_name@ == (match r.app_name {
        Some(n) => n@,
        None => ""@,
    })
    &&& w.title@ == (match r.title {
        Some(t) => t@,
        None => ""@,
    })
    &&& w.x == r.x.unwrap_or(0i32)
    &&& w.y == r.y.unwrap_or(0i32)
    &&& w.width == r.width.unwrap_or(0u32)
    &&& w.height == r.height.unwrap_or(0u32)
}

/// Whether a raw window is user-facing: it reported a non-empty title.
pub open spec fn has_title(r: RawWindow) -> bool {
    match r.title {
        Some(t) => t@.len() > 0,
        None => false,
    }
}

/// Build the monitor list from raw platform attributes, one descriptor per
/// monitor, in enumeration order.
pub fn get_monitors(raw: Vec<RawMonitor>) -> (r: Vec<MonitorInfo>)
    ensures
        r@.len() == raw@.len(),
        forall|i: int| 0 <= i < raw@.len() ==> monitor_matches(#[trigger] r@[i], raw@[i]),
{
    let mut result: Vec<MonitorInfo> = Vec::new();
    let mut idx: usize = 0;
    let n = raw.len();
    while idx < n
        invariant
            n == raw@.len(),
            idx <= n,
            result@.len() == idx,
            forall|i: int| 0 <= i < idx ==> monitor_matches(#[trigger] result@[i], raw@[i]),
        decreases n - idx,
    {
        let m = &raw[idx];
        let name = match &m.name {
            Some(n) => n.clone(),
            None => String::from_str(""),
        };
        result.push(
            MonitorInfo {
                id: m.id.unwrap_or(0),
                name,
                width: m.width.unwrap_or(0),
                height: m.height.unwrap_or(0),
                x: m.x.unwrap_or(0),
                y: m.y.unwrap_or(0),
                is_primary: m.is_primary.unwrap_or(false),
            },
        );
        idx += 1;
    }
    result
}

/// Build the window list from raw platform attributes: windows with an
/// empty (or unreadable) title are excluded as non-user-facing; the rest
/// appear in enumeration order.
#[verifier::loop_isolation(false)]
pub fn get_windows(raw: Vec<RawWindow>) -> (r: Vec<WindowInfo>)
    ensures
        ({
            let kept = raw@.filter(|w: RawWindow| has_title(w));
            &&& r@.len() == kept.len()
            &&& forall|i: int| 0 <= i < kept.len() ==> window_matches(#[trigger] r@[i], kept[i])
        }),
{
    broadcast use vstd::seq_lib::group_seq_lib_default;

    let ghost pred = |w: RawWindow| has_title(w);
    let mut result: Vec<WindowInfo> = Vec::new();
    let mut idx: usize = 0;
    let n = raw.len();
    proof {
        assert(raw@.take(0int).filter(pred) =~= Seq::<RawWindow>::empty());
    }
    while idx < n
        invariant
            n == raw@.len(),
            idx <= n,
            result@.len() == raw@.take(idx as int).filter(pred).len(),
            forall|i: int|
                0 <= i < result@.len() ==> window_matches(
                    #[trigger] result@[i],
                    raw@.take(idx as int).filter(pred)[i],
                ),
        decreases n - idx,
    {
        let w = &raw[idx];
        let keep = match &w.title {
            Some(t) => !t.as_str().is_empty(),
            None => false,
        };
        proof {
            assert(raw@.take(idx + 1int) =~= raw@.take(idx as int) + seq![raw@[idx as int]]);
            Seq::<RawWindow>::filter_distributes_over_add(
                raw@.take(idx as int),
                seq![raw@[idx as int]],
                pred,
            );
            reveal(Seq::filter);
            let s1 = seq![raw@[idx as int]];
            assert(s1.drop_last() =~= Seq::<RawWindow>::empty());
            assert(Seq::<RawWindow>::empty().filter(pred) =~= Seq::<RawWindow>::empty());
            if pred(raw@[idx as int]) {
                assert(s1.filter(pred) =~= s1);
            } else {
                assert(s1.filter(pred) =~= Seq::<RawWindow>::empty());
            }
            assert(raw@.take(idx + 1int).filter(pred) =~= raw@.take(idx as int).filter(pred)
                + s1.filter(pred));
        }
        if keep {
            let title = match &w.title {
                Some(t) => t.clone(),
                None => String::from_str(""),
            };
            let app_name = match &w.app_name {
                Some(n) => n.clone(),
                None => String::from_str(""),
            };
            result.push(
                WindowInfo {
                    id: w.id.unwrap_or(0),
                    app_name,
                    title,
                    x: w.x.unwrap_or(0),
                    y: w.y.unwrap_or(0),
                    width: w.width.unwrap_or(0),
                    height: w.height.unwrap_or(0),
                },
            );
        }
        idx += 1;
    }
    proof {
        assert(raw@.take(n as int) =~= raw@);
    }
    result
}

/// Every window the enumeration returns carries a non-empty title: the
/// filter keeps only raw windows that reported one, and each descriptor
/// copies its raw window's title verbatim.
pub proof fn lemma_windows_have_titles(raws: Seq<RawWindow>, infos: Seq<WindowInfo>)
    requires
        infos.len() == raws.filter(|w: RawWindow| has_title(w)).len(),
        forall|i: int|
            0 <= i < infos.len() ==> window_matches(
                #[trigger] infos[i],
                raws.filter(|w: RawWindow| has_title(w))[i],
            ),
    ensures
        forall|i: int| 0 <= i < infos.len() ==> (#[trigger] infos[i]).title@.len() > 0,
{
    broadcast use vstd::seq_lib::group_filter_ensures;

    let pred = |w: RawWindow| has_title(w);
    assert forall|i: int| 0 <= i < infos.len() implies (#[trigger] infos[i]).title@.len() > 0 by {
        assert(pred(raws.filter(pred)[i]));
        assert(window_matches(infos[i], raws.filter(pred)[i]));
    }
}

/// Find the first monitor flagged primary, as the capture paths do:
/// the index of the first primary monitor, or the error every capture of
/// the primary monitor surfaces when none is flagged primary.
pub fn find_primary(monitors: &Vec<MonitorInfo>) -> (r: Result<usize, CaptureError>)
    ensures
        match r {
            Ok(i) => i < monitors@.len() && monitors@[i as int].is_primary && (forall|j: int|
                0 <= j < i ==> !(#[trigger] monitors@[j]).is_primary),
            Err(e) => e is NoPrimaryMonitor && (forall|j: int|
                0 <= j < monitors@.len() ==> !(#[trigger] monitors@[j]).is_primary),
        },
{
    let mut idx: usize = 0;
    let n = monitors.len();
    while idx < n
        invariant
            n == monitors@.len(),
            idx <= n,
            forall|j: int| 0 <= j < idx ==> !(#[trigger] monitors@[j]).is_primary,
        decreases n - idx,
    {
        if monitors[idx].is_primary {
            return Ok(idx);
        }
        idx += 1;
    }
    Err(CaptureError::NoPrimaryMonitor)
}

/// Find the first enumerated window carrying the requested id (an
/// unreadable id counts as zero, as the descriptors do), or the error a
/// window capture surfaces when the id matches none. The search runs over
/// the full enumeration: a window with an empty title can still be
/// captured by id.
pub fn select_window(windows: &Vec<RawWindow>, window_id: u32) -> (r: Result<usize, CaptureError>)
    ensures
        match r {
            Ok(i) => i < windows@.len() && windows@[i as int].id.unwrap_or(0u32) == window_id && (
            forall|j: int|
                0 <= j < i ==> (#[trigger] windows@[j]).id.unwrap_or(0u32) != window_id),
            Err(e) => e is WindowNotFound && (forall|j: int|
                0 <= j < windows@.len() ==> (#[trigger] windows@[j]).id.unwrap_or(0u32)
                    != window_id),
        },
{
    let mut idx: usize = 0;
    let n = windows.len();
    while idx < n
        invariant
            n == windows@.len(),
            idx <= n,
            forall|j: int| 0 <= j < idx ==> (#[trigger] windows@[j]).id.unwrap_or(0u32)
                != window_id,
        decreases n - idx,
    {
        if windows[idx].id.unwrap_or(0) == window_id {
            return Ok(idx);
        }
        idx += 1;
    }
    Err(CaptureError::WindowNotFound)
}

} // verus!
