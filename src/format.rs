use crate::text::{decimal, push_decimal};
use core::cmp::Ordering;
use vstd::prelude::*;
use vstd::std_specs::cmp::PartialOrdSpec;

verus! {

/// How the bytes of a frame are encoded (its FourCC).
/// YUYV is 4:2:2 luma/chroma, MJPEG is a stream of JPEG images.
#[derive(Copy, Clone, Debug, PartialEq, Eq, Structural, Hash, PartialOrd, Ord)]
pub enum FrameFormat {
    MJPEG,
    YUYV,
}

/// The name of a frame format.
pub open spec fn frame_format_name(f: FrameFormat) -> Seq<char> {
    match f {
        FrameFormat::MJPEG => "MJPEG"@,
        FrameFormat::YUYV => "YUYV"@,
    }
}

/// The four-character code that Video4Linux gives a frame format.
pub open spec fn frame_format_fourcc(f: FrameFormat) -> Seq<u8> {
    match f {
        FrameFormat::MJPEG => seq![0x4d, 0x4a, 0x50, 0x47],
        FrameFormat::YUYV => seq![0x59, 0x55, 0x59, 0x56],
    }
}

impl FrameFormat {
    /// The format's name: `MJPEG` or `YUYV`.
    pub fn to_string(&self) -> (r: String)
        ensures
            r@ == frame_format_name(*self),
    {
        match self {
            FrameFormat::MJPEG => String::from_str("MJPEG"),
            FrameFormat::YUYV => String::from_str("YUYV"),
        }
    }

    /// The format's Video4Linux code: `MJPG` or `YUYV`.
    pub fn fourcc(&self) -> (r: [u8; 4])
        ensures
            r@ == frame_format_fourcc(*self),
    {
        let r: [u8; 4] = match self {
            FrameFormat::MJPEG => [0x4d, 0x4a, 0x50, 0x47],
            FrameFormat::YUYV => [0x59, 0x55, 0x59, 0x56],
        };
        assert(r@ =~= frame_format_fourcc(*self));
        r
    }
}

/// The width and height of a stream, in pixels.
///
/// Resolutions are ordered by width, then by height, both ascending.
#[derive(Copy, Clone, Debug, Default, PartialEq, Eq, Structural, Hash, Ord)]
pub struct Resolution {
    pub width_x: u32,
    pub height_y: u32,
}

/// The order of resolutions: by width, then by height.
pub open spec fn resolution_cmp(a: Resolution, b: Resolution) -> Ordering {
    if a.width_x < b.width_x {
        Ordering::Less
    } else if a.width_x > b.width_x {
        Ordering::Greater
    } else if a.height_y < b.height_y {
        Ordering::Less
    } else if a.height_y > b.height_y {
        Ordering::Greater
    } else {
        Ordering::Equal
    }
}

/// `width x height`, as in `640x480`.
pub open spec fn resolution_text(r: Resolution) -> Seq<char> {
    decimal(r.width_x as nat) + "x"@ + decimal(r.height_y as nat)
}

impl PartialOrd for Resolution {
    fn partial_cmp(&self, other: &Resolution) -> (r: Option<Ordering>) {
        if self.width_x < other.width_x {
            Some(Ordering::Less)
        } else if self.width_x > other.width_x {
            Some(Ordering::Greater)
        } else if self.height_y < other.height_y {
            Some(Ordering::Less)
        } else if self.height_y > other.height_y {
            Some(Ordering::Greater)
        } else {
            Some(Ordering::Equal)
        }
    }
}

impl vstd::std_specs::cmp::PartialOrdSpecImpl for Resolution {
    open spec fn obeys_partial_cmp_spec() -> bool {
        true
    }

    open spec fn partial_cmp_spec(&self, other: &Resolution) -> Option<Ordering> {
        Some(resolution_cmp(*self, *other))
    }
}

/// Resolutions are ordered width first, then height, both ascending: `a < b` exactly when
/// `a` is narrower, or as wide and shorter; they compare equal exactly when they are equal;
/// and the order is total, antisymmetric and transitive.
pub proof fn resolution_order(a: Resolution, b: Resolution, c: Resolution)
    ensures
        a.partial_cmp_spec(&b) == Some(Ordering::Less) <==> (a.width_x < b.width_x || (a.width_x == b.width_x && a.height_y < b.height_y)),
        a.partial_cmp_spec(&b) == Some(Ordering::Equal) <==> a == b,
        a.partial_cmp_spec(&b) == Some(Ordering::Less) <==> b.partial_cmp_spec(&a) == Some(Ordering::Greater),
        a.partial_cmp_spec(&b) is Some,
        a.partial_cmp_spec(&b) == Some(Ordering::Less) && b.partial_cmp_spec(&c) == Some(Ordering::Less) ==> a.partial_cmp_spec(&c) == Some(Ordering::Less),
{
}

impl Resolution {
    /// A resolution of `x` by `y` pixels.
    pub fn new(x: u32, y: u32) -> (r: Self)
        ensures
            r.width_x == x,
            r.height_y == y,
    {
        Resolution { width_x: x, height_y: y }
    }

    /// The width.
    pub fn width(self) -> (r: u32)
        ensures
            r == self.width_x,
    {
        self.width_x
    }

    /// The height.
    pub fn height(self) -> (r: u32)
        ensures
            r == self.height_y,
    {
        self.height_y
    }

    /// The width (x).
    pub fn x(self) -> (r: u32)
        ensures
            r == self.width_x,
    {
        self.width_x
    }

    /// The height (y).
    pub fn y(self) -> (r: u32)
        ensures
            r == self.height_y,
    {
        self.height_y
    }

    /// `width x height`, as in `640x480`.
    pub fn to_string(&self) -> (r: String)
        ensures
            r@ == resolution_text(*self),
    {
        let mut r = String::new();
        push_decimal(&mut r, self.width_x as u64);
        r.append("x");
        push_decimal(&mut r, self.height_y as u64);
        assert(r@ =~= resolution_text(*self));
        r
    }
}

/// The format of a stream: its resolution, frame format and frame rate.
#[derive(Copy, Clone, Debug, PartialEq, Eq, Structural, Hash)]
pub struct CameraFormat {
    resolution: Resolution,
    format: FrameFormat,
    frame_rate: u32,
}

/// `resolution@rateFPS, format Format`, as in `640x480@15FPS, MJPEG Format`.
pub open spec fn camera_format_text(res: Resolution, format: FrameFormat, frame_rate: u32) -> Seq<char> {
    resolution_text(res) + "@"@ + decimal(frame_rate as nat) + "FPS, "@ + frame_format_name(format) + " Format"@
}

impl CameraFormat {
    /// The resolution.
    pub closed spec fn spec_resolution(self) -> Resolution {
        self.resolution
    }

    /// The frame format.
    pub closed spec fn spec_format(self) -> FrameFormat {
        self.format
    }

    /// The frame rate, in frames per second.
    pub closed spec fn spec_frame_rate(self) -> u32 {
        self.frame_rate
    }

    /// A format of `resolution`, `format` and `framerate` frames per second.
    pub fn new(resolution: Resolution, format: FrameFormat, framerate: u32) -> (r: Self)
        ensures
            r.spec_resolution() == resolution,
            r.spec_format() == format,
            r.spec_frame_rate() == framerate,
    {
        CameraFormat { resolution, format, frame_rate: framerate }
    }

    /// [`CameraFormat::new`] from the width and height.
    pub fn new_from(res_x: u32, res_y: u32, format: FrameFormat, fps: u32) -> (r: Self)
        ensures
            r.spec_resolution() == (Resolution { width_x: res_x, height_y: res_y }),
            r.spec_format() == format,
            r.spec_frame_rate() == fps,
    {
        CameraFormat { resolution: Resolution::new(res_x, res_y), format, frame_rate: fps }
    }

    /// The resolution.
    pub fn resolution(&self) -> (r: Resolution)
        ensures
            r == self.spec_resolution(),
    {
        self.resolution
    }

    /// The width of the resolution.
    pub fn width(&self) -> (r: u32)
        ensures
            r == self.spec_resolution().width_x,
    {
        self.resolution.width()
    }

    /// The height of the resolution.
    pub fn height(&self) -> (r: u32)
        ensures
            r == self.spec_resolution().height_y,
    {
        self.resolution.height()
    }

    /// Sets the resolution.
    pub fn set_resolution(&mut self, resolution: Resolution)
        ensures
            final(self).spec_resolution() == resolution,
            final(self).spec_format() == old(self).spec_format(),
            final(self).spec_frame_rate() == old(self).spec_frame_rate(),
    {
        self.resolution = resolution;
    }

    /// The frame rate, in frames per second.
    pub fn frame_rate(&self) -> (r: u32)
        ensures
            r == self.spec_frame_rate(),
    {
        self.frame_rate
    }

    /// Sets the frame rate.
    pub fn set_frame_rate(&mut self, frame_rate: u32)
        ensures
            final(self).spec_resolution() == old(self).spec_resolution(),
            final(self).spec_format() == old(self).spec_format(),
            final(self).spec_frame_rate() == frame_rate,
    {
        self.frame_rate = frame_rate;
    }

    /// The frame format.
    pub fn format(&self) -> (r: FrameFormat)
        ensures
            r == self.spec_format(),
    {
        self.format
    }

    /// Sets the frame format.
    pub fn set_format(&mut self, format: FrameFormat)
        ensures
            final(self).spec_resolution() == old(self).spec_resolution(),
            final(self).spec_format() == format,
            final(self).spec_frame_rate() == old(self).spec_frame_rate(),
    {
        self.format = format;
    }

    /// `resolution@rateFPS, format Format`, as in `640x480@15FPS, MJPEG Format`.
    pub fn to_string(&self) -> (r: String)
        ensures
            r@ == camera_format_text(self.spec_resolution(), self.spec_format(), self.spec_frame_rate()),
    {
        let mut r = self.resolution.to_string();
        r.append("@");
        push_decimal(&mut r, self.frame_rate as u64);
        r.append("FPS, ");
        let name = self.format.to_string();
        r.append(name.as_str());
        r.append(" Format");
        assert(r@ =~= camera_format_text(self.spec_resolution(), self.spec_format(), self.spec_frame_rate()));
        r
    }
}

impl Default for CameraFormat {
    /// 640x480, MJPEG, 15 frames per second.
    fn default() -> (r: Self)
        ensures
            r.spec_resolution() == (Resolution { width_x: 640, height_y: 480 }),
            r.spec_format() == FrameFormat::MJPEG,
            r.spec_frame_rate() == 15,
    {
        CameraFormat { resolution: Resolution::new(640, 480), format: FrameFormat::MJPEG, frame_rate: 15 }
    }
}

/// What a system says of a camera. `description` and `misc` may hold backend-specific text;
/// `index` is the camera's position as the system lists it.
#[derive(Clone, Debug, Default, PartialEq, Eq, Hash)]
pub struct CameraInfo {
    human_name: String,
    description: String,
    misc: String,
    index: usize,
}

/// `Name: n, Description: d, Extra: m, Index: i`.
pub open spec fn camera_info_text(name: Seq<char>, description: Seq<char>, misc: Seq<char>, index: usize) -> Seq<char> {
    "Name: "@ + name + ", Description: "@ + description + ", Extra: "@ + misc + ", Index: "@ + decimal(index as nat)
}

impl CameraInfo {
    /// The camera's name.
    pub closed spec fn spec_human_name(&self) -> Seq<char> {
        self.human_name@
    }

    /// The camera's description.
    pub closed spec fn spec_description(&self) -> Seq<char> {
        self.description@
    }

    /// Other information about the camera.
    pub closed spec fn spec_misc(&self) -> Seq<char> {
        self.misc@
    }

    /// The camera's index.
    pub closed spec fn spec_index(&self) -> usize {
        self.index
    }

    /// Information about a camera.
    pub fn new(human_name: String, description: String, misc: String, index: usize) -> (r: Self)
        ensures
            r.spec_human_name() == human_name@,
            r.spec_description() == description@,
            r.spec_misc() == misc@,
            r.spec_index() == index,
    {
        CameraInfo { human_name, description, misc, index }
    }

    /// The camera's name.
    pub fn human_name(&self) -> (r: &String)
        ensures
            r@ == self.spec_human_name(),
    {
        &self.human_name
    }

    /// Sets the camera's name.
    pub fn set_human_name(&mut self, human_name: String)
        ensures
            final(self).spec_human_name() == human_name@,
            final(self).spec_description() == old(self).spec_description(),
            final(self).spec_misc() == old(self).spec_misc(),
            final(self).spec_index() == old(self).spec_index(),
    {
        self.human_name = human_name;
    }

    /// The camera's description.
    pub fn description(&self) -> (r: &String)
        ensures
            r@ == self.spec_description(),
    {
        &self.description
    }

    /// Sets the camera's description.
    pub fn set_description(&mut self, description: String)
        ensures
            final(self).spec_human_name() == old(self).spec_human_name(),
            final(self).spec_description() == description@,
            final(self).spec_misc() == old(self).spec_misc(),
            final(self).spec_index() == old(self).spec_index(),
    {
        self.description = description;
    }

    /// Other information about the camera.
    pub fn misc(&self) -> (r: &String)
        ensures
            r@ == self.spec_misc(),
    {
        &self.misc
    }

    /// Sets the other information about the camera.
    pub fn set_misc(&mut self, misc: String)
        ensures
            final(self).spec_human_name() == old(self).spec_human_name(),
            final(self).spec_description() == old(self).spec_description(),
            final(self).spec_misc() == misc@,
            final(self).spec_index() == old(self).spec_index(),
    {
        self.misc = misc;
    }

    /// The camera's index.
    pub fn index(&self) -> (r: &usize)
        ensures
            *r == self.spec_index(),
    {
        &self.index
    }

    /// Sets the camera's index.
    pub fn set_index(&mut self, index: usize)
        ensures
            final(self).spec_human_name() == old(self).spec_human_name(),
            final(self).spec_description() == old(self).spec_description(),
            final(self).spec_misc() == old(self).spec_misc(),
            final(self).spec_index() == index,
    {
        self.index = index;
    }

    /// The information about a browser media device when it is a video input: its label as
    /// the name, its kind as the description, `group:device` as the other information, and
    /// its position in the browser's list as the index. Other devices give nothing.
    pub fn from_media_device(
        is_video_input: bool,
        label: String,
        kind: String,
        group_id: &str,
        device_id: &str,
        index: usize,
    ) -> (r: Option<Self>)
        ensures
            r is Some <==> is_video_input,
            r matches Some(info) ==> {
                &&& info.spec_human_name() == label@
                &&& info.spec_description() == kind@
                &&& info.spec_misc() == group_id@ + ":"@ + device_id@
                &&& info.spec_index() == index
            },
    {
        if !is_video_input {
            return None;
        }
        let mut misc = String::from_str(group_id);
        misc.append(":");
        misc.append(device_id);
        Some(CameraInfo { human_name: label, description: kind, misc, index })
    }

    /// `Name: n, Description: d, Extra: m, Index: i`.
    pub fn to_string(&self) -> (r: String)
        ensures
            r@ == camera_info_text(self.spec_human_name(), self.spec_description(), self.spec_misc(), self.spec_index()),
    {
        let mut r = String::from_str("Name: ");
        r.append(self.human_name.as_str());
        r.append(", Description: ");
        r.append(self.description.as_str());
        r.append(", Extra: ");
        r.append(self.misc.as_str());
        r.append(", Index: ");
        push_decimal(&mut r, self.index as u64);
        assert(r@ =~= camera_info_text(self.spec_human_name(), self.spec_description(), self.spec_misc(), self.spec_index()));
        r
    }
}

/// How a camera is addressed: a device index, or the URL of an IP camera
/// (`<protocol>://<ip>:<port>/`).
#[derive(Clone, Debug, PartialEq)]
pub enum CameraIndexType {
    Index(u32),
    IPCamera(String),
}

impl CameraIndexType {
    /// The index in decimal, or the URL.
    pub fn to_string(&self) -> (r: String)
        ensures
            r@ == match self {
                CameraIndexType::Index(i) => decimal(*i as nat),
                CameraIndexType::IPCamera(url) => url@,
            },
    {
        match self {
            CameraIndexType::Index(i) => {
                let mut r = String::new();
                push_decimal(&mut r, *i as u64);
                assert(r@ =~= decimal(*i as nat));
                r
            },
            CameraIndexType::IPCamera(url) => url.clone(),
        }
    }
}

/// The capture backends the library knows.
#[derive(Clone, Copy, Debug, PartialEq, Eq, Structural)]
pub enum CaptureAPIBackend {
    /// Let the library pick the backend best suited to the platform.
    Auto,
    AVFoundation,
    Video4Linux,
    UniversalVideoClass,
    MediaFoundation,
    OpenCv,
    GStreamer,
}

/// The name of a backend.
pub open spec fn backend_name(b: CaptureAPIBackend) -> Seq<char> {
    match b {
        CaptureAPIBackend::Auto => "Auto"@,
        CaptureAPIBackend::AVFoundation => "AVFoundation"@,
        CaptureAPIBackend::Video4Linux => "Video4Linux"@,
        CaptureAPIBackend::UniversalVideoClass => "UniversalVideoClass"@,
        CaptureAPIBackend::MediaFoundation => "MediaFoundation"@,
        CaptureAPIBackend::OpenCv => "OpenCv"@,
        CaptureAPIBackend::GStreamer => "GStreamer"@,
    }
}

impl CaptureAPIBackend {
    /// The backend's name, as in `Video4Linux`.
    pub fn to_string(&self) -> (r: String)
        ensures
            r@ == backend_name(*self),
    {
        match self {
            CaptureAPIBackend::Auto => String::from_str("Auto"),
            CaptureAPIBackend::AVFoundation => String::from_str("AVFoundation"),
            CaptureAPIBackend::Video4Linux => String::from_str("Video4Linux"),
            CaptureAPIBackend::UniversalVideoClass => String::from_str("UniversalVideoClass"),
            CaptureAPIBackend::MediaFoundation => String::from_str("MediaFoundation"),
            CaptureAPIBackend::OpenCv => String::from_str("OpenCv"),
            CaptureAPIBackend::GStreamer => String::from_str("GStreamer"),
        }
    }
}

} // verus!
