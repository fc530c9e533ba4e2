use crate::error::NokhwaError;
use crate::format::Resolution;
use crate::text::{decimal, decimal_string, push_decimal};
use vstd::prelude::*;

verus! {

/// The video constraints that a browser may support.
#[derive(Copy, Clone, Debug, PartialEq, Eq, Structural, Hash, PartialOrd, Ord)]
pub enum JSCameraSupportedCapabilities {
    DeviceID,
    GroupID,
    AspectRatio,
    FacingMode,
    FrameRate,
    Height,
    Width,
    ResizeMode,
}

/// The name of a constraint in the browser's media API.
pub open spec fn capability_name(c: JSCameraSupportedCapabilities) -> Seq<char> {
    match c {
        JSCameraSupportedCapabilities::DeviceID => "deviceId"@,
        JSCameraSupportedCapabilities::GroupID => "groupId"@,
        JSCameraSupportedCapabilities::AspectRatio => "aspectRatio"@,
        JSCameraSupportedCapabilities::FacingMode => "facingMode"@,
        JSCameraSupportedCapabilities::FrameRate => "frameRate"@,
        JSCameraSupportedCapabilities::Height => "height"@,
        JSCameraSupportedCapabilities::Width => "width"@,
        JSCameraSupportedCapabilities::ResizeMode => "resizeMode"@,
    }
}

/// Whether `s` names one of the constraints.
pub open spec fn is_capability_name(s: Seq<char>) -> bool {
    exists|c: JSCameraSupportedCapabilities| capability_name(c) == s
}

impl JSCameraSupportedCapabilities {
    /// The constraint's name in the browser's media API (`deviceId`, `frameRate`, ...).
    pub fn to_string(&self) -> (r: String)
        ensures
            r@ == capability_name(*self),
    {
        match self {
            JSCameraSupportedCapabilities::DeviceID => String::from_str("deviceId"),
            JSCameraSupportedCapabilities::GroupID => String::from_str("groupId"),
            JSCameraSupportedCapabilities::AspectRatio => String::from_str("aspectRatio"),
            JSCameraSupportedCapabilities::FacingMode => String::from_str("facingMode"),
            JSCameraSupportedCapabilities::FrameRate => String::from_str("frameRate"),
            JSCameraSupportedCapabilities::Height => String::from_str("height"),
            JSCameraSupportedCapabilities::Width => String::from_str("width"),
            JSCameraSupportedCapabilities::ResizeMode => String::from_str("resizeMode"),
        }
    }

    /// The constraint named `value`.
    ///
    /// # Errors
    /// A name that is not one of the constraints gives a `StructureError`.
    pub fn try_from(value: String) -> (r: Result<Self, NokhwaError>)
        ensures
            r is Ok <==> is_capability_name(value@),
            r matches Ok(c) ==> capability_name(c) == value@,
            r matches Err(e) ==> e is StructureError,
    {
        let all: [JSCameraSupportedCapabilities; 8] = [
            JSCameraSupportedCapabilities::DeviceID,
            JSCameraSupportedCapabilities::GroupID,
            JSCameraSupportedCapabilities::AspectRatio,
            JSCameraSupportedCapabilities::FacingMode,
            JSCameraSupportedCapabilities::FrameRate,
            JSCameraSupportedCapabilities::Height,
            JSCameraSupportedCapabilities::Width,
            JSCameraSupportedCapabilities::ResizeMode,
        ];
        let mut i: usize = 0;
        while i < 8
            invariant
                0 <= i <= 8,
                forall|c: JSCameraSupportedCapabilities| #[trigger] capability_name(c) == value@ ==> exists|j: int| i <= j < 8 && all@[j] == c,
                all@ == seq![
                    JSCameraSupportedCapabilities::DeviceID,
                    JSCameraSupportedCapabilities::GroupID,
                    JSCameraSupportedCapabilities::AspectRatio,
                    JSCameraSupportedCapabilities::FacingMode,
                    JSCameraSupportedCapabilities::FrameRate,
                    JSCameraSupportedCapabilities::Height,
                    JSCameraSupportedCapabilities::Width,
                    JSCameraSupportedCapabilities::ResizeMode,
                ],
            decreases 8 - i,
        {
            let c = all[i];
            if c.to_string() == value {
                return Ok(c);
            }
            i = i + 1;
        }
        Err(
            NokhwaError::StructureError {
                structure: String::from_str("JSCameraSupportedCapabilities"),
                error: String::from_str("No Match Str"),
            },
        )
    }
}

/// The text of each string.
pub open spec fn string_views(names: Seq<String>) -> Seq<Seq<char>> {
    names.map_values(|s: String| s@)
}

/// The names among `names` that name a constraint, in their order.
pub open spec fn known_capability_names(names: Seq<Seq<char>>) -> Seq<Seq<char>> {
    names.filter(|s: Seq<char>| is_capability_name(s))
}

/// The constraints named in `names`, in their order; names of no constraint are skipped.
pub fn supported_capabilities(names: &[String]) -> (r: Vec<JSCameraSupportedCapabilities>)
    ensures
        r@.map_values(|c: JSCameraSupportedCapabilities| capability_name(c)) == known_capability_names(string_views(names@)),
{
    let mut out: Vec<JSCameraSupportedCapabilities> = Vec::new();
    let mut i: usize = 0;
    while i < names.len()
        invariant
            i <= names@.len(),
            out@.map_values(|c: JSCameraSupportedCapabilities| capability_name(c)) == known_capability_names(string_views(names@.take(i as int))),
        decreases names@.len() - i,
    {
        let ghost before = out@;
        let name = names[i].clone();
        let found = JSCameraSupportedCapabilities::try_from(name);
        if let Ok(c) = found {
            out.push(c);
        }
        proof {
            reveal(Seq::filter);
            let next = string_views(names@.take(i + 1));
            assert(next.drop_last() =~= string_views(names@.take(i as int)));
            assert(next.last() == names@[i as int]@);
            assert(known_capability_names(next) == if is_capability_name(next.last()) {
                known_capability_names(next.drop_last()).push(next.last())
            } else {
                known_capability_names(next.drop_last())
            });
            if found is Ok {
                assert(out@ =~= before.push(found->Ok_0));
                assert(out@.map_values(|c: JSCameraSupportedCapabilities| capability_name(c)) =~= before.map_values(
                    |c: JSCameraSupportedCapabilities| capability_name(c),
                ).push(next.last()));
            } else {
                assert(out@ =~= before);
            }
        }
        i = i + 1;
    }
    assert(names@.take(names@.len() as int) =~= names@);
    out
}

/// Which way the camera faces.
#[derive(Copy, Clone, Debug, PartialEq, Eq, Structural, Hash, PartialOrd, Ord)]
pub enum JSCameraFacingMode {
    /// No particular choice.
    Any,
    /// Shows the user's environment, like the back camera of a phone.
    Environment,
    /// Shows the user, like the front camera of a phone.
    User,
    /// Shows the user from their left.
    Left,
    /// Shows the user from their right.
    Right,
}

/// The name of a facing mode in the browser's media API.
pub open spec fn facing_mode_name(m: JSCameraFacingMode) -> Seq<char> {
    match m {
        JSCameraFacingMode::Any => "any"@,
        JSCameraFacingMode::Environment => "environment"@,
        JSCameraFacingMode::User => "user"@,
        JSCameraFacingMode::Left => "left"@,
        JSCameraFacingMode::Right => "right"@,
    }
}

impl JSCameraFacingMode {
    /// The facing mode's name in the browser's media API.
    pub fn to_string(&self) -> (r: String)
        ensures
            r@ == facing_mode_name(*self),
    {
        match self {
            JSCameraFacingMode::Any => String::from_str("any"),
            JSCameraFacingMode::Environment => String::from_str("environment"),
            JSCameraFacingMode::User => String::from_str("user"),
            JSCameraFacingMode::Left => String::from_str("left"),
            JSCameraFacingMode::Right => String::from_str("right"),
        }
    }
}

/// Whether the browser may crop or scale the stream to reach the requested resolution.
#[derive(Copy, Clone, Debug, PartialEq, Eq, Structural, Hash, PartialOrd, Ord)]
pub enum JSCameraResizeMode {
    /// No particular choice.
    Any,
    /// Neither crop nor scale.
    NoResize,
    /// Crop and scale as needed.
    CropAndScale,
}

/// The name of a resize mode in the browser's media API.
pub open spec fn resize_mode_name(m: JSCameraResizeMode) -> Seq<char> {
    match m {
        JSCameraResizeMode::Any => ""@,
        JSCameraResizeMode::NoResize => "none"@,
        JSCameraResizeMode::CropAndScale => "crop-and-scale"@,
    }
}

impl JSCameraResizeMode {
    /// The resize mode's name in the browser's media API (empty for `Any`).
    pub fn to_string(&self) -> (r: String)
        ensures
            r@ == resize_mode_name(*self),
    {
        match self {
            JSCameraResizeMode::Any => String::from_str(""),
            JSCameraResizeMode::NoResize => String::from_str("none"),
            JSCameraResizeMode::CropAndScale => String::from_str("crop-and-scale"),
        }
    }
}

/// An aspect ratio `width : height`, such as 16 : 9.
/// A ratio with a zero term is unset: it constrains nothing.
#[derive(Copy, Clone, Debug, Default, PartialEq, Eq, Structural, Hash)]
pub struct AspectRatio {
    pub width: u32,
    pub height: u32,
}

impl AspectRatio {
    /// Whether the ratio constrains the stream.
    pub open spec fn is_set(self) -> bool {
        self.width != 0 && self.height != 0
    }

    /// The ratio as a division that the browser evaluates, `width/height`.
    pub open spec fn text(self) -> Seq<char> {
        decimal(self.width as nat) + "/"@ + decimal(self.height as nat)
    }

    /// The ratio `width : height`.
    pub fn new(width: u32, height: u32) -> (r: Self)
        ensures
            r.width == width,
            r.height == height,
    {
        AspectRatio { width, height }
    }
}

/// The eight directives of a constraint request, each with its `exact` flag, as plain values.
pub struct ConstraintDirectives {
    pub resolution: Resolution,
    pub resolution_exact: bool,
    pub aspect_ratio: AspectRatio,
    pub aspect_ratio_exact: bool,
    pub facing_mode: JSCameraFacingMode,
    pub facing_mode_exact: bool,
    pub frame_rate: u32,
    pub frame_rate_exact: bool,
    pub resize_mode: JSCameraResizeMode,
    pub resize_mode_exact: bool,
    pub device_id: Seq<char>,
    pub device_id_exact: bool,
    pub group_id: Seq<char>,
    pub group_id_exact: bool,
}

/// One rendered directive: `name: { exact: value }` or `name: { ideal: value }`.
pub open spec fn directive(name: Seq<char>, exact: bool, value: Seq<char>) -> Seq<char> {
    name + ": { "@ + (if exact { "exact"@ } else { "ideal"@ }) + ": "@ + value + " }"@
}

/// `s` between double quotes, as it is, without escaping.
pub open spec fn quoted(s: Seq<char>) -> Seq<char> {
    "\""@ + s + "\""@
}

/// `[s]` when `present`, else nothing.
pub open spec fn optional(present: bool, s: Seq<char>) -> Seq<Seq<char>> {
    if present {
        seq![s]
    } else {
        seq![]
    }
}

/// The items separated by `, `.
pub open spec fn joined(items: Seq<Seq<char>>) -> Seq<char>
    decreases items.len(),
{
    if items.len() == 0 {
        seq![]
    } else if items.len() == 1 {
        items[0]
    } else {
        joined(items.drop_last()) + ", "@ + items.last()
    }
}

impl ConstraintDirectives {
    /// The rendered directives, sorted by name; a directive at its zero, empty or `Any` value
    /// renders nothing.
    pub open spec fn fragments(self) -> Seq<Seq<char>> {
        optional(
            self.aspect_ratio.is_set(),
            directive("aspectRatio"@, self.aspect_ratio_exact, self.aspect_ratio.text()),
        ) + optional(
            self.device_id.len() > 0,
            directive("deviceId"@, self.device_id_exact, quoted(self.device_id)),
        ) + optional(
            self.facing_mode != JSCameraFacingMode::Any,
            directive("facingMode"@, self.facing_mode_exact, quoted(facing_mode_name(self.facing_mode))),
        ) + optional(
            self.frame_rate != 0,
            directive("frameRate"@, self.frame_rate_exact, decimal(self.frame_rate as nat)),
        ) + optional(
            self.group_id.len() > 0,
            directive("groupId"@, self.group_id_exact, quoted(self.group_id)),
        ) + optional(
            self.resolution.height_y != 0,
            directive("height"@, self.resolution_exact, decimal(self.resolution.height_y as nat)),
        ) + optional(
            self.resize_mode != JSCameraResizeMode::Any,
            directive("resizeMode"@, self.resize_mode_exact, quoted(resize_mode_name(self.resize_mode))),
        ) + optional(
            self.resolution.width_x != 0,
            directive("width"@, self.resolution_exact, decimal(self.resolution.width_x as nat)),
        )
    }

    /// The video part of the request: `true` (any video source) when no directive renders,
    /// else `{ fragment, fragment, ... }`.
    pub open spec fn video_request(self) -> Seq<char> {
        if self.fragments().len() == 0 {
            "true"@
        } else {
            "{ "@ + joined(self.fragments()) + " }"@
        }
    }

    /// The script that evaluates to the request: video as above, no audio.
    pub open spec fn request_source(self) -> Seq<char> {
        "return { audio: false, video: "@ + self.video_request() + " };"@
    }
}

impl ConstraintDirectives {
    /// The directives a new builder starts with: 640x480, a 16:9 aspect ratio, 15 frames per
    /// second, `Any` facing and resize mode, empty ids, none exact.
    pub open spec fn initial() -> ConstraintDirectives {
        ConstraintDirectives {
            resolution: Resolution { width_x: 640, height_y: 480 },
            aspect_ratio: AspectRatio { width: 16, height: 9 },
            frame_rate: 15,
            ..ConstraintDirectives::unset()
        }
    }

    /// Every directive at its zero, empty or `Any` value, none exact.
    pub open spec fn unset() -> ConstraintDirectives {
        ConstraintDirectives {
            resolution: Resolution { width_x: 0, height_y: 0 },
            resolution_exact: false,
            aspect_ratio: AspectRatio { width: 0, height: 0 },
            aspect_ratio_exact: false,
            facing_mode: JSCameraFacingMode::Any,
            facing_mode_exact: false,
            frame_rate: 0,
            frame_rate_exact: false,
            resize_mode: JSCameraResizeMode::Any,
            resize_mode_exact: false,
            device_id: seq![],
            device_id_exact: false,
            group_id: seq![],
            group_id_exact: false,
        }
    }
}

/// Whether `a` comes strictly before `b` in code-point order.
pub open spec fn text_before(a: Seq<char>, b: Seq<char>) -> bool {
    exists|i: int|
        0 <= i <= a.len() && i <= b.len() && #[trigger] a.take(i) == b.take(i) && ((i == a.len() && i
            < b.len()) || (i < a.len() && i < b.len() && (a[i] as int) < (b[i] as int)))
}

/// Whether each item comes strictly before every later one: sorted, with no duplicates.
pub open spec fn strictly_sorted(items: Seq<Seq<char>>) -> bool {
    forall|i: int, j: int| 0 <= i < j < items.len() ==> text_before(#[trigger] items[i], #[trigger] items[j])
}

/// Whether `a`'s first two code points come strictly before `b`'s.
spec fn lead_lt(a: Seq<char>, b: Seq<char>) -> bool {
    (a[0] as int) < (b[0] as int) || (a[0] == b[0] && (a[1] as int) < (b[1] as int))
}

/// Every item has two characters at least, the items' leads increase, and all come before `next`'s.
spec fn leads_before(items: Seq<Seq<char>>, next: Seq<char>) -> bool {
    &&& forall|i: int| 0 <= i < items.len() ==> (#[trigger] items[i]).len() >= 2 && lead_lt(items[i], next)
    &&& forall|i: int, j: int| 0 <= i < j < items.len() ==> lead_lt(#[trigger] items[i], #[trigger] items[j])
}

proof fn lead_before(a: Seq<char>, b: Seq<char>)
    requires
        a.len() >= 2,
        b.len() >= 2,
        lead_lt(a, b),
    ensures
        text_before(a, b),
{
    if (a[0] as int) < (b[0] as int) {
        assert(a.take(0) =~= b.take(0));
    } else {
        assert(a.take(1) =~= b.take(1));
    }
}

proof fn leads_append(items: Seq<Seq<char>>, present: bool, f: Seq<char>, next: Seq<char>)
    requires
        leads_before(items, f),
        f.len() >= 2,
        next.len() >= 2,
        lead_lt(f, next),
    ensures
        leads_before(items + optional(present, f), next),
{
    let r = items + optional(present, f);
    assert forall|i: int| 0 <= i < r.len() implies (#[trigger] r[i]).len() >= 2 && lead_lt(r[i], next) by {
        if i < items.len() {
            assert(r[i] == items[i]);
        } else {
            assert(r[i] == f);
        }
    }
    assert forall|i: int, j: int| 0 <= i < j < r.len() implies lead_lt(#[trigger] r[i], #[trigger] r[j]) by {
        assert(r[i] == items[i]);
        if j < items.len() {
            assert(r[j] == items[j]);
        } else {
            assert(r[j] == f);
        }
    }
}

/// A directive's rendering starts with its name.
proof fn directive_starts_with_name(name: Seq<char>, exact: bool, value: Seq<char>)
    requires
        name.len() >= 2,
    ensures
        directive(name, exact, value).len() >= 2,
        directive(name, exact, value)[0] == name[0],
        directive(name, exact, value)[1] == name[1],
{
    let rest = ": { "@ + (if exact { "exact"@ } else { "ideal"@ }) + ": "@ + value + " }"@;
    assert(directive(name, exact, value) =~= name + rest);
}

/// The eight candidate fragments of `d`, in the order in which they are rendered.
spec fn candidates(d: ConstraintDirectives) -> Seq<Seq<char>> {
    seq![
        directive("aspectRatio"@, d.aspect_ratio_exact, d.aspect_ratio.text()),
        directive("deviceId"@, d.device_id_exact, quoted(d.device_id)),
        directive("facingMode"@, d.facing_mode_exact, quoted(facing_mode_name(d.facing_mode))),
        directive("frameRate"@, d.frame_rate_exact, decimal(d.frame_rate as nat)),
        directive("groupId"@, d.group_id_exact, quoted(d.group_id)),
        directive("height"@, d.resolution_exact, decimal(d.resolution.height_y as nat)),
        directive("resizeMode"@, d.resize_mode_exact, quoted(resize_mode_name(d.resize_mode))),
        directive("width"@, d.resolution_exact, decimal(d.resolution.width_x as nat)),
        seq!['x', 'a'],
    ]
}

/// Each candidate fragment has two characters at least and leads the next one.
proof fn candidates_lead(d: ConstraintDirectives)
    ensures
        forall|k: int| 0 <= k < 9 ==> (#[trigger] candidates(d)[k]).len() >= 2,
        forall|k: int| 0 <= k < 8 ==> lead_lt(#[trigger] candidates(d)[k], candidates(d)[k + 1]),
{
    let c = candidates(d);
    reveal_strlit("aspectRatio");
    reveal_strlit("deviceId");
    reveal_strlit("facingMode");
    reveal_strlit("frameRate");
    reveal_strlit("groupId");
    reveal_strlit("height");
    reveal_strlit("resizeMode");
    reveal_strlit("width");
    directive_starts_with_name("aspectRatio"@, d.aspect_ratio_exact, d.aspect_ratio.text());
    directive_starts_with_name("deviceId"@, d.device_id_exact, quoted(d.device_id));
    directive_starts_with_name("facingMode"@, d.facing_mode_exact, quoted(facing_mode_name(d.facing_mode)));
    directive_starts_with_name("frameRate"@, d.frame_rate_exact, decimal(d.frame_rate as nat));
    directive_starts_with_name("groupId"@, d.group_id_exact, quoted(d.group_id));
    directive_starts_with_name("height"@, d.resolution_exact, decimal(d.resolution.height_y as nat));
    directive_starts_with_name("resizeMode"@, d.resize_mode_exact, quoted(resize_mode_name(d.resize_mode)));
    directive_starts_with_name("width"@, d.resolution_exact, decimal(d.resolution.width_x as nat));
    assert forall|k: int| 0 <= k < 8 implies lead_lt(#[trigger] c[k], c[k + 1]) by {
        if k == 0 {
            assert(lead_lt(c[0], c[1]));
        } else if k == 1 {
            assert(lead_lt(c[1], c[2]));
        } else if k == 2 {
            assert(lead_lt(c[2], c[3]));
        } else if k == 3 {
            assert(lead_lt(c[3], c[4]));
        } else if k == 4 {
            assert(lead_lt(c[4], c[5]));
        } else if k == 5 {
            assert(lead_lt(c[5], c[6]));
        } else if k == 6 {
            assert(lead_lt(c[6], c[7]));
        } else {
            assert(lead_lt(c[7], c[8]));
        }
    }
}

/// The rendered directives come sorted and without duplicates: each fragment comes strictly
/// before every later one in code-point order.
pub proof fn fragments_sorted_law(d: ConstraintDirectives)
    ensures
        strictly_sorted(d.fragments()),
{
    let c = candidates(d);
    candidates_lead(d);
    assert(c[0].len() >= 2 && c[1].len() >= 2 && c[2].len() >= 2 && c[3].len() >= 2);
    assert(c[4].len() >= 2 && c[5].len() >= 2 && c[6].len() >= 2 && c[7].len() >= 2 && c[8].len() >= 2);
    assert(lead_lt(c[0], c[1]) && lead_lt(c[1], c[2]) && lead_lt(c[2], c[3]) && lead_lt(c[3], c[4]));
    assert(lead_lt(c[4], c[5]) && lead_lt(c[5], c[6]) && lead_lt(c[6], c[7]) && lead_lt(c[7], c[8]));
    let empty = Seq::<Seq<char>>::empty();
    let o1 = optional(d.aspect_ratio.is_set(), c[0]);
    leads_append(empty, d.aspect_ratio.is_set(), c[0], c[1]);
    assert(empty + o1 =~= o1);
    let s2 = o1 + optional(d.device_id.len() > 0, c[1]);
    leads_append(o1, d.device_id.len() > 0, c[1], c[2]);
    let s3 = s2 + optional(d.facing_mode != JSCameraFacingMode::Any, c[2]);
    leads_append(s2, d.facing_mode != JSCameraFacingMode::Any, c[2], c[3]);
    let s4 = s3 + optional(d.frame_rate != 0, c[3]);
    leads_append(s3, d.frame_rate != 0, c[3], c[4]);
    let s5 = s4 + optional(d.group_id.len() > 0, c[4]);
    leads_append(s4, d.group_id.len() > 0, c[4], c[5]);
    let s6 = s5 + optional(d.resolution.height_y != 0, c[5]);
    leads_append(s5, d.resolution.height_y != 0, c[5], c[6]);
    let s7 = s6 + optional(d.resize_mode != JSCameraResizeMode::Any, c[6]);
    leads_append(s6, d.resize_mode != JSCameraResizeMode::Any, c[6], c[7]);
    let s8 = s7 + optional(d.resolution.width_x != 0, c[7]);
    leads_append(s7, d.resolution.width_x != 0, c[7], c[8]);
    assert(s8 == d.fragments());
    assert forall|i: int, j: int| 0 <= i < j < s8.len() implies text_before(#[trigger] s8[i], #[trigger] s8[j]) by {
        lead_before(s8[i], s8[j]);
    }
}

/// With every directive unset the request accepts any video source (`true`); with only a
/// nonzero resolution set, not exact, it holds the ideal `height` and `width` and nothing else.
pub proof fn constraint_rendering_law(width: u32, height: u32)
    requires
        width != 0,
        height != 0,
    ensures
        ConstraintDirectives::unset().fragments().len() == 0,
        ConstraintDirectives::unset().video_request() == "true"@,
        (ConstraintDirectives {
            resolution: Resolution { width_x: width, height_y: height },
            ..ConstraintDirectives::unset()
        }).fragments() == seq![
            directive("height"@, false, decimal(height as nat)),
            directive("width"@, false, decimal(width as nat)),
        ],
{
    let only = ConstraintDirectives {
        resolution: Resolution { width_x: width, height_y: height },
        ..ConstraintDirectives::unset()
    };
    assert(ConstraintDirectives::unset().fragments() =~= seq![]);
    assert(only.fragments() =~= seq![
        directive("height"@, false, decimal(height as nat)),
        directive("width"@, false, decimal(width as nat)),
    ]);
}

fn directive_string(name: &str, exact: bool, value: &str) -> (r: String)
    ensures
        r@ == directive(name@, exact, value@),
{
    let mut r = String::from_str(name);
    r.append(": { ");
    if exact {
        r.append("exact");
    } else {
        r.append("ideal");
    }
    r.append(": ");
    r.append(value);
    r.append(" }");
    assert(r@ =~= directive(name@, exact, value@));
    r
}

fn quoted_string(s: &str) -> (r: String)
    ensures
        r@ == quoted(s@),
{
    let mut r = String::from_str("\"");
    r.append(s);
    r.append("\"");
    assert(r@ =~= quoted(s@));
    r
}

/// The fragments that an optional rendered directive contributes.
pub open spec fn fragment_seq(f: Option<String>) -> Seq<Seq<char>> {
    match f {
        Some(s) => seq![s@],
        None => seq![],
    }
}

/// Appends the fragment `frag`, if any, to the `, `-separated list in `body`.
fn append_fragment(body: &mut String, first: &mut bool, acc: Ghost<Seq<Seq<char>>>, frag: Option<String>) -> (r: Ghost<Seq<Seq<char>>>)
    requires
        old(body)@ == joined(acc@),
        *old(first) <==> acc@.len() == 0,
    ensures
        r@ == acc@ + fragment_seq(frag),
        final(body)@ == joined(r@),
        *final(first) <==> r@.len() == 0,
{
    match frag {
        Some(f) => {
            if !*first {
                body.append(", ");
            }
            body.append(f.as_str());
            assert(acc@.push(f@).drop_last() =~= acc@);
            assert(body@ =~= joined(acc@.push(f@)));
            assert(acc@ + fragment_seq(Some(f)) =~= acc@.push(f@));
            *first = false;
            Ghost(acc@.push(f@))
        },
        None => {
            assert(acc@ + fragment_seq(None) =~= acc@);
            Ghost(acc@)
        },
    }
}

/// Builds a [`JSCameraConstraints`]: a request for a video stream with up to eight directives,
/// each ideal or exact.
#[derive(Clone, Debug)]
pub struct JSCameraConstraintsBuilder {
    preferred_resolution: Resolution,
    resolution_exact: bool,
    aspect_ratio: AspectRatio,
    aspect_ratio_exact: bool,
    facing_mode: JSCameraFacingMode,
    facing_mode_exact: bool,
    frame_rate: u32,
    frame_rate_exact: bool,
    resize_mode: JSCameraResizeMode,
    resize_mode_exact: bool,
    device_id: String,
    device_id_exact: bool,
    group_id: String,
    group_id_exact: bool,
}

impl View for JSCameraConstraintsBuilder {
    type V = ConstraintDirectives;

    closed spec fn view(&self) -> ConstraintDirectives {
        ConstraintDirectives {
            resolution: self.preferred_resolution,
            resolution_exact: self.resolution_exact,
            aspect_ratio: self.aspect_ratio,
            aspect_ratio_exact: self.aspect_ratio_exact,
            facing_mode: self.facing_mode,
            facing_mode_exact: self.facing_mode_exact,
            frame_rate: self.frame_rate,
            frame_rate_exact: self.frame_rate_exact,
            resize_mode: self.resize_mode,
            resize_mode_exact: self.resize_mode_exact,
            device_id: self.device_id@,
            device_id_exact: self.device_id_exact,
            group_id: self.group_id@,
            group_id_exact: self.group_id_exact,
        }
    }
}

fn aspect_ratio_fragment(d: &JSCameraConstraintsBuilder) -> (r: Option<String>)
    ensures
        fragment_seq(r) == optional(d@.aspect_ratio.is_set(), directive("aspectRatio"@, d@.aspect_ratio_exact, d@.aspect_ratio.text())),
{
    if d.aspect_ratio.width != 0 && d.aspect_ratio.height != 0 {
        let mut value = decimal_string(d.aspect_ratio.width as u64);
        value.append("/");
        push_decimal(&mut value, d.aspect_ratio.height as u64);
        Some(directive_string("aspectRatio", d.aspect_ratio_exact, value.as_str()))
    } else {
        None
    }
}

fn device_id_fragment(d: &JSCameraConstraintsBuilder) -> (r: Option<String>)
    ensures
        fragment_seq(r) == optional(d@.device_id.len() > 0, directive("deviceId"@, d@.device_id_exact, quoted(d@.device_id))),
{
    if !d.device_id.as_str().is_empty() {
        let value = quoted_string(d.device_id.as_str());
        Some(directive_string("deviceId", d.device_id_exact, value.as_str()))
    } else {
        None
    }
}

fn facing_mode_fragment(d: &JSCameraConstraintsBuilder) -> (r: Option<String>)
    ensures
        fragment_seq(r) == optional(
            d@.facing_mode != JSCameraFacingMode::Any,
            directive("facingMode"@, d@.facing_mode_exact, quoted(facing_mode_name(d@.facing_mode))),
        ),
{
    if d.facing_mode != JSCameraFacingMode::Any {
        let name = d.facing_mode.to_string();
        let value = quoted_string(name.as_str());
        Some(directive_string("facingMode", d.facing_mode_exact, value.as_str()))
    } else {
        None
    }
}

fn frame_rate_fragment(d: &JSCameraConstraintsBuilder) -> (r: Option<String>)
    ensures
        fragment_seq(r) == optional(d@.frame_rate != 0, directive("frameRate"@, d@.frame_rate_exact, decimal(d@.frame_rate as nat))),
{
    if d.frame_rate != 0 {
        let value = decimal_string(d.frame_rate as u64);
        Some(directive_string("frameRate", d.frame_rate_exact, value.as_str()))
    } else {
        None
    }
}

fn group_id_fragment(d: &JSCameraConstraintsBuilder) -> (r: Option<String>)
    ensures
        fragment_seq(r) == optional(d@.group_id.len() > 0, directive("groupId"@, d@.group_id_exact, quoted(d@.group_id))),
{
    if !d.group_id.as_str().is_empty() {
        let value = quoted_string(d.group_id.as_str());
        Some(directive_string("groupId", d.group_id_exact, value.as_str()))
    } else {
        None
    }
}

fn height_fragment(d: &JSCameraConstraintsBuilder) -> (r: Option<String>)
    ensures
        fragment_seq(r) == optional(
            d@.resolution.height_y != 0,
            directive("height"@, d@.resolution_exact, decimal(d@.resolution.height_y as nat)),
        ),
{
    if d.preferred_resolution.height_y != 0 {
        let value = decimal_string(d.preferred_resolution.height_y as u64);
        Some(directive_string("height", d.resolution_exact, value.as_str()))
    } else {
        None
    }
}

fn resize_mode_fragment(d: &JSCameraConstraintsBuilder) -> (r: Option<String>)
    ensures
        fragment_seq(r) == optional(
            d@.resize_mode != JSCameraResizeMode::Any,
            directive("resizeMode"@, d@.resize_mode_exact, quoted(resize_mode_name(d@.resize_mode))),
        ),
{
    if d.resize_mode != JSCameraResizeMode::Any {
        let name = d.resize_mode.to_string();
        let value = quoted_string(name.as_str());
        Some(directive_string("resizeMode", d.resize_mode_exact, value.as_str()))
    } else {
        None
    }
}

fn width_fragment(d: &JSCameraConstraintsBuilder) -> (r: Option<String>)
    ensures
        fragment_seq(r) == optional(
            d@.resolution.width_x != 0,
            directive("width"@, d@.resolution_exact, decimal(d@.resolution.width_x as nat)),
        ),
{
    if d.preferred_resolution.width_x != 0 {
        let value = decimal_string(d.preferred_resolution.width_x as u64);
        Some(directive_string("width", d.resolution_exact, value.as_str()))
    } else {
        None
    }
}

/// The request script for the directives of `d`.
fn render_request(d: &JSCameraConstraintsBuilder) -> (r: String)
    ensures
        r@ == d@.request_source(),
{
    let mut body = String::new();
    let mut first = true;
    let acc = Ghost(Seq::<Seq<char>>::empty());
    let acc = append_fragment(&mut body, &mut first, acc, aspect_ratio_fragment(d));
    let acc = append_fragment(&mut body, &mut first, acc, device_id_fragment(d));
    let acc = append_fragment(&mut body, &mut first, acc, facing_mode_fragment(d));
    let acc = append_fragment(&mut body, &mut first, acc, frame_rate_fragment(d));
    let acc = append_fragment(&mut body, &mut first, acc, group_id_fragment(d));
    let acc = append_fragment(&mut body, &mut first, acc, height_fragment(d));
    let acc = append_fragment(&mut body, &mut first, acc, resize_mode_fragment(d));
    let acc = append_fragment(&mut body, &mut first, acc, width_fragment(d));
    assert(acc@ =~= d@.fragments());
    let mut source = String::from_str("return { audio: false, video: ");
    if first {
        source.append("true");
    } else {
        source.append("{ ");
        source.append(body.as_str());
        source.append(" }");
    }
    source.append(" };");
    assert(source@ =~= d@.request_source());
    source
}

impl JSCameraConstraintsBuilder {
    /// A builder with the default directives: 640x480, a 16:9 aspect ratio, 15 frames per
    /// second, `Any` facing and resize mode, empty ids, nothing exact.
    pub fn new() -> (r: Self)
        ensures
            r@ == ConstraintDirectives::initial(),
    {
        let r = JSCameraConstraintsBuilder {
            preferred_resolution: Resolution::new(640, 480),
            resolution_exact: false,
            aspect_ratio: AspectRatio::new(16, 9),
            aspect_ratio_exact: false,
            facing_mode: JSCameraFacingMode::Any,
            facing_mode_exact: false,
            frame_rate: 15,
            frame_rate_exact: false,
            resize_mode: JSCameraResizeMode::Any,
            resize_mode_exact: false,
            device_id: String::new(),
            device_id_exact: false,
            group_id: String::new(),
            group_id_exact: false,
        };
        assert(r@ =~= ConstraintDirectives::initial());
        r
    }

    /// Sets the preferred resolution (the `width` and `height` directives).
    pub fn resolution(self, new_resolution: Resolution) -> (r: Self)
        ensures
            r@ == (ConstraintDirectives { resolution: new_resolution, ..self@ }),
    {
        let mut b = self;
        b.preferred_resolution = new_resolution;
        b
    }

    /// Sets whether `width` and `height` are exact.
    pub fn resolution_exact(self, value: bool) -> (r: Self)
        ensures
            r@ == (ConstraintDirectives { resolution_exact: value, ..self@ }),
    {
        let mut b = self;
        b.resolution_exact = value;
        b
    }

    /// Sets the `aspectRatio` directive.
    pub fn aspect_ratio(self, ratio: AspectRatio) -> (r: Self)
        ensures
            r@ == (ConstraintDirectives { aspect_ratio: ratio, ..self@ }),
    {
        let mut b = self;
        b.aspect_ratio = ratio;
        b
    }

    /// Sets whether `aspectRatio` is exact.
    pub fn aspect_ratio_exact(self, value: bool) -> (r: Self)
        ensures
            r@ == (ConstraintDirectives { aspect_ratio_exact: value, ..self@ }),
    {
        let mut b = self;
        b.aspect_ratio_exact = value;
        b
    }

    /// Sets the `facingMode` directive.
    pub fn facing_mode(self, facing_mode: JSCameraFacingMode) -> (r: Self)
        ensures
            r@ == (ConstraintDirectives { facing_mode: facing_mode, ..self@ }),
    {
        let mut b = self;
        b.facing_mode = facing_mode;
        b
    }

    /// Sets whether `facingMode` is exact.
    pub fn facing_mode_exact(self, value: bool) -> (r: Self)
        ensures
            r@ == (ConstraintDirectives { facing_mode_exact: value, ..self@ }),
    {
        let mut b = self;
        b.facing_mode_exact = value;
        b
    }

    /// Sets the `frameRate` directive.
    pub fn frame_rate(self, fps: u32) -> (r: Self)
        ensures
            r@ == (ConstraintDirectives { frame_rate: fps, ..self@ }),
    {
        let mut b = self;
        b.frame_rate = fps;
        b
    }

    /// Sets whether `frameRate` is exact.
    pub fn frame_rate_exact(self, value: bool) -> (r: Self)
        ensures
            r@ == (ConstraintDirectives { frame_rate_exact: value, ..self@ }),
    {
        let mut b = self;
        b.frame_rate_exact = value;
        b
    }

    /// Sets the `resizeMode` directive.
    pub fn resize_mode(self, resize_mode: JSCameraResizeMode) -> (r: Self)
        ensures
            r@ == (ConstraintDirectives { resize_mode: resize_mode, ..self@ }),
    {
        let mut b = self;
        b.resize_mode = resize_mode;
        b
    }

    /// Sets whether `resizeMode` is exact.
    pub fn resize_mode_exact(self, value: bool) -> (r: Self)
        ensures
            r@ == (ConstraintDirectives { resize_mode_exact: value, ..self@ }),
    {
        let mut b = self;
        b.resize_mode_exact = value;
        b
    }

    /// Sets whether `deviceId` is exact.
    pub fn device_id_exact(self, value: bool) -> (r: Self)
        ensures
            r@ == (ConstraintDirectives { device_id_exact: value, ..self@ }),
    {
        let mut b = self;
        b.device_id_exact = value;
        b
    }

    /// Sets whether `groupId` is exact.
    pub fn group_id_exact(self, value: bool) -> (r: Self)
        ensures
            r@ == (ConstraintDirectives { group_id_exact: value, ..self@ }),
    {
        let mut b = self;
        b.group_id_exact = value;
        b
    }

    /// Sets the `deviceId` directive. The id is written into the request script as it is: it must come from a trusted source.
    pub fn device_id(self, id: &str) -> (r: Self)
        ensures
            r@ == (ConstraintDirectives { device_id: id@, ..self@ }),
    {
        let mut b = self;
        b.device_id = String::from_str(id);
        b
    }

    /// Sets the `groupId` directive. The id is written into the request script as it is: it must come from a trusted source.
    pub fn group_id(self, id: &str) -> (r: Self)
        ensures
            r@ == (ConstraintDirectives { group_id: id@, ..self@ }),
    {
        let mut b = self;
        b.group_id = String::from_str(id);
        b
    }

    /// Renders the directives into a request: see [`ConstraintDirectives::request_source`].
    pub fn build(self) -> (r: JSCameraConstraints)
        ensures
            r@.directives == self@,
            r@.request == self@.request_source(),
    {
        let media_constraints = render_request(&self);
        JSCameraConstraints { settings: self, media_constraints }
    }
}

impl Default for JSCameraConstraintsBuilder {
    /// The same as [`JSCameraConstraintsBuilder::new`].
    fn default() -> (r: Self)
        ensures
            r@ == ConstraintDirectives::initial(),
    {
        JSCameraConstraintsBuilder::new()
    }
}

/// The directives of a request and the request rendered from them.
pub struct ConstraintsModel {
    pub directives: ConstraintDirectives,
    /// The script that evaluates to the browser's media constraints.
    pub request: Seq<char>,
}

/// Constraints to open a camera with. Setting a directive changes the request only when
/// [`JSCameraConstraints::apply_constraints`] renders it again.
#[derive(Clone, Debug)]
pub struct JSCameraConstraints {
    settings: JSCameraConstraintsBuilder,
    media_constraints: String,
}

impl View for JSCameraConstraints {
    type V = ConstraintsModel;

    closed spec fn view(&self) -> ConstraintsModel {
        ConstraintsModel { directives: self.settings@, request: self.media_constraints@ }
    }
}

impl JSCameraConstraints {
    /// The request script: evaluated by the browser, it gives the media constraints.
    pub fn media_constraints(&self) -> (r: &str)
        ensures
            r@ == self@.request,
    {
        self.media_constraints.as_str()
    }

    /// The preferred resolution.
    pub fn preferred_resolution(&self) -> (r: Resolution)
        ensures
            r == self@.directives.resolution,
    {
        self.settings.preferred_resolution
    }

    /// Sets the preferred resolution; the request is rendered again by `apply_constraints`.
    pub fn set_preferred_resolution(&mut self, preferred_resolution: Resolution)
        ensures
            final(self)@ == (ConstraintsModel {
                directives: ConstraintDirectives { resolution: preferred_resolution, ..old(self)@.directives },
                ..old(self)@
            }),
    {
        self.settings.preferred_resolution = preferred_resolution;
    }

    /// Whether the resolution is exact.
    pub fn resolution_exact(&self) -> (r: bool)
        ensures
            r == self@.directives.resolution_exact,
    {
        self.settings.resolution_exact
    }

    /// Sets whether the resolution is exact; the request is rendered again by `apply_constraints`.
    pub fn set_resolution_exact(&mut self, resolution_exact: bool)
        ensures
            final(self)@ == (ConstraintsModel {
                directives: ConstraintDirectives { resolution_exact: resolution_exact, ..old(self)@.directives },
                ..old(self)@
            }),
    {
        self.settings.resolution_exact = resolution_exact;
    }

    /// The aspect ratio.
    pub fn aspect_ratio(&self) -> (r: AspectRatio)
        ensures
            r == self@.directives.aspect_ratio,
    {
        self.settings.aspect_ratio
    }

    /// Sets the aspect ratio; the request is rendered again by `apply_constraints`.
    pub fn set_aspect_ratio(&mut self, aspect_ratio: AspectRatio)
        ensures
            final(self)@ == (ConstraintsModel {
                directives: ConstraintDirectives { aspect_ratio: aspect_ratio, ..old(self)@.directives },
                ..old(self)@
            }),
    {
        self.settings.aspect_ratio = aspect_ratio;
    }

    /// Whether the aspect ratio is exact.
    pub fn aspect_ratio_exact(&self) -> (r: bool)
        ensures
            r == self@.directives.aspect_ratio_exact,
    {
        self.settings.aspect_ratio_exact
    }

    /// Sets whether the aspect ratio is exact; the request is rendered again by `apply_constraints`.
    pub fn set_aspect_ratio_exact(&mut self, aspect_ratio_exact: bool)
        ensures
            final(self)@ == (ConstraintsModel {
                directives: ConstraintDirectives { aspect_ratio_exact: aspect_ratio_exact, ..old(self)@.directives },
                ..old(self)@
            }),
    {
        self.settings.aspect_ratio_exact = aspect_ratio_exact;
    }

    /// The facing mode.
    pub fn facing_mode(&self) -> (r: JSCameraFacingMode)
        ensures
            r == self@.directives.facing_mode,
    {
        self.settings.facing_mode
    }

    /// Sets the facing mode; the request is rendered again by `apply_constraints`.
    pub fn set_facing_mode(&mut self, facing_mode: JSCameraFacingMode)
        ensures
            final(self)@ == (ConstraintsModel {
                directives: ConstraintDirectives { facing_mode: facing_mode, ..old(self)@.directives },
                ..old(self)@
            }),
    {
        self.settings.facing_mode = facing_mode;
    }

    /// Whether the facing mode is exact.
    pub fn facing_mode_exact(&self) -> (r: bool)
        ensures
            r == self@.directives.facing_mode_exact,
    {
        self.settings.facing_mode_exact
    }

    /// Sets whether the facing mode is exact; the request is rendered again by `apply_constraints`.
    pub fn set_facing_mode_exact(&mut self, facing_mode_exact: bool)
        ensures
            final(self)@ == (ConstraintsModel {
                directives: ConstraintDirectives { facing_mode_exact: facing_mode_exact, ..old(self)@.directives },
                ..old(self)@
            }),
    {
        self.settings.facing_mode_exact = facing_mode_exact;
    }

    /// The frame rate.
    pub fn frame_rate(&self) -> (r: u32)
        ensures
            r == self@.directives.frame_rate,
    {
        self.settings.frame_rate
    }

    /// Sets the frame rate; the request is rendered again by `apply_constraints`.
    pub fn set_frame_rate(&mut self, frame_rate: u32)
        ensures
            final(self)@ == (ConstraintsModel {
                directives: ConstraintDirectives { frame_rate: frame_rate, ..old(self)@.directives },
                ..old(self)@
            }),
    {
        self.settings.frame_rate = frame_rate;
    }

    /// Whether the frame rate is exact.
    pub fn frame_rate_exact(&self) -> (r: bool)
        ensures
            r == self@.directives.frame_rate_exact,
    {
        self.settings.frame_rate_exact
    }

    /// Sets whether the frame rate is exact; the request is rendered again by `apply_constraints`.
    pub fn set_frame_rate_exact(&mut self, frame_rate_exact: bool)
        ensures
            final(self)@ == (ConstraintsModel {
                directives: ConstraintDirectives { frame_rate_exact: frame_rate_exact, ..old(self)@.directives },
                ..old(self)@
            }),
    {
        self.settings.frame_rate_exact = frame_rate_exact;
    }

    /// The resize mode.
    pub fn resize_mode(&self) -> (r: JSCameraResizeMode)
        ensures
            r == self@.directives.resize_mode,
    {
        self.settings.resize_mode
    }

    /// Sets the resize mode; the request is rendered again by `apply_constraints`.
    pub fn set_resize_mode(&mut self, resize_mode: JSCameraResizeMode)
        ensures
            final(self)@ == (ConstraintsModel {
                directives: ConstraintDirectives { resize_mode: resize_mode, ..old(self)@.directives },
                ..old(self)@
            }),
    {
        self.settings.resize_mode = resize_mode;
    }

    /// Whether the resize mode is exact.
    pub fn resize_mode_exact(&self) -> (r: bool)
        ensures
            r == self@.directives.resize_mode_exact,
    {
        self.settings.resize_mode_exact
    }

    /// Sets whether the resize mode is exact; the request is rendered again by `apply_constraints`.
    pub fn set_resize_mode_exact(&mut self, resize_mode_exact: bool)
        ensures
            final(self)@ == (ConstraintsModel {
                directives: ConstraintDirectives { resize_mode_exact: resize_mode_exact, ..old(self)@.directives },
                ..old(self)@
            }),
    {
        self.settings.resize_mode_exact = resize_mode_exact;
    }

    /// Whether the device id is exact.
    pub fn device_id_exact(&self) -> (r: bool)
        ensures
            r == self@.directives.device_id_exact,
    {
        self.settings.device_id_exact
    }

    /// Sets whether the device id is exact; the request is rendered again by `apply_constraints`.
    pub fn set_device_id_exact(&mut self, device_id_exact: bool)
        ensures
            final(self)@ == (ConstraintsModel {
                directives: ConstraintDirectives { device_id_exact: device_id_exact, ..old(self)@.directives },
                ..old(self)@
            }),
    {
        self.settings.device_id_exact = device_id_exact;
    }

    /// Whether the group id is exact.
    pub fn group_id_exact(&self) -> (r: bool)
        ensures
            r == self@.directives.group_id_exact,
    {
        self.settings.group_id_exact
    }

    /// Sets whether the group id is exact; the request is rendered again by `apply_constraints`.
    pub fn set_group_id_exact(&mut self, group_id_exact: bool)
        ensures
            final(self)@ == (ConstraintsModel {
                directives: ConstraintDirectives { group_id_exact: group_id_exact, ..old(self)@.directives },
                ..old(self)@
            }),
    {
        self.settings.group_id_exact = group_id_exact;
    }

    /// The device id.
    pub fn device_id(&self) -> (r: &str)
        ensures
            r@ == self@.directives.device_id,
    {
        self.settings.device_id.as_str()
    }

    /// Sets the device id; the request is rendered again by `apply_constraints`.
    pub fn set_device_id(&mut self, device_id: String)
        ensures
            final(self)@ == (ConstraintsModel {
                directives: ConstraintDirectives { device_id: device_id@, ..old(self)@.directives },
                ..old(self)@
            }),
    {
        self.settings.device_id = device_id;
    }

    /// The group id.
    pub fn group_id(&self) -> (r: &str)
        ensures
            r@ == self@.directives.group_id,
    {
        self.settings.group_id.as_str()
    }

    /// Sets the group id; the request is rendered again by `apply_constraints`.
    pub fn set_group_id(&mut self, group_id: String)
        ensures
            final(self)@ == (ConstraintsModel {
                directives: ConstraintDirectives { group_id: group_id@, ..old(self)@.directives },
                ..old(self)@
            }),
    {
        self.settings.group_id = group_id;
    }

    /// Renders the request again from the current directives.
    pub fn apply_constraints(&mut self)
        ensures
            final(self)@.directives == old(self)@.directives,
            final(self)@.request == old(self)@.directives.request_source(),
    {
        self.media_constraints = render_request(&self.settings);
    }
}

} // verus!
