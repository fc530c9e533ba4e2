use crate::error::NokhwaError;
use vstd::prelude::*;

verus! {

/// The camera controls the library knows. Not every backend or device has all of them.
#[derive(Copy, Clone, Debug, PartialEq, Eq, Structural, Hash, PartialOrd, Ord)]
pub enum KnownCameraControls {
    Brightness,
    Contrast,
    Hue,
    Saturation,
    Sharpness,
    Gamma,
    ColorEnable,
    WhiteBalance,
    BacklightComp,
    Gain,
    Pan,
    Tilt,
    Roll,
    Zoom,
    Exposure,
    Iris,
    Focus,
}

/// Every known control, in declaration order.
pub open spec fn all_controls() -> Seq<KnownCameraControls> {
    seq![
        KnownCameraControls::Brightness,
        KnownCameraControls::Contrast,
        KnownCameraControls::Hue,
        KnownCameraControls::Saturation,
        KnownCameraControls::Sharpness,
        KnownCameraControls::Gamma,
        KnownCameraControls::ColorEnable,
        KnownCameraControls::WhiteBalance,
        KnownCameraControls::BacklightComp,
        KnownCameraControls::Gain,
        KnownCameraControls::Pan,
        KnownCameraControls::Tilt,
        KnownCameraControls::Roll,
        KnownCameraControls::Zoom,
        KnownCameraControls::Exposure,
        KnownCameraControls::Iris,
        KnownCameraControls::Focus,
    ]
}

/// Every known control, in declaration order.
pub fn all_known_camera_controls() -> (r: [KnownCameraControls; 17])
    ensures
        r@ == all_controls(),
{
    let r: [KnownCameraControls; 17] = [
        KnownCameraControls::Brightness,
        KnownCameraControls::Contrast,
        KnownCameraControls::Hue,
        KnownCameraControls::Saturation,
        KnownCameraControls::Sharpness,
        KnownCameraControls::Gamma,
        KnownCameraControls::ColorEnable,
        KnownCameraControls::WhiteBalance,
        KnownCameraControls::BacklightComp,
        KnownCameraControls::Gain,
        KnownCameraControls::Pan,
        KnownCameraControls::Tilt,
        KnownCameraControls::Roll,
        KnownCameraControls::Zoom,
        KnownCameraControls::Exposure,
        KnownCameraControls::Iris,
        KnownCameraControls::Focus,
    ];
    assert(r@ =~= all_controls());
    r
}

/// The name of a control, as in `WhiteBalance`.
pub open spec fn control_name(c: KnownCameraControls) -> Seq<char> {
    match c {
        KnownCameraControls::Brightness => "Brightness"@,
        KnownCameraControls::Contrast => "Contrast"@,
        KnownCameraControls::Hue => "Hue"@,
        KnownCameraControls::Saturation => "Saturation"@,
        KnownCameraControls::Sharpness => "Sharpness"@,
        KnownCameraControls::Gamma => "Gamma"@,
        KnownCameraControls::ColorEnable => "ColorEnable"@,
        KnownCameraControls::WhiteBalance => "WhiteBalance"@,
        KnownCameraControls::BacklightComp => "BacklightComp"@,
        KnownCameraControls::Gain => "Gain"@,
        KnownCameraControls::Pan => "Pan"@,
        KnownCameraControls::Tilt => "Tilt"@,
        KnownCameraControls::Roll => "Roll"@,
        KnownCameraControls::Zoom => "Zoom"@,
        KnownCameraControls::Exposure => "Exposure"@,
        KnownCameraControls::Iris => "Iris"@,
        KnownCameraControls::Focus => "Focus"@,
    }
}

/// The control that a Video4Linux control id stands for, if it is a known one.
pub open spec fn v4l_control(id: u32) -> Option<KnownCameraControls> {
    match id {
        9_963_776 => Some(KnownCameraControls::Brightness),
        9_963_777 => Some(KnownCameraControls::Contrast),
        9_963_779 => Some(KnownCameraControls::Hue),
        9_963_778 => Some(KnownCameraControls::Saturation),
        9_963_803 => Some(KnownCameraControls::Sharpness),
        9_963_792 => Some(KnownCameraControls::Gamma),
        9_963_802 => Some(KnownCameraControls::WhiteBalance),
        9_963_804 => Some(KnownCameraControls::BacklightComp),
        9_963_795 => Some(KnownCameraControls::Gain),
        10_094_852 => Some(KnownCameraControls::Pan),
        10_094_853 => Some(KnownCameraControls::Tilt),
        10_094_862 => Some(KnownCameraControls::Zoom),
        9_963_793 => Some(KnownCameraControls::Exposure),
        10_094_866 => Some(KnownCameraControls::Iris),
        10_094_859 => Some(KnownCameraControls::Focus),
        _ => None,
    }
}

impl KnownCameraControls {
    /// The control's name, as in `WhiteBalance`.
    pub fn to_string(&self) -> (r: String)
        ensures
            r@ == control_name(*self),
    {
        match self {
            KnownCameraControls::Brightness => String::from_str("Brightness"),
            KnownCameraControls::Contrast => String::from_str("Contrast"),
            KnownCameraControls::Hue => String::from_str("Hue"),
            KnownCameraControls::Saturation => String::from_str("Saturation"),
            KnownCameraControls::Sharpness => String::from_str("Sharpness"),
            KnownCameraControls::Gamma => String::from_str("Gamma"),
            KnownCameraControls::ColorEnable => String::from_str("ColorEnable"),
            KnownCameraControls::WhiteBalance => String::from_str("WhiteBalance"),
            KnownCameraControls::BacklightComp => String::from_str("BacklightComp"),
            KnownCameraControls::Gain => String::from_str("Gain"),
            KnownCameraControls::Pan => String::from_str("Pan"),
            KnownCameraControls::Tilt => String::from_str("Tilt"),
            KnownCameraControls::Roll => String::from_str("Roll"),
            KnownCameraControls::Zoom => String::from_str("Zoom"),
            KnownCameraControls::Exposure => String::from_str("Exposure"),
            KnownCameraControls::Iris => String::from_str("Iris"),
            KnownCameraControls::Focus => String::from_str("Focus"),
        }
    }

    /// The control that the Video4Linux control `id` stands for.
    ///
    /// # Errors
    /// A `NotImplementedError` for an id that stands for no known control.
    pub fn from_v4l_control_id(id: u32) -> (r: Result<Self, NokhwaError>)
        ensures
            r is Ok <==> v4l_control(id) is Some,
            r matches Ok(c) ==> v4l_control(id) == Some(c),
            r matches Err(e) ==> e is NotImplementedError,
    {
        let c = match id {
            9_963_776 => KnownCameraControls::Brightness,
            9_963_777 => KnownCameraControls::Contrast,
            9_963_779 => KnownCameraControls::Hue,
            9_963_778 => KnownCameraControls::Saturation,
            9_963_803 => KnownCameraControls::Sharpness,
            9_963_792 => KnownCameraControls::Gamma,
            9_963_802 => KnownCameraControls::WhiteBalance,
            9_963_804 => KnownCameraControls::BacklightComp,
            9_963_795 => KnownCameraControls::Gain,
            10_094_852 => KnownCameraControls::Pan,
            10_094_853 => KnownCameraControls::Tilt,
            10_094_862 => KnownCameraControls::Zoom,
            9_963_793 => KnownCameraControls::Exposure,
            10_094_866 => KnownCameraControls::Iris,
            10_094_859 => KnownCameraControls::Focus,
            _ => {
                return Err(NokhwaError::NotImplementedError(String::from_str("Control not implemented!")));
            },
        };
        Ok(c)
    }
}

/// Whether a control is managed by the driver or by the program.
#[derive(Copy, Clone, Debug, PartialEq, Eq, Structural, Hash, PartialOrd, Ord)]
pub enum KnownCameraControlFlag {
    Automatic,
    Manual,
}

/// `|x|`.
pub open spec fn abs(x: int) -> nat {
    if x < 0 {
        (-x) as nat
    } else {
        x as nat
    }
}

/// Whether `value` is a multiple of a nonzero `step`.
pub open spec fn aligned(value: int, step: int) -> bool {
    step != 0 && (if value < 0 { -value } else { value }) % (if step < 0 { -step } else { step }) == 0
}

fn abs_i32(x: i32) -> (r: u64)
    ensures
        r == abs(x as int),
{
    if x < 0 {
        (-(x as i64)) as u64
    } else {
        x as u64
    }
}

/// Whether `value` is a multiple of a nonzero `step`.
fn is_aligned(value: i32, step: i32) -> (r: bool)
    ensures
        r == aligned(value as int, step as int),
{
    step != 0 && abs_i32(value) % abs_i32(step) == 0
}

/// Whether `value` may be set on a control with bounds `min`, `max` and step `step`:
/// strictly between the bounds and a multiple of the step.
pub open spec fn valid_setting(min: int, max: int, value: int, step: int) -> bool {
    min < value < max && aligned(value, step)
}

/// The values from `min` up to `max` in steps of `step`; `[min]` when `step` is negative.
pub open spec fn valid_values_of(min: int, max: int, step: int) -> Seq<i32> {
    let count = if step > 0 { (max - min) / step + 1 } else { 1 };
    Seq::new(count as nat, |i: int| (min + i * step) as i32)
}

/// A control refuses a value at either bound and a value off the step's multiples, and
/// accepts the midpoint of its bounds when it lies strictly inside them and is a multiple of
/// the step.
pub proof fn control_value_law(min: int, max: int, value: int, step: int)
    ensures
        !valid_setting(min, max, min, step),
        !valid_setting(min, max, max, step),
        !aligned(value, step) ==> !valid_setting(min, max, value, step),
        min < (min + max) / 2 < max && aligned((min + max) / 2, step) ==> valid_setting(min, max, (min + max) / 2, step),
{
}

/// One adjustable camera parameter: its range, step, default and flag, and its current value,
/// which always lies strictly between the bounds and is a multiple of the step.
#[derive(Copy, Clone, Debug, PartialEq, Eq, Structural, Hash)]
pub struct CameraControl {
    control: KnownCameraControls,
    min: i32,
    max: i32,
    value: i32,
    step: i32,
    default: i32,
    flag: KnownCameraControlFlag,
    active: bool,
}

/// The error for a value that fails `valid_setting`: the first of its three tests that fails.
/// Whether `e` is the error a control gives for a refused value: a `StructureError` of the
/// structure `CameraControl`.
pub open spec fn is_control_error(e: NokhwaError) -> bool {
    e matches NokhwaError::StructureError { structure, .. } && structure@ == "CameraControl"@
}

fn setting_error(min: i32, max: i32, value: i32, step: i32) -> (r: Option<NokhwaError>)
    ensures
        r is None <==> valid_setting(min as int, max as int, value as int, step as int),
        r matches Some(e) ==> is_control_error(e),
{
    let message = if value >= max {
        "Value too large"
    } else if value <= min {
        "Value too low"
    } else if !is_aligned(value, step) {
        "Not aligned with step"
    } else {
        return None;
    };
    Some(
        NokhwaError::StructureError {
            structure: String::from_str("CameraControl"),
            error: String::from_str(message),
        },
    )
}

impl CameraControl {
    /// Whether the control's value is valid for its range and step.
    #[verifier::type_invariant]
    pub closed spec fn inv(self) -> bool {
        valid_setting(self.min as int, self.max as int, self.value as int, self.step as int)
    }

    /// The control's kind.
    pub closed spec fn spec_control(self) -> KnownCameraControls {
        self.control
    }

    /// The lower bound (excluded).
    pub closed spec fn spec_min(self) -> i32 {
        self.min
    }

    /// The upper bound (excluded).
    pub closed spec fn spec_max(self) -> i32 {
        self.max
    }

    /// The current value.
    pub closed spec fn spec_value(self) -> i32 {
        self.value
    }

    /// The step.
    pub closed spec fn spec_step(self) -> i32 {
        self.step
    }

    /// The default value.
    pub closed spec fn spec_default(self) -> i32 {
        self.default
    }

    /// The flag.
    pub closed spec fn spec_flag(self) -> KnownCameraControlFlag {
        self.flag
    }

    /// Whether the control is in use.
    pub closed spec fn spec_active(self) -> bool {
        self.active
    }

    /// Whether `other` is this control with its current value changed to `value`.
    pub open spec fn is_with_value(self, other: Self, value: i32) -> bool {
        &&& other.spec_control() == self.spec_control()
        &&& other.spec_min() == self.spec_min()
        &&& other.spec_max() == self.spec_max()
        &&& other.spec_value() == value
        &&& other.spec_step() == self.spec_step()
        &&& other.spec_default() == self.spec_default()
        &&& other.spec_flag() == self.spec_flag()
        &&& other.spec_active() == self.spec_active()
    }

    /// A control with the given range, step, default, flag and current `value`.
    ///
    /// # Errors
    /// A `StructureError` unless `minimum < value < maximum` and `value` is a multiple of a
    /// nonzero `step`.
    pub fn new(
        control: KnownCameraControls,
        minimum: i32,
        maximum: i32,
        value: i32,
        step: i32,
        default: i32,
        flag: KnownCameraControlFlag,
        active: bool,
    ) -> (r: Result<Self, NokhwaError>)
        ensures
            r is Ok <==> valid_setting(minimum as int, maximum as int, value as int, step as int),
            r matches Ok(c) ==> {
                &&& c.spec_control() == control
                &&& c.spec_min() == minimum
                &&& c.spec_max() == maximum
                &&& c.spec_value() == value
                &&& c.spec_step() == step
                &&& c.spec_default() == default
                &&& c.spec_flag() == flag
                &&& c.spec_active() == active
            },
            r matches Err(e) ==> is_control_error(e),
    {
        match setting_error(minimum, maximum, value, step) {
            Some(e) => Err(e),
            None => Ok(
                CameraControl { control, min: minimum, max: maximum, value, step, default, flag, active },
            ),
        }
    }

    /// The control's kind.
    pub fn control(&self) -> (r: KnownCameraControls)
        ensures
            r == self.spec_control(),
    {
        self.control
    }

    /// The lower bound (excluded).
    pub fn minimum_value(&self) -> (r: i32)
        ensures
            r == self.spec_min(),
    {
        self.min
    }

    /// The upper bound (excluded).
    pub fn maximum_value(&self) -> (r: i32)
        ensures
            r == self.spec_max(),
    {
        self.max
    }

    /// The current value.
    pub fn value(&self) -> (r: i32)
        ensures
            r == self.spec_value(),
    {
        self.value
    }

    /// The step: the value is a multiple of it.
    pub fn step(&self) -> (r: i32)
        ensures
            r == self.spec_step(),
    {
        self.step
    }

    /// The default value.
    pub fn default(&self) -> (r: i32)
        ensures
            r == self.spec_default(),
    {
        self.default
    }

    /// Whether the driver or the program manages the control.
    pub fn flag(&self) -> (r: KnownCameraControlFlag)
        ensures
            r == self.spec_flag(),
    {
        self.flag
    }

    /// Whether the control is in use.
    pub fn active(&self) -> (r: bool)
        ensures
            r == self.spec_active(),
    {
        self.active
    }

    /// Sets the current value.
    ///
    /// # Errors
    /// A `StructureError`, with the control unchanged, unless the value lies strictly between
    /// the bounds and is a multiple of the step.
    pub fn set_value(&mut self, value: i32) -> (r: Result<(), NokhwaError>)
        ensures
            r is Ok <==> valid_setting(old(self).spec_min() as int, old(self).spec_max() as int, value as int, old(self).spec_step() as int),
            r is Ok ==> old(self).is_with_value(*final(self), value),
            r matches Err(e) ==> is_control_error(e) && *final(self) == *old(self),
    {
        match setting_error(self.min, self.max, value, self.step) {
            Some(e) => Err(e),
            None => {
                self.value = value;
                Ok(())
            },
        }
    }

    /// This control with `value` as its current value.
    ///
    /// # Errors
    /// A `StructureError` unless the value lies strictly between the bounds and is a multiple
    /// of the step.
    pub fn with_value(self, value: i32) -> (r: Result<Self, NokhwaError>)
        ensures
            r is Ok <==> valid_setting(self.spec_min() as int, self.spec_max() as int, value as int, self.spec_step() as int),
            r matches Ok(c) ==> self.is_with_value(c, value),
            r matches Err(e) ==> is_control_error(e),
    {
        match setting_error(self.min, self.max, value, self.step) {
            Some(e) => Err(e),
            None => Ok(CameraControl { value, ..self }),
        }
    }

    /// The values from the lower bound up to the upper bound, both included, in steps of the
    /// step; with a negative step, the lower bound alone.
    pub fn valid_values(&self) -> (r: Vec<i32>)
        ensures
            r@ == valid_values_of(self.spec_min() as int, self.spec_max() as int, self.spec_step() as int),
    {
        proof {
            use_type_invariant(self);
        }
        let min = self.min;
        let max = self.max;
        let step = self.step;
        let mut out: Vec<i32> = Vec::new();
        if step < 0 {
            out.push(min);
            assert(out@ =~= valid_values_of(min as int, max as int, step as int));
            return out;
        }
        let d: u64 = (max as i64 - min as i64) as u64;
        let s: u64 = step as u64;
        let count: u64 = d / s + 1;
        let mut k: u64 = 0;
        while k < count
            invariant
                s > 0,
                s == step,
                d == max as int - min as int,
                min < max,
                count == d / s + 1,
                count == (max as int - min as int) / (step as int) + 1,
                k <= count,
                out@.len() == k,
                forall|j: int| 0 <= j < k ==> out@[j] == (min + j * step) as i32,
            decreases count - k,
        {
            assert(k * s <= d) by (nonlinear_arith)
                requires
                    k < d / s + 1,
                    s > 0,
            ;
            let v: i64 = min as i64 + (k * s) as i64;
            out.push(v as i32);
            k = k + 1;
        }
        assert(out@ =~= valid_values_of(min as int, max as int, step as int));
        out
    }
}

} // verus!
