use crate::codec::{rgba_to_rgb, rgba_to_rgb888};
use crate::constraints::{
    AspectRatio, ConstraintDirectives, ConstraintsModel, JSCameraConstraints, JSCameraFacingMode,
    JSCameraResizeMode,
};
use crate::error::NokhwaError;
use crate::format::Resolution;
use vstd::prelude::*;

verus! {

/// The number of bytes of one frame at `res`: 4 per pixel for RGBA, 3 for RGB.
pub open spec fn frame_size(res: Resolution, rgba: bool) -> int {
    res.width_x * res.height_y * (if rgba { 4int } else { 3int })
}

/// What a frame written into a buffer holds: the captured RGBA frame, or its RGB conversion.
pub open spec fn frame_payload(rgba_frame: Seq<u8>, convert_rgba: bool) -> Seq<u8> {
    if convert_rgba {
        rgba_frame
    } else {
        rgba_to_rgb(rgba_frame)
    }
}

/// The state of a capture session: its stream, its constraints and the node it is attached to.
pub struct SessionModel<S, N> {
    pub stream: S,
    pub constraints: ConstraintsModel,
    pub attached_node: Option<N>,
}

impl<S, N> SessionModel<S, N> {
    /// A session just opened on `stream` with `constraints`: attached to nothing.
    pub open spec fn opened(stream: S, constraints: ConstraintsModel) -> Self {
        SessionModel { stream, constraints, attached_node: None }
    }

    /// The session after `attach(node)`: bound to `node`, whatever it was bound to before.
    pub open spec fn attached(self, node: N) -> Self {
        SessionModel { attached_node: Some(node), ..self }
    }

    /// The session after `de_attach`: bound to nothing.
    pub open spec fn detached(self) -> Self {
        SessionModel { attached_node: None, ..self }
    }
}

/// The lifecycle of a session: detaching a session that was never attached hands back
/// nothing and leaves it detached; attaching twice and then detaching hands back the second
/// node only, and leaves the session detached.
pub proof fn session_attach_law<S, N>(stream: S, constraints: ConstraintsModel, first: N, second: N)
    ensures
        SessionModel::<S, N>::opened(stream, constraints).attached_node is None,
        SessionModel::<S, N>::opened(stream, constraints).detached() == SessionModel::<S, N>::opened(stream, constraints),
        SessionModel::<S, N>::opened(stream, constraints).attached(first).attached(second).attached_node == Some(second),
        SessionModel::<S, N>::opened(stream, constraints).attached(first).attached(second).detached().attached_node is None,
        SessionModel::<S, N>::opened(stream, constraints).attached(first).attached(second).detached() == SessionModel::<S, N>::opened(stream, constraints),
{
}

/// A capture session over a browser media stream.
///
/// `S` is the handle of the media stream and `N` that of a presentation node; the session
/// holds them and decides what is to be done with them, and its caller does it.
pub struct JSCamera<S, N> {
    media_stream: S,
    constraints: JSCameraConstraints,
    attached_node: Option<N>,
}

impl<S, N> View for JSCamera<S, N> {
    type V = SessionModel<S, N>;

    closed spec fn view(&self) -> SessionModel<S, N> {
        SessionModel {
            stream: self.media_stream,
            constraints: self.constraints@,
            attached_node: self.attached_node,
        }
    }
}

fn frame_len(res: Resolution, rgba: bool) -> (r: u128)
    ensures
        r == frame_size(res, rgba),
{
    let per_pixel: u128 = if rgba { 4 } else { 3 };
    assert(res.width_x * res.height_y <= 0x1_0000_0000 * 0x1_0000_0000) by (nonlinear_arith)
        requires
            res.width_x < 0x1_0000_0000,
            res.height_y < 0x1_0000_0000,
    ;
    let pixels: u128 = res.width_x as u128 * res.height_y as u128;
    assert(pixels * per_pixel <= 0x1_0000_0000 * 0x1_0000_0000 * 4) by (nonlinear_arith)
        requires
            pixels == res.width_x * res.height_y,
            per_pixel <= 4,
    ;
    pixels * per_pixel
}

/// Whether one frame at `res` has a size that fits in `usize`, as `min_buffer_size` requires.
pub fn frame_size_fits(res: Resolution, rgba: bool) -> (r: bool)
    ensures
        r == (frame_size(res, rgba) <= usize::MAX),
{
    frame_len(res, rgba) <= usize::MAX as u128
}

impl<S, N> JSCamera<S, N> {
    /// A session over a stream opened with `constraints`, attached to nothing.
    pub fn new(media_stream: S, constraints: JSCameraConstraints) -> (r: Self)
        ensures
            r@ == SessionModel::<S, N>::opened(media_stream, constraints@),
    {
        JSCamera { media_stream, constraints, attached_node: None }
    }

    /// The preferred resolution.
    pub fn preferred_resolution(&self) -> (r: Resolution)
        ensures
            r == self@.constraints.directives.resolution,
    {
        self.constraints.preferred_resolution()
    }

    /// Sets the preferred resolution; the request is rendered again by `apply_constraints`.
    pub fn set_preferred_resolution(&mut self, preferred_resolution: Resolution)
        ensures
            final(self)@ == (SessionModel {
                constraints: ConstraintsModel {
                    directives: ConstraintDirectives { resolution: preferred_resolution, ..old(self)@.constraints.directives },
                    ..old(self)@.constraints
                },
                ..old(self)@
            }),
    {
        self.constraints.set_preferred_resolution(preferred_resolution);
    }

    /// Whether the resolution is exact.
    pub fn resolution_exact(&self) -> (r: bool)
        ensures
            r == self@.constraints.directives.resolution_exact,
    {
        self.constraints.resolution_exact()
    }

    /// Sets whether the resolution is exact; the request is rendered again by `apply_constraints`.
    pub fn set_resolution_exact(&mut self, resolution_exact: bool)
        ensures
            final(self)@ == (SessionModel {
                constraints: ConstraintsModel {
                    directives: ConstraintDirectives { resolution_exact: resolution_exact, ..old(self)@.constraints.directives },
                    ..old(self)@.constraints
                },
                ..old(self)@
            }),
    {
        self.constraints.set_resolution_exact(resolution_exact);
    }

    /// The aspect ratio.
    pub fn aspect_ratio(&self) -> (r: AspectRatio)
        ensures
            r == self@.constraints.directives.aspect_ratio,
    {
        self.constraints.aspect_ratio()
    }

    /// Sets the aspect ratio; the request is rendered again by `apply_constraints`.
    pub fn set_aspect_ratio(&mut self, aspect_ratio: AspectRatio)
        ensures
            final(self)@ == (SessionModel {
                constraints: ConstraintsModel {
                    directives: ConstraintDirectives { aspect_ratio: aspect_ratio, ..old(self)@.constraints.directives },
                    ..old(self)@.constraints
                },
                ..old(self)@
            }),
    {
        self.constraints.set_aspect_ratio(aspect_ratio);
    }

    /// Whether the aspect ratio is exact.
    pub fn aspect_ratio_exact(&self) -> (r: bool)
        ensures
            r == self@.constraints.directives.aspect_ratio_exact,
    {
        self.constraints.aspect_ratio_exact()
    }

    /// Sets whether the aspect ratio is exact; the request is rendered again by `apply_constraints`.
    pub fn set_aspect_ratio_exact(&mut self, aspect_ratio_exact: bool)
        ensures
            final(self)@ == (SessionModel {
                constraints: ConstraintsModel {
                    directives: ConstraintDirectives { aspect_ratio_exact: aspect_ratio_exact, ..old(self)@.constraints.directives },
                    ..old(self)@.constraints
                },
                ..old(self)@
            }),
    {
        self.constraints.set_aspect_ratio_exact(aspect_ratio_exact);
    }

    /// The facing mode.
    pub fn facing_mode(&self) -> (r: JSCameraFacingMode)
        ensures
            r == self@.constraints.directives.facing_mode,
    {
        self.constraints.facing_mode()
    }

    /// Sets the facing mode; the request is rendered again by `apply_constraints`.
    pub fn set_facing_mode(&mut self, facing_mode: JSCameraFacingMode)
        ensures
            final(self)@ == (SessionModel {
                constraints: ConstraintsModel {
                    directives: ConstraintDirectives { facing_mode: facing_mode, ..old(self)@.constraints.directives },
                    ..old(self)@.constraints
                },
                ..old(self)@
            }),
    {
        self.constraints.set_facing_mode(facing_mode);
    }

    /// Whether the facing mode is exact.
    pub fn facing_mode_exact(&self) -> (r: bool)
        ensures
            r == self@.constraints.directives.facing_mode_exact,
    {
        self.constraints.facing_mode_exact()
    }

    /// Sets whether the facing mode is exact; the request is rendered again by `apply_constraints`.
    pub fn set_facing_mode_exact(&mut self, facing_mode_exact: bool)
        ensures
            final(self)@ == (SessionModel {
                constraints: ConstraintsModel {
                    directives: ConstraintDirectives { facing_mode_exact: facing_mode_exact, ..old(self)@.constraints.directives },
                    ..old(self)@.constraints
                },
                ..old(self)@
            }),
    {
        self.constraints.set_facing_mode_exact(facing_mode_exact);
    }

    /// The frame rate.
    pub fn frame_rate(&self) -> (r: u32)
        ensures
            r == self@.constraints.directives.frame_rate,
    {
        self.constraints.frame_rate()
    }

    /// Sets the frame rate; the request is rendered again by `apply_constraints`.
    pub fn set_frame_rate(&mut self, frame_rate: u32)
        ensures
            final(self)@ == (SessionModel {
                constraints: ConstraintsModel {
                    directives: ConstraintDirectives { frame_rate: frame_rate, ..old(self)@.constraints.directives },
                    ..old(self)@.constraints
                },
                ..old(self)@
            }),
    {
        self.constraints.set_frame_rate(frame_rate);
    }

    /// Whether the frame rate is exact.
    pub fn frame_rate_exact(&self) -> (r: bool)
        ensures
            r == self@.constraints.directives.frame_rate_exact,
    {
        self.constraints.frame_rate_exact()
    }

    /// Sets whether the frame rate is exact; the request is rendered again by `apply_constraints`.
    pub fn set_frame_rate_exact(&mut self, frame_rate_exact: bool)
        ensures
            final(self)@ == (SessionModel {
                constraints: ConstraintsModel {
                    directives: ConstraintDirectives { frame_rate_exact: frame_rate_exact, ..old(self)@.constraints.directives },
                    ..old(self)@.constraints
                },
                ..old(self)@
            }),
    {
        self.constraints.set_frame_rate_exact(frame_rate_exact);
    }

    /// The resize mode.
    pub fn resize_mode(&self) -> (r: JSCameraResizeMode)
        ensures
            r == self@.constraints.directives.resize_mode,
    {
        self.constraints.resize_mode()
    }

    /// Sets the resize mode; the request is rendered again by `apply_constraints`.
    pub fn set_resize_mode(&mut self, resize_mode: JSCameraResizeMode)
        ensures
            final(self)@ == (SessionModel {
                constraints: ConstraintsModel {
                    directives: ConstraintDirectives { resize_mode: resize_mode, ..old(self)@.constraints.directives },
                    ..old(self)@.constraints
                },
                ..old(self)@
            }),
    {
        self.constraints.set_resize_mode(resize_mode);
    }

    /// Whether the resize mode is exact.
    pub fn resize_mode_exact(&self) -> (r: bool)
        ensures
            r == self@.constraints.directives.resize_mode_exact,
    {
        self.constraints.resize_mode_exact()
    }

    /// Sets whether the resize mode is exact; the request is rendered again by `apply_constraints`.
    pub fn set_resize_mode_exact(&mut self, resize_mode_exact: bool)
        ensures
            final(self)@ == (SessionModel {
                constraints: ConstraintsModel {
                    directives: ConstraintDirectives { resize_mode_exact: resize_mode_exact, ..old(self)@.constraints.directives },
                    ..old(self)@.constraints
                },
                ..old(self)@
            }),
    {
        self.constraints.set_resize_mode_exact(resize_mode_exact);
    }

    /// Whether the device id is exact.
    pub fn device_id_exact(&self) -> (r: bool)
        ensures
            r == self@.constraints.directives.device_id_exact,
    {
        self.constraints.device_id_exact()
    }

    /// Sets whether the device id is exact; the request is rendered again by `apply_constraints`.
    pub fn set_device_id_exact(&mut self, device_id_exact: bool)
        ensures
            final(self)@ == (SessionModel {
                constraints: ConstraintsModel {
                    directives: ConstraintDirectives { device_id_exact: device_id_exact, ..old(self)@.constraints.directives },
                    ..old(self)@.constraints
                },
                ..old(self)@
            }),
    {
        self.constraints.set_device_id_exact(device_id_exact);
    }

    /// Whether the group id is exact.
    pub fn group_id_exact(&self) -> (r: bool)
        ensures
            r == self@.constraints.directives.group_id_exact,
    {
        self.constraints.group_id_exact()
    }

    /// Sets whether the group id is exact; the request is rendered again by `apply_constraints`.
    pub fn set_group_id_exact(&mut self, group_id_exact: bool)
        ensures
            final(self)@ == (SessionModel {
                constraints: ConstraintsModel {
                    directives: ConstraintDirectives { group_id_exact: group_id_exact, ..old(self)@.constraints.directives },
                    ..old(self)@.constraints
                },
                ..old(self)@
            }),
    {
        self.constraints.set_group_id_exact(group_id_exact);
    }

    /// The device id.
    pub fn device_id(&self) -> (r: &str)
        ensures
            r@ == self@.constraints.directives.device_id,
    {
        self.constraints.device_id()
    }

    /// Sets the device id; the request is rendered again by `apply_constraints`.
    pub fn set_device_id(&mut self, device_id: String)
        ensures
            final(self)@ == (SessionModel {
                constraints: ConstraintsModel {
                    directives: ConstraintDirectives { device_id: device_id@, ..old(self)@.constraints.directives },
                    ..old(self)@.constraints
                },
                ..old(self)@
            }),
    {
        self.constraints.set_device_id(device_id);
    }

    /// The group id.
    pub fn group_id(&self) -> (r: &str)
        ensures
            r@ == self@.constraints.directives.group_id,
    {
        self.constraints.group_id()
    }

    /// Sets the group id; the request is rendered again by `apply_constraints`.
    pub fn set_group_id(&mut self, group_id: String)
        ensures
            final(self)@ == (SessionModel {
                constraints: ConstraintsModel {
                    directives: ConstraintDirectives { group_id: group_id@, ..old(self)@.constraints.directives },
                    ..old(self)@.constraints
                },
                ..old(self)@
            }),
    {
        self.constraints.set_group_id(group_id);
    }

    /// The constraints the stream was opened with, as changed since.
    pub fn constraints(&self) -> (r: &JSCameraConstraints)
        ensures
            r@ == self@.constraints,
    {
        &self.constraints
    }

    /// The size to give a presentation element showing the stream: the preferred width as its
    /// width and the preferred height as its height.
    pub fn presentation_size(&self) -> (r: (u32, u32))
        ensures
            r.0 == self@.constraints.directives.resolution.width_x,
            r.1 == self@.constraints.directives.resolution.height_y,
    {
        let res = self.constraints.preferred_resolution();
        (res.width_x, res.height_y)
    }

    /// Whether the stream is attached to a node.
    pub fn is_attached(&self) -> (r: bool)
        ensures
            r == self@.attached_node is Some,
    {
        self.attached_node.is_some()
    }

    /// The media stream.
    pub fn media_stream(&self) -> (r: &S)
        ensures
            *r == self@.stream,
    {
        &self.media_stream
    }

    /// The node the stream is attached to, if any: frames are drawn from it.
    pub fn attached_node(&self) -> (r: Option<&N>)
        ensures
            r is Some <==> self@.attached_node is Some,
            r matches Some(n) ==> self@.attached_node == Some(*n),
    {
        self.attached_node.as_ref()
    }

    /// Renders the request again from the current directives.
    pub fn apply_constraints(&mut self)
        ensures
            final(self)@.stream == old(self)@.stream,
            final(self)@.attached_node == old(self)@.attached_node,
            final(self)@.constraints.directives == old(self)@.constraints.directives,
            final(self)@.constraints.request == old(self)@.constraints.directives.request_source(),
    {
        self.constraints.apply_constraints();
    }

    /// Records that the stream is now bound to `node`. A node attached before is no longer
    /// the session's: a later `de_attach` detaches `node` only.
    pub fn attach(&mut self, node: N)
        ensures
            final(self)@ == old(self)@.attached(node),
    {
        self.attached_node = Some(node);
    }

    /// Detaches the stream: hands back the node it was attached to, whose source is to be
    /// cleared. On a session attached to nothing it does nothing and hands back nothing.
    pub fn de_attach(&mut self) -> (r: Option<N>)
        ensures
            r == old(self)@.attached_node,
            final(self)@ == old(self)@.detached(),
    {
        self.attached_node.take()
    }

    /// Ends the session: hands back the stream, whose tracks are to be stopped, and the node
    /// it is still attached to, whose source is to be cleared. Taking the session by value,
    /// it happens once.
    pub fn close(self) -> (r: (S, Option<N>))
        ensures
            r.0 == self@.stream,
            r.1 == self@.attached_node,
    {
        (self.media_stream, self.attached_node)
    }

    /// The size in bytes of one frame at the preferred resolution: 4 bytes a pixel with
    /// `use_rgba`, else 3.
    pub fn min_buffer_size(&self, use_rgba: bool) -> (r: usize)
        requires
            frame_size(self@.constraints.directives.resolution, use_rgba) <= usize::MAX,
        ensures
            r == frame_size(self@.constraints.directives.resolution, use_rgba),
    {
        frame_len(self.constraints.preferred_resolution(), use_rgba) as usize
    }

    /// The RGB888 frame of a captured RGBA8888 frame `raw` at the preferred resolution.
    ///
    /// # Errors
    /// A `ReadFrameError` when `raw` does not hold exactly one RGBA frame at that resolution.
    pub fn frame(&self, raw: &[u8]) -> (r: Result<Vec<u8>, NokhwaError>)
        ensures
            r is Ok <==> raw@.len() == frame_size(self@.constraints.directives.resolution, true),
            r matches Ok(rgb) ==> rgb@ == rgba_to_rgb(raw@),
            r matches Err(e) ==> e is ReadFrameError,
    {
        let res = self.constraints.preferred_resolution();
        if raw.len() as u128 != frame_len(res, true) {
            return Err(NokhwaError::ReadFrameError(String::from_str("the frame does not match the resolution")));
        }
        Ok(rgba_to_rgb888(raw))
    }

    /// The captured RGBA8888 frame `raw`, checked against the preferred resolution.
    ///
    /// # Errors
    /// A `ReadFrameError` when `raw` does not hold exactly one RGBA frame at that resolution.
    pub fn rgba_frame(&self, raw: Vec<u8>) -> (r: Result<Vec<u8>, NokhwaError>)
        ensures
            r is Ok <==> raw@.len() == frame_size(self@.constraints.directives.resolution, true),
            r matches Ok(rgba) ==> rgba@ == raw@,
            r matches Err(e) ==> e is ReadFrameError,
    {
        let res = self.constraints.preferred_resolution();
        if raw.len() as u128 != frame_len(res, true) {
            return Err(NokhwaError::ReadFrameError(String::from_str("the frame does not match the resolution")));
        }
        Ok(raw)
    }

    /// Writes the captured RGBA8888 frame `raw` into the front of `buffer`: as it is with
    /// `convert_rgba`, else converted to RGB888. Returns the number of bytes written.
    ///
    /// # Errors
    /// A `ReadFrameError`, with `buffer` untouched, when `raw` does not hold exactly one RGBA
    /// frame at the preferred resolution, or when `buffer` is shorter than the frame to write.
    pub fn write_frame_to_buffer(&self, raw: &[u8], buffer: &mut [u8], convert_rgba: bool) -> (r: Result<usize, NokhwaError>)
        ensures
            r is Ok <==> raw@.len() == frame_size(self@.constraints.directives.resolution, true)
                && old(buffer)@.len() >= frame_size(self@.constraints.directives.resolution, convert_rgba),
            r matches Ok(n) ==> {
                &&& n == frame_size(self@.constraints.directives.resolution, convert_rgba)
                &&& final(buffer)@ == frame_payload(raw@, convert_rgba) + old(buffer)@.skip(n as int)
            },
            r matches Err(e) ==> e is ReadFrameError && final(buffer)@ == old(buffer)@,
    {
        let res = self.constraints.preferred_resolution();
        if raw.len() as u128 != frame_len(res, true) {
            return Err(NokhwaError::ReadFrameError(String::from_str("the frame does not match the resolution")));
        }
        let needed = frame_len(res, convert_rgba);
        if (buffer.len() as u128) < needed {
            return Err(NokhwaError::ReadFrameError(String::from_str("the buffer is too small for the frame")));
        }
        let n: usize = needed as usize;
        let ghost payload = frame_payload(raw@, convert_rgba);
        proof {
            assert(payload.len() == n) by (nonlinear_arith)
                requires
                    raw@.len() == res.width_x * res.height_y * 4,
                    n == res.width_x * res.height_y * (if convert_rgba { 4int } else { 3int }),
                    payload.len() == if convert_rgba { raw@.len() } else { raw@.len() / 4 * 3 },
            ;
            if !convert_rgba {
                assert(raw@.len() == 4 * (n / 3) && n % 3 == 0) by (nonlinear_arith)
                    requires
                        raw@.len() == res.width_x * res.height_y * 4,
                        n == res.width_x * res.height_y * 3,
                ;
            }
        }
        let mut i: usize = 0;
        while i < n
            invariant
                n <= buffer@.len(),
                buffer@.len() == old(buffer)@.len(),
                payload.len() == n,
                payload == frame_payload(raw@, convert_rgba),
                raw@.len() <= usize::MAX,
                convert_rgba ==> raw@.len() == n,
                !convert_rgba ==> raw@.len() == 4 * (n / 3) && n % 3 == 0,
                i <= n,
                forall|j: int| 0 <= j < i ==> buffer@[j] == payload[j],
                forall|j: int| i <= j < buffer@.len() ==> buffer@[j] == old(buffer)@[j],
            decreases n - i,
        {
            let b = if convert_rgba {
                raw[i]
            } else {
                assert((i / 3) * 4 + i % 3 < raw@.len()) by {
                    assert(i / 3 < n / 3);
                }
                raw[(i / 3) * 4 + i % 3]
            };
            buffer[i] = b;
            i = i + 1;
        }
        assert(buffer@ =~= payload + old(buffer)@.skip(n as int));
        Ok(n)
    }
}

} // verus!
