use vstd::prelude::*;
use crate::camera::{CameraController, Movement};
use crate::input::Key;
use crate::pipeline::{DrawCall, PipelineInfo};
use crate::state::State;

verus! {

/// Once a description with 2-byte indices over `n` index bytes is installed, a
/// redraw on a configured surface issues one indexed draw of exactly `n / 2`
/// elements.
pub proof fn indexed_draw_count(s: State, info: PipelineInfo)
    requires
        s.wf(),
        s.is_surface_configured,
        info.drawable(),
        info.index_buffer is Some,
        info.index_buffer->0.stride == 2,
    ensures
        ({
            let installed = State { pipeline: info.resource(), ..s };
            let n = info.index_buffer->0.contents@.len();
            &&& installed.wf()
            &&& installed.spec_render().draw matches Some(DrawCall::Indexed { count })
            &&& count == n / 2
        }),
{
}

/// Once a description without an index buffer, with vertex stride `stride` over
/// `v` vertex bytes, is installed, a redraw on a configured surface issues one
/// non-indexed draw of exactly `v / stride` vertices.
pub proof fn vertex_draw_count(s: State, info: PipelineInfo)
    requires
        s.wf(),
        s.is_surface_configured,
        info.drawable(),
        info.index_buffer is None,
        info.vertex_contents@.len() <= usize::MAX,
    ensures
        ({
            let installed = State { pipeline: info.resource(), ..s };
            let v = info.vertex_contents@.len();
            let stride = info.vertex_layout.array_stride;
            &&& installed.wf()
            &&& installed.spec_render().draw matches Some(DrawCall::NonIndexed { count })
            &&& count == (v as int) / (stride as int)
        }),
{
}

/// With no key held, a camera update translates by nothing; updates leave the
/// controller as it is, so this holds on every later update too.
pub proof fn idle_camera_stays(c: CameraController)
    requires
        c.idle(),
    ensures
        c.spec_movement().is_zero(),
{
}

/// Pressing the forward key on an idle controller gives an update of one step
/// straight forward; that single translation moves the eye and the target alike.
pub proof fn forward_key_steps_forward(c: CameraController)
    requires
        c.idle(),
    ensures
        c.with_key(Key::W, true).spec_movement() == (Movement { forward: 1, right: 0, up: 0 }),
        c.with_key(Key::ArrowUp, true).spec_movement() == (Movement { forward: 1, right: 0, up: 0 }),
{
}

} // verus!
