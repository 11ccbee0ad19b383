use vstd::prelude::*;
use crate::camera::{CameraController, Movement};
use crate::input::Key;
use crate::pipeline::{create_pipeline, DrawCall, PipelineInfo, PipelineResource};
use crate::surface::{choose_surface_format, preferred_index, srgb_flags};

verus! {

/// The drawing surface's configuration as the renderer tracks it.
pub struct SurfaceConfig {
    pub format: wgpu::TextureFormat,
    pub width: u32,
    pub height: u32,
}

/// What one redraw does: it always asks for the next redraw, and draws at most once.
#[derive(Clone, Copy, Debug, PartialEq, Eq, Structural)]
pub struct FramePlan {
    pub request_redraw: bool,
    pub draw: Option<DrawCall>,
}

/// The renderer's state between events: surface configuration and its flag,
/// the active pipeline's record and the camera controller.
pub struct State {
    pub surface_config: SurfaceConfig,
    /// False until the surface has been configured with a non-zero size.
    pub is_surface_configured: bool,
    pub pipeline: PipelineResource,
    pub camera_controller: CameraController,
}

/// Why the next image of the surface could not be acquired.
#[derive(Clone, Copy, Debug, PartialEq, Eq, Structural)]
pub enum SurfaceFault {
    Timeout,
    Outdated,
    Lost,
    Other,
}

/// The events the renderer reacts to.
pub enum Event {
    Resized { width: u32, height: u32 },
    RedrawRequested,
    KeyboardInput { key: Key, pressed: bool },
    CloseRequested,
    /// Replace the active pipeline with one built from this description.
    UpdatePipeline(PipelineInfo),
    SendBindGroup,
    /// Acquiring the image of a planned frame failed.
    AcquireFailed(SurfaceFault),
}

/// What the embedding program does in answer to an event.
pub enum Action {
    Nothing,
    /// Apply the (new) surface configuration to the surface.
    Configure { width: u32, height: u32 },
    /// Acquire the next image and carry out the plan.
    Render(FramePlan),
    /// Leave the event loop.
    Exit,
    /// Build the GPU objects of this description, then install it with
    /// `State::update_pipeline`; on a build failure nothing is installed.
    BuildPipeline(PipelineInfo),
}

impl State {
    /// The configured flag implies a valid size, and the pipeline can be drawn.
    pub open spec fn wf(&self) -> bool {
        &&& self.pipeline.wf()
        &&& self.is_surface_configured ==> self.surface_config.width > 0
            && self.surface_config.height > 0
    }

    /// The state after a resize notification of `width` by `height`.
    pub open spec fn resized(self, width: u32, height: u32) -> State {
        if width > 0 && height > 0 {
            State {
                surface_config: SurfaceConfig { width, height, ..self.surface_config },
                is_surface_configured: true,
                ..self
            }
        } else {
            self
        }
    }

    /// The answer to a failed acquire: an outdated or lost surface is configured
    /// again with the size in effect, and the next redraw retries; any other
    /// fault only drops the frame.
    pub open spec fn spec_recovery(&self, fault: SurfaceFault) -> Action {
        if (fault is Outdated || fault is Lost) && self.is_surface_configured {
            Action::Configure {
                width: self.surface_config.width,
                height: self.surface_config.height,
            }
        } else {
            Action::Nothing
        }
    }

    /// The plan of a redraw in this state.
    pub open spec fn spec_render(&self) -> FramePlan {
        FramePlan {
            request_redraw: true,
            draw: if self.is_surface_configured {
                Some(self.pipeline.spec_draw())
            } else {
                None
            },
        }
    }

    /// The renderer state for a freshly bound surface of the window's size, with
    /// the format chosen from `formats` and the pipeline that `info` describes.
    /// The surface counts as configured only after the first `resize`.
    pub fn new(formats: &Vec<wgpu::TextureFormat>, width: u32, height: u32, info: &PipelineInfo) -> (r: State)
        requires
            formats@.len() > 0,
            info.drawable(),
        ensures
            r.wf(),
            exists|i: int|
                preferred_index(srgb_flags(formats@), i) && r.surface_config.format == formats@[i],
            r.surface_config.width == width,
            r.surface_config.height == height,
            !r.is_surface_configured,
            r.pipeline == info.resource(),
            r.camera_controller.idle(),
    {
        let format = choose_surface_format(formats);
        State {
            surface_config: SurfaceConfig { format, width, height },
            is_surface_configured: false,
            pipeline: create_pipeline(info),
            camera_controller: CameraController::new(),
        }
    }

    /// Takes the window's new size. A zero width or height is skipped and leaves
    /// everything as it was; otherwise the size is applied and the surface counts
    /// as configured. Tells whether the surface must be reconfigured.
    pub fn resize(&mut self, width: u32, height: u32) -> (applied: bool)
        requires
            old(self).wf(),
        ensures
            final(self).wf(),
            *final(self) == old(self).resized(width, height),
            applied == (width > 0 && height > 0),
            (width == 0 || height == 0) ==> final(self).is_surface_configured == old(
                self,
            ).is_surface_configured && final(self).surface_config == old(self).surface_config,
            (width > 0 && height > 0) ==> final(self).is_surface_configured
                && final(self).surface_config.width == width && final(self).surface_config.height
                == height && final(self).surface_config.format == old(self).surface_config.format,
    {
        if width > 0 && height > 0 {
            self.surface_config.width = width;
            self.surface_config.height = height;
            self.is_surface_configured = true;
            true
        } else {
            false
        }
    }

    /// Installs the pipeline that `info` describes in place of the active one.
    pub fn update_pipeline(&mut self, info: &PipelineInfo)
        requires
            old(self).wf(),
            info.drawable(),
        ensures
            final(self).wf(),
            *final(self) == (State { pipeline: info.resource(), ..*old(self) }),
    {
        self.pipeline = create_pipeline(info);
    }

    /// Plans one redraw: a redraw is always requested again; nothing is drawn
    /// while the surface is unconfigured; otherwise the active pipeline's draw.
    pub fn render(&self) -> (r: FramePlan)
        requires
            self.wf(),
        ensures
            r == self.spec_render(),
            r.request_redraw,
            !self.is_surface_configured ==> r.draw is None,
            self.is_surface_configured ==> r.draw == Some(self.pipeline.spec_draw()),
    {
        let draw = if self.is_surface_configured {
            Some(self.pipeline.draw_call())
        } else {
            None
        };
        FramePlan { request_redraw: true, draw }
    }

    /// A key press or release: `Q` pressed asks to leave, every other key goes
    /// to the camera controller. Tells whether to leave.
    pub fn handle_key(&mut self, key: Key, pressed: bool) -> (exit: bool)
        ensures
            exit == (key is Q && pressed),
            exit ==> *final(self) == *old(self),
            !exit ==> *final(self) == (State {
                camera_controller: old(self).camera_controller.with_key(key, pressed),
                ..*old(self)
            }),
    {
        match key {
            Key::Q if pressed => true,
            _ => {
                self.camera_controller.handle_key(key, pressed);
                false
            },
        }
    }

    /// Decides what a failed acquire leads to; the state is left as it is.
    pub fn recovery(&self, fault: SurfaceFault) -> (r: Action)
        ensures
            r == self.spec_recovery(fault),
    {
        let invalidated = match fault {
            SurfaceFault::Outdated | SurfaceFault::Lost => true,
            _ => false,
        };
        if invalidated && self.is_surface_configured {
            Action::Configure { width: self.surface_config.width, height: self.surface_config.height }
        } else {
            Action::Nothing
        }
    }

    /// The camera translation of this frame, from the keys held.
    pub fn update(&self) -> (r: Movement)
        ensures
            r == self.camera_controller.spec_movement(),
    {
        self.camera_controller.movement()
    }

    /// Decides what an event does to the state and what the embedding program
    /// has to do about it.
    pub fn handle_event(&mut self, event: Event) -> (r: Action)
        requires
            old(self).wf(),
        ensures
            final(self).wf(),
            match event {
                Event::Resized { width, height } => {
                    &&& *final(self) == old(self).resized(width, height)
                    &&& r == if width > 0 && height > 0 {
                        Action::Configure { width, height }
                    } else {
                        Action::Nothing
                    }
                },
                Event::RedrawRequested => *final(self) == *old(self) && r == Action::Render(
                    old(self).spec_render(),
                ),
                Event::KeyboardInput { key, pressed } => if key is Q && pressed {
                    *final(self) == *old(self) && r == Action::Exit
                } else {
                    &&& *final(self) == (State {
                        camera_controller: old(self).camera_controller.with_key(key, pressed),
                        ..*old(self)
                    })
                    &&& r == Action::Nothing
                },
                Event::CloseRequested => *final(self) == *old(self) && r == Action::Exit,
                Event::UpdatePipeline(info) => *final(self) == *old(self) && r
                    == Action::BuildPipeline(info),
                Event::SendBindGroup => *final(self) == *old(self) && r == Action::Nothing,
                Event::AcquireFailed(fault) => *final(self) == *old(self) && r == old(
                    self,
                ).spec_recovery(fault),
            },
    {
        match event {
            Event::Resized { width, height } => {
                if self.resize(width, height) {
                    Action::Configure { width, height }
                } else {
                    Action::Nothing
                }
            },
            Event::RedrawRequested => Action::Render(self.render()),
            Event::KeyboardInput { key, pressed } => {
                if self.handle_key(key, pressed) {
                    Action::Exit
                } else {
                    Action::Nothing
                }
            },
            Event::CloseRequested => Action::Exit,
            Event::UpdatePipeline(info) => Action::BuildPipeline(info),
            Event::SendBindGroup => Action::Nothing,
            Event::AcquireFailed(fault) => self.recovery(fault),
        }
    }
}

} // verus!
