use vstd::prelude::*;
use crate::device::DeviceFeatures;

verus! {

/// Blend modes, as the numbers that material tables carry.
pub struct BlendMode {}

impl BlendMode {
    pub const NORMAL: u32 = 0x1;
    pub const ADDITIVE: u32 = 0x2;
    pub const MULTIPLY: u32 = 0x3;

    /// The blend mode that a mode name stands for; unknown names select `NORMAL`.
    pub open spec fn spec_from_string(s: Seq<char>) -> u32 {
        if s == "additive"@ {
            BlendMode::ADDITIVE
        } else if s == "multiply"@ {
            BlendMode::MULTIPLY
        } else {
            BlendMode::NORMAL
        }
    }

    pub fn from_string(blend_mode: &str) -> (r: u32)
        ensures
            r == BlendMode::spec_from_string(blend_mode@),
    {
        let name = blend_mode.to_owned();
        let additive = "additive".to_owned();
        let multiply = "multiply".to_owned();
        if name == additive {
            BlendMode::ADDITIVE
        } else if name == multiply {
            BlendMode::MULTIPLY
        } else {
            BlendMode::NORMAL
        }
    }
}

/// Blend factors used by the colour blend equation.
#[derive(Clone, Copy, Debug, PartialEq, Eq, Structural)]
pub enum BlendFactor {
    Zero,
    One,
    SrcAlpha,
    OneMinusSrcAlpha,
    DstColor,
}

/// Which faces are culled.
#[derive(Clone, Copy, Debug, PartialEq, Eq, Structural)]
pub enum CullMode {
    Disabled,
    Back,
}

/// Winding order of front faces.
#[derive(Clone, Copy, Debug, PartialEq, Eq, Structural)]
pub enum FrontFace {
    Clockwise,
    CounterClockwise,
}

/// The colour blend equation; colour is added, alpha is taken from the source.
#[derive(Clone, Copy, Debug, PartialEq, Eq, Structural)]
pub struct BlendEquation {
    pub src_color: BlendFactor,
    pub dst_color: BlendFactor,
    pub src_alpha: BlendFactor,
    pub dst_alpha: BlendFactor,
}

pub open spec fn spec_blend_equation(mode: u32) -> BlendEquation {
    let (src, dst) = if mode == BlendMode::ADDITIVE {
        (BlendFactor::SrcAlpha, BlendFactor::One)
    } else if mode == BlendMode::MULTIPLY {
        (BlendFactor::DstColor, BlendFactor::Zero)
    } else {
        (BlendFactor::SrcAlpha, BlendFactor::OneMinusSrcAlpha)
    };
    BlendEquation { src_color: src, dst_color: dst, src_alpha: BlendFactor::One, dst_alpha: BlendFactor::Zero }
}

/// The blend equation of a blend mode; unknown modes blend as `NORMAL`.
pub fn blend_equation(mode: u32) -> (r: BlendEquation)
    ensures
        r == spec_blend_equation(mode),
{
    let (src, dst) = if mode == BlendMode::ADDITIVE {
        (BlendFactor::SrcAlpha, BlendFactor::One)
    } else if mode == BlendMode::MULTIPLY {
        (BlendFactor::DstColor, BlendFactor::Zero)
    } else {
        (BlendFactor::SrcAlpha, BlendFactor::OneMinusSrcAlpha)
    };
    BlendEquation { src_color: src, dst_color: dst, src_alpha: BlendFactor::One, dst_alpha: BlendFactor::Zero }
}

pub open spec fn spec_cull_mode(backface_culling: bool) -> CullMode {
    if backface_culling { CullMode::Back } else { CullMode::Disabled }
}

pub open spec fn spec_front_face(clockwise: bool) -> FrontFace {
    if clockwise { FrontFace::Clockwise } else { FrontFace::CounterClockwise }
}

/// The values that are pushed into the command stream as per-draw state.
#[derive(Clone, Copy, Debug, PartialEq, Eq, Structural)]
pub struct DynamicRenderState {
    pub depth_test: bool,
    pub depth_write: bool,
    pub cull_mode: CullMode,
    pub front_face: FrontFace,
    /// Blend enable and equation; present only where the device takes them as dynamic state.
    pub blend: Option<BlendState>,
}

/// Whether blending is on, and its equation.
#[derive(Clone, Copy, Debug, PartialEq, Eq, Structural)]
pub struct BlendState {
    pub enable: bool,
    pub equation: BlendEquation,
}

/// Render-state flags of a material.
#[derive(Clone, Copy, Debug, PartialEq, Eq, Structural)]
pub struct RenderState {
    pub modified: bool,
    pub enable_blending: bool,
    pub blend_mode: u32,
    pub backface_culling: bool,
    pub frontface_clockwise: bool,
    pub depth_testing: bool,
    pub depth_writing: bool,
}

impl Default for RenderState {
    fn default() -> (r: RenderState)
        ensures
            r == (RenderState {
                modified: true,
                enable_blending: true,
                blend_mode: BlendMode::NORMAL,
                backface_culling: true,
                frontface_clockwise: false,
                depth_testing: false,
                depth_writing: false,
            }),
    {
        RenderState {
            modified: true,
            enable_blending: true,
            blend_mode: BlendMode::NORMAL,
            backface_culling: true,
            frontface_clockwise: false,
            depth_testing: false,
            depth_writing: false,
        }
    }
}

impl RenderState {
    /// The same flags with `modified` as given.
    pub open spec fn with_modified(self, modified: bool) -> RenderState {
        RenderState { modified, ..self }
    }

    pub fn invalidate(&mut self)
        ensures
            *final(self) == old(self).with_modified(true),
    {
        self.modified = true;
    }

    /// Takes every flag of `other`; `modified` is raised when any flag changed.
    pub fn copy(&mut self, other: &RenderState)
        ensures
            *final(self) == (other.with_modified(old(self).modified || *old(self) != other.with_modified(old(self).modified))),
    {
        self.set_blending(other.enable_blending);
        self.set_blend_mode(other.blend_mode);
        self.set_backface_culling(other.backface_culling);
        self.set_frontface_clockwise(other.frontface_clockwise);
        self.set_depth_testing(other.depth_testing);
        self.set_depth_writing(other.depth_writing);
    }

    pub fn set_blending(&mut self, val: bool) -> (r: &mut Self)
        ensures
            *r == (RenderState {
                enable_blending: val,
                modified: old(self).modified || old(self).enable_blending != val,
                ..*old(self)
            }),
            *final(self) == *final(r),
    {
        if val != self.enable_blending {
            self.enable_blending = val;
            self.modified = true;
        }
        self
    }

    pub fn set_blend_mode(&mut self, val: u32) -> (r: &mut Self)
        ensures
            *r == (RenderState {
                blend_mode: val,
                modified: old(self).modified || old(self).blend_mode != val,
                ..*old(self)
            }),
            *final(self) == *final(r),
    {
        if val != self.blend_mode {
            self.blend_mode = val;
            self.modified = true;
        }
        self
    }

    pub fn set_backface_culling(&mut self, val: bool) -> (r: &mut Self)
        ensures
            *r == (RenderState {
                backface_culling: val,
                modified: old(self).modified || old(self).backface_culling != val,
                ..*old(self)
            }),
            *final(self) == *final(r),
    {
        if val != self.backface_culling {
            self.backface_culling = val;
            self.modified = true;
        }
        self
    }

    pub fn set_frontface_clockwise(&mut self, val: bool) -> (r: &mut Self)
        ensures
            *r == (RenderState {
                frontface_clockwise: val,
                modified: old(self).modified || old(self).frontface_clockwise != val,
                ..*old(self)
            }),
            *final(self) == *final(r),
    {
        if val != self.frontface_clockwise {
            self.frontface_clockwise = val;
            self.modified = true;
        }
        self
    }

    pub fn set_depth_testing(&mut self, val: bool) -> (r: &mut Self)
        ensures
            *r == (RenderState {
                depth_testing: val,
                modified: old(self).modified || old(self).depth_testing != val,
                ..*old(self)
            }),
            *final(self) == *final(r),
    {
        if val != self.depth_testing {
            self.depth_testing = val;
            self.modified = true;
        }
        self
    }

    pub fn set_depth_writing(&mut self, val: bool) -> (r: &mut Self)
        ensures
            *r == (RenderState {
                depth_writing: val,
                modified: old(self).modified || old(self).depth_writing != val,
                ..*old(self)
            }),
            *final(self) == *final(r),
    {
        if val != self.depth_writing {
            self.depth_writing = val;
            self.modified = true;
        }
        self
    }

    /// The per-draw state that these flags give on a device with `features`.
    pub open spec fn spec_dynamic_state(self, features: DeviceFeatures) -> DynamicRenderState {
        DynamicRenderState {
            depth_test: self.depth_testing,
            depth_write: self.depth_writing,
            cull_mode: spec_cull_mode(self.backface_culling),
            front_face: spec_front_face(self.frontface_clockwise),
            blend: if features.dynamic_state_3 {
                Some(BlendState { enable: self.enable_blending, equation: spec_blend_equation(self.blend_mode) })
            } else {
                None
            },
        }
    }

    /// Hands out the per-draw state to record and clears `modified`.
    pub fn push(&mut self, features: &DeviceFeatures) -> (r: DynamicRenderState)
        ensures
            r == old(self).spec_dynamic_state(*features),
            *final(self) == old(self).with_modified(false),
    {
        self.modified = false;
        let cull_mode = if self.backface_culling { CullMode::Back } else { CullMode::Disabled };
        let front_face = if self.frontface_clockwise { FrontFace::Clockwise } else { FrontFace::CounterClockwise };
        let blend = if features.has_dynamic_state_3() {
            Some(BlendState { enable: self.enable_blending, equation: blend_equation(self.blend_mode) })
        } else {
            None
        };
        DynamicRenderState {
            depth_test: self.depth_testing,
            depth_write: self.depth_writing,
            cull_mode,
            front_face,
            blend,
        }
    }
}

} // verus!
