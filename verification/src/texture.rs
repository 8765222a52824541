//! When a renderer keeps its target texture and when it makes a new one.
//!
//! A renderer draws into a texture of the size that the host asks for. Making a
//! texture is costly, so the texture is kept while the size stays, and replaced
//! when it changes. The decision is taken here; the GPU calls that carry it out
//! are the backend's.

use vstd::prelude::*;

verus! {

/// What a renderer remembers of its target texture.
#[derive(Debug, Clone, Copy, PartialEq, Eq, Structural)]
pub struct TextureState {
    /// A texture is registered with the host.
    pub has_texture: bool,
    /// A view of the texture is entered in the engine's table of views.
    pub has_view: bool,
    /// Width of the texture that was bound last.
    pub last_width: u32,
    /// Height of the texture that was bound last.
    pub last_height: u32,
}

/// What to do about the texture before a frame is drawn.
#[derive(Debug, Clone, Copy, PartialEq, Eq, Structural)]
pub enum TexturePlan {
    /// Leave everything as it is.
    Keep,
    /// Make a texture of the requested size and enter its view in the table.
    Replace {
        /// First take the old texture back from the host.
        unregister_texture: bool,
        /// First remove the old view from the table.
        remove_view: bool,
        /// Point the camera at the new view and register the new texture. Not
        /// set where the scene has more than one camera: then the renderer is
        /// left without a texture.
        bind_camera: bool,
    },
}

/// The plan for a frame of `width` by `height` pixels, in a scene with `cameras`
/// cameras, where the engine has a table of views or not.
///
/// Nothing is done for an empty frame, for a size that the current texture
/// already has, for a scene without a camera, or without a table of views.
pub open spec fn texture_plan(
    state: TextureState,
    width: u32,
    height: u32,
    cameras: nat,
    has_view_table: bool,
) -> TexturePlan {
    if width == 0 || height == 0 {
        TexturePlan::Keep
    } else if state.has_texture && state.last_width == width && state.last_height == height {
        TexturePlan::Keep
    } else if cameras == 0 || !has_view_table {
        TexturePlan::Keep
    } else {
        TexturePlan::Replace {
            unregister_texture: state.has_texture,
            remove_view: state.has_view,
            bind_camera: cameras == 1,
        }
    }
}

/// What the renderer remembers once `plan` is carried out for a frame of `width`
/// by `height` pixels.
pub open spec fn texture_state_after(
    state: TextureState,
    width: u32,
    height: u32,
    plan: TexturePlan,
) -> TextureState {
    match plan {
        TexturePlan::Keep => state,
        TexturePlan::Replace { bind_camera, .. } => if bind_camera {
            TextureState {
                has_texture: true,
                has_view: true,
                last_width: width,
                last_height: height,
            }
        } else {
            TextureState { has_texture: false, has_view: false, ..state }
        },
    }
}

impl TextureState {
    /// The state of a renderer that has no texture yet.
    pub fn new() -> (state: Self)
        ensures
            state == (TextureState {
                has_texture: false,
                has_view: false,
                last_width: 0,
                last_height: 0,
            }),
    {
        TextureState { has_texture: false, has_view: false, last_width: 0, last_height: 0 }
    }

    /// Whether there is a texture to hand to the host. Without one, `render`
    /// answers that it is not ready.
    pub fn is_ready(&self) -> (ready: bool)
        ensures
            ready == self.has_texture,
    {
        self.has_texture
    }

    /// Decides what to do about the texture for the coming frame, and records
    /// what will be there once the plan is carried out.
    pub fn advance(
        &mut self,
        width: u32,
        height: u32,
        cameras: usize,
        has_view_table: bool,
    ) -> (plan: TexturePlan)
        ensures
            plan == texture_plan(*old(self), width, height, cameras as nat, has_view_table),
            *final(self) == texture_state_after(*old(self), width, height, plan),
    {
        if width == 0 || height == 0 {
            return TexturePlan::Keep;
        }
        if self.has_texture && self.last_width == width && self.last_height == height {
            return TexturePlan::Keep;
        }
        if cameras == 0 || !has_view_table {
            return TexturePlan::Keep;
        }
        let plan = TexturePlan::Replace {
            unregister_texture: self.has_texture,
            remove_view: self.has_view,
            bind_camera: cameras == 1,
        };
        if cameras == 1 {
            self.has_texture = true;
            self.has_view = true;
            self.last_width = width;
            self.last_height = height;
        } else {
            self.has_texture = false;
            self.has_view = false;
        }
        plan
    }
}

} // verus!
