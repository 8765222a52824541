//! The capability that a render backend offers to the instance manager.

use vstd::prelude::*;
use crate::signal::SignalUpdate;

verus! {

/// Number of storage buffers per shader stage that the device must allow for
/// the engine to run on it. The host is configured with this limit.
pub const MAX_STORAGE_BUFFERS_PER_SHADER_STAGE: u32 = 12;

/// A message for a renderer: a signal update, which the manager knows how to
/// build, or a payload of the backend's own, which the manager only carries.
pub enum BevyMessage<P> {
    /// A typed value update from reactive UI state.
    Signal(SignalUpdate),
    /// Anything else; a renderer ignores payloads that it does not recognise.
    Payload(P),
}

/// A render backend that the manager can host.
///
/// Every method comes with a relation that names what the method may do to the
/// renderer. A backend that says nothing accepts the defaults, which allow any
/// outcome; a backend that is verified states its own. The manager's contracts
/// say which of these relations links the renderer before and after each call,
/// so what is proved about the manager holds for every backend.
pub trait BevyRenderer: Send + Sized {
    /// Handle to the GPU device, lent by the host for the length of a call.
    type Device;

    /// Paint context of the host, handed over for one `render`.
    type Context<'a>;

    /// Handle to a texture that the host can draw.
    type Texture;

    /// Message payloads of the backend's own.
    type Payload;

    /// `render` may take the renderer from `pre` to `post` and return `texture`.
    open spec fn rendered<'a>(
        pre: Self,
        ctx: Self::Context<'a>,
        width: u32,
        height: u32,
        post: Self,
        texture: Option<Self::Texture>,
    ) -> bool {
        true
    }

    /// `handle_message` may take the renderer from `pre` to `post` on `msg`.
    open spec fn handled(pre: Self, msg: BevyMessage<Self::Payload>, post: Self) -> bool {
        true
    }

    /// `suspend` may take the renderer from `pre` to `post`.
    open spec fn suspended(pre: Self, post: Self) -> bool {
        true
    }

    /// `resume` may take the renderer from `pre` to `post` on `device`.
    open spec fn resumed(pre: Self, device: Self::Device, post: Self) -> bool {
        true
    }

    /// `shutdown` may take the renderer from `pre` to `post`.
    open spec fn shut_down(pre: Self, post: Self) -> bool {
        true
    }

    /// Produces, or reuses, a texture of the given size in pixels. `None` means
    /// not ready yet. Must not block.
    fn render<'a>(&mut self, ctx: Self::Context<'a>, width: u32, height: u32) -> (texture: Option<
        Self::Texture,
    >)
        ensures
            Self::rendered(*old(self), ctx, width, height, *final(self), texture),
    ;

    /// Takes a message. Payloads that the backend does not recognise are ignored.
    fn handle_message(&mut self, msg: BevyMessage<Self::Payload>)
        ensures
            Self::handled(*old(self), msg, *final(self)),
    ;

    /// Releases transient GPU resources while the hosting surface is hidden.
    fn suspend(&mut self)
        ensures
            Self::suspended(*old(self), *final(self)),
    ;

    /// Acquires GPU resources again. Called at least once before `render`.
    fn resume(&mut self, device: &Self::Device)
        ensures
            Self::resumed(*old(self), *device, *final(self)),
    ;

    /// Releases everything and tells the engine to exit. Called once, before the
    /// renderer is dropped.
    fn shutdown(&mut self)
        ensures
            Self::shut_down(*old(self), *final(self)),
    ;
}

} // verus!
