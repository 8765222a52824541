//! Lifecycle management for GPU-backed renderers embedded in a reactive UI tree.
//!
//! A renderer is expensive to build and needs a device handle that does not exist
//! when the UI element is mounted. This crate keeps one slot per instance identity,
//! counts the mounts that refer to it, builds the renderer lazily on the first
//! resume, forwards paint callbacks and messages to it, and tears it down only on
//! explicit disposal.
//!
//! All operations are sequential functions over an explicitly passed
//! [`BevyInstanceManager`]; the host is expected to serialise calls with one lock.

pub mod assets;
pub mod channel;
pub mod component;
pub mod laws;
pub mod manager;
pub mod model;
pub mod naming;
pub mod paint;
pub mod renderer;
pub mod sender;
pub mod signal;
pub mod texture;

pub use assets::asset_path;
pub use channel::{keep_answer, signal_channel, Forwarded, SignalReceiver, SignalSender};
pub use component::{plan_component, ComponentPlan};
pub use manager::{BevyInstanceId, BevyInstanceManager};
pub use model::{Disposal, RegistryView, SlotView};
pub use naming::to_pascal_case;
pub use paint::{ManagedBevyPaintSource, PaintSourceView};
pub use renderer::{BevyMessage, BevyRenderer, MAX_STORAGE_BUFFERS_PER_SHADER_STAGE};
pub use sender::BevyMessageSender;
pub use texture::{TexturePlan, TextureState};
pub use signal::{
    make_signal_update, F32Bits, F64Bits, FromSignalUpdate, IntoSignalUpdate, SignalUpdate,
    SignalUpdateView, SignalValue,
};
