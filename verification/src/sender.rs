//! The handle through which UI code reaches one renderer.

use vstd::prelude::*;
use vstd::string::*;
use crate::manager::{BevyInstanceId, BevyInstanceManager};
use crate::model::sent;
use crate::renderer::{BevyMessage, BevyRenderer};
use crate::signal::{IntoSignalUpdate, SignalUpdate, SignalUpdateView};

verus! {

/// Sends messages to the renderer of one identity.
#[derive(Debug, Clone, Copy)]
pub struct BevyMessageSender {
    instance_id: BevyInstanceId,
}

impl BevyMessageSender {
    /// The identity that the messages go to.
    pub closed spec fn target(&self) -> BevyInstanceId {
        self.instance_id
    }

    /// A sender for the renderer of `instance_id`.
    pub fn new(instance_id: BevyInstanceId) -> (sender: Self)
        ensures
            sender.target() == instance_id,
    {
        BevyMessageSender { instance_id }
    }

    /// The identity that the messages go to.
    pub fn instance_id(&self) -> (id: BevyInstanceId)
        ensures
            id == self.target(),
    {
        self.instance_id
    }

    /// Sends `msg` to the renderer: the renderer handles it if it exists, and
    /// the message is dropped if not.
    pub fn send<R: BevyRenderer>(
        &self,
        manager: &mut BevyInstanceManager<R>,
        msg: BevyMessage<R::Payload>,
    )
        ensures
            sent(old(manager)@, self.target(), msg, final(manager)@),
    {
        manager.send_message(&self.instance_id, msg);
    }

    /// Sends the new value of the signal named `key` to the renderer, as the
    /// signal update of the value's kind.
    pub fn send_signal_update<R: BevyRenderer, T: IntoSignalUpdate>(
        &self,
        manager: &mut BevyInstanceManager<R>,
        key: &str,
        value: T,
    )
        ensures
            exists|update: SignalUpdate|
                #[trigger] update@ == (SignalUpdateView {
                    key: key@,
                    value: value.signal_value(),
                }) && sent(
                    old(manager)@,
                    self.target(),
                    BevyMessage::Signal(update),
                    final(manager)@,
                ),
    {
        let update = value.into_signal_update(key.to_owned());
        manager.send_signal(&self.instance_id, update);
    }
}

} // verus!
