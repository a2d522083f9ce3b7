//! What the client knows of the account: who is there, which private
//! channels are open, and who the user is.

use crate::api::json::Json;
use crate::api::model::channel::Channel;
use crate::api::model::gateway::Event;
use crate::api::model::presence::Presence;
use crate::api::model::ready::ReadyEvent;
use crate::api::model::user::CurrentUser;
use crate::api::model::value::{
    required_array_holds, required_holds, Decode, DecodeError,
};
use vstd::prelude::*;

verus! {

/// The state of the account as the last `READY` event gave it.
#[derive(Debug, Clone)]
pub struct State {
    pub presences: Vec<Presence>,
    pub private_channels: Vec<Channel>,
    pub user: CurrentUser,
}

impl State {
    /// Whether this state is what the body `j` of a `READY` event says.
    pub open spec fn reflects(&self, j: Json) -> bool {
        &&& required_array_holds(self.presences@, j, "presences")
        &&& required_array_holds(self.private_channels@, j, "private_channels")
        &&& required_holds(self.user, j, "user")
    }

    /// The state that a decoded `READY` event gives.
    pub fn new(ready: ReadyEvent) -> (r: State)
        ensures
            r.presences == ready.presences,
            r.private_channels == ready.private_channels,
            r.user == ready.user,
    {
        State {
            presences: ready.presences,
            private_channels: ready.private_channels,
            user: ready.user,
        }
    }

    /// Takes an event into account. A `READY` event whose body decodes
    /// replaces the state; one whose body does not decode gives the error
    /// and leaves the state as it was; every other event leaves it too.
    pub fn update(&mut self, event: &Event) -> (r: Result<(), DecodeError>)
        ensures
            match *event {
                Event::Ready(ready) => match ReadyEvent::defect(ready.payload@) {
                    Some(e) => r == Err::<(), DecodeError>(e) && *final(self) == *old(self),
                    None => r is Ok && final(self).reflects(ready.payload@),
                },
                Event::Unknown(_, _) => r is Ok && *final(self) == *old(self),
            },
    {
        match event {
            Event::Ready(ready) => {
                let decoded = ReadyEvent::decode(&ready.payload.0)?;
                *self = State::new(decoded);
                Ok(())
            },
            Event::Unknown(_, _) => Ok(()),
        }
    }
}

} // verus!
