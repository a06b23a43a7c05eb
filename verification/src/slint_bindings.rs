//! What the front end binds to: its device model, and the meaning of the
//! identifiers that it asks to connect to.

use vstd::prelude::*;
use crate::text::{begins_with, chars_of, string_of};
use crate::ui::{Device, VecModel};

verus! {

/// What an identifier of the device list asks to connect to.
#[derive(Debug, Clone, PartialEq, Eq)]
pub enum ConnectRequest {
    /// An endpoint descriptor, for the connection factory to resolve.
    Endpoint(String),
    /// A socket address, for a network connection that is recorded among the
    /// devices.
    Network(String),
}

/// Mathematical value of a [`ConnectRequest`].
pub enum ConnectTarget {
    Endpoint(Seq<char>),
    Network(Seq<char>),
}

impl View for ConnectRequest {
    type V = ConnectTarget;

    open spec fn view(&self) -> ConnectTarget {
        match self {
            ConnectRequest::Endpoint(descriptor) => ConnectTarget::Endpoint(descriptor@),
            ConnectRequest::Network(address) => ConnectTarget::Network(address@),
        }
    }
}

/// The meaning of an identifier: after `serial:` stands an endpoint
/// descriptor, after `tcp:` a socket address, and any other identifier is an
/// endpoint descriptor itself.
pub open spec fn connect_target(id: Seq<char>) -> ConnectTarget {
    if "serial:"@.is_prefix_of(id) {
        ConnectTarget::Endpoint(id.skip("serial:"@.len() as int))
    } else if "tcp:"@.is_prefix_of(id) {
        ConnectTarget::Network(id.skip("tcp:"@.len() as int))
    } else {
        ConnectTarget::Endpoint(id)
    }
}

/// The device model of a front end that shows nothing yet.
pub fn slint_device_model() -> (model: VecModel<Device>)
    ensures
        model.0@.len() == 0,
{
    VecModel::from(Vec::new())
}

/// Says what the identifier `id` of the device list asks to connect to.
pub fn ui_connect_endpoint(id: &str) -> (request: ConnectRequest)
    ensures
        request@ == connect_target(id@),
{
    let chars = chars_of(id);
    let serial = chars_of("serial:");
    let tcp = chars_of("tcp:");
    if begins_with(&chars, &serial) {
        proof {
            assert(chars@.subrange(serial@.len() as int, chars@.len() as int) =~= chars@.skip(
                serial@.len() as int,
            ));
        }
        ConnectRequest::Endpoint(string_of(&chars, serial.len(), chars.len()))
    } else if begins_with(&chars, &tcp) {
        proof {
            assert(chars@.subrange(tcp@.len() as int, chars@.len() as int) =~= chars@.skip(
                tcp@.len() as int,
            ));
        }
        ConnectRequest::Network(string_of(&chars, tcp.len(), chars.len()))
    } else {
        proof {
            assert(chars@.subrange(0, chars@.len() as int) =~= chars@);
        }
        ConnectRequest::Endpoint(string_of(&chars, 0, chars.len()))
    }
}

} // verus!
