//! The notifications sent to the remote chat box, as OSC messages: the
//! typing indicator and the final text.
use vstd::prelude::*;
use vstd::utf8::encode_utf8;
use crate::error::SttError;

verus! {

#[verifier::external_type_specification]
#[verifier::external_body]
pub struct ExOscError(rosc::OscError);

/// The OSC address of the typing indicator.
pub const TYPING_ADDRESS: &'static str = "/chatbox/typing";

/// The OSC address of the chat box text.
pub const INPUT_ADDRESS: &'static str = "/chatbox/input";

/// An argument of an OSC message.
#[derive(Clone, Debug)]
pub enum OscArg {
    /// A boolean, sent as the type tag `T` or `F` with no data.
    Flag(bool),
    /// A string, sent as the type tag `s` and its UTF-8 bytes.
    Text(String),
}

/// An OSC message: an address and its arguments.
#[derive(Clone, Debug)]
pub struct Notification {
    pub addr: String,
    pub args: Vec<OscArg>,
}

/// `b` followed by one to four zero bytes, so that the whole is a multiple
/// of four bytes long.
pub open spec fn osc_padded(b: Seq<u8>) -> Seq<u8> {
    b + Seq::new((4 - b.len() % 4) as nat, |i: int| 0u8)
}

/// The type tag of an argument.
pub open spec fn type_tag(a: OscArg) -> u8 {
    match a {
        OscArg::Flag(true) => 84u8,
        OscArg::Flag(false) => 70u8,
        OscArg::Text(_) => 115u8,
    }
}

/// The data of an argument: none for a flag, the padded bytes of a string.
pub open spec fn arg_data(a: OscArg) -> Seq<u8> {
    match a {
        OscArg::Flag(_) => Seq::empty(),
        OscArg::Text(s) => osc_padded(encode_utf8(s@)),
    }
}

/// The data of the arguments, one after another.
pub open spec fn args_data(args: Seq<OscArg>) -> Seq<u8>
    decreases args.len(),
{
    if args.len() == 0 {
        Seq::empty()
    } else {
        args_data(args.drop_last()) + arg_data(args.last())
    }
}

/// The bytes of an OSC message: the padded address, the padded type tag
/// string (a comma, then one tag per argument), then the arguments' data.
pub open spec fn osc_message(addr: Seq<char>, args: Seq<OscArg>) -> Seq<u8> {
    osc_padded(encode_utf8(addr)) + osc_padded(seq![44u8] + args.map_values(|a: OscArg| type_tag(a)))
        + args_data(args)
}

/// Relies on rosc::encoder::encode, which lays a message out as
/// `osc_message` says and returns `Ok` for every message.
#[verifier::external_body]
fn encode_osc(n: &Notification) -> (r: Result<Vec<u8>, rosc::OscError>)
    ensures
        r is Ok,
        r is Ok ==> r->Ok_0@ == osc_message(n.addr@, n.args@),
{
    let args = n.args.iter().map(|a| match a {
        OscArg::Flag(b) => rosc::OscType::Bool(*b),
        OscArg::Text(s) => rosc::OscType::String(s.clone()),
    }).collect();
    let msg = rosc::OscMessage { addr: n.addr.clone(), args };
    rosc::encoder::encode(&rosc::OscPacket::Message(msg))
}

impl Notification {
    /// The typing indicator, switched on or off.
    pub fn typing(on: bool) -> (r: Notification)
        ensures
            r.addr@ == TYPING_ADDRESS@,
            r.args@ == seq![OscArg::Flag(on)],
    {
        Notification { addr: TYPING_ADDRESS.to_owned(), args: vec![OscArg::Flag(on)] }
    }

    /// The final text for the chat box, sent at once and with the
    /// notification sound: the two flags that follow the text are both set.
    pub fn final_text(text: &str) -> (r: Notification)
        ensures
            r.addr@ == INPUT_ADDRESS@,
            r.args@.len() == 3,
            r.args@[0] matches OscArg::Text(s) && s@ == text@,
            r.args@[1] == OscArg::Flag(true),
            r.args@[2] == OscArg::Flag(true),
    {
        Notification {
            addr: INPUT_ADDRESS.to_owned(),
            args: vec![OscArg::Text(text.to_owned()), OscArg::Flag(true), OscArg::Flag(true)],
        }
    }

    /// The bytes of the message, ready for one UDP datagram.
    pub fn encode(&self) -> (r: Result<Vec<u8>, SttError>)
        ensures
            r matches Ok(b) && b@ == osc_message(self.addr@, self.args@),
    {
        match encode_osc(self) {
            Ok(b) => Ok(b),
            Err(_) => Err(SttError::NotificationError("the OSC message could not be encoded".to_owned())),
        }
    }
}

} // verus!
