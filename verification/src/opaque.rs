//! OPAQUE messages as the library hands them out: hex texts of the
//! serialized protocol messages and states, and the texts of the errors met
//! on the way. The protocol steps themselves run in the application layer.
use vstd::prelude::*;
use crate::codec::{hex_encode, hex_decode, hex_text, hex_bytes, all_hex_digits, utf8_of, reports_plain_char, invalid_hex_message};
use crate::text::join_str;

verus! {

/// A message or state that is read back from hex and deserialized.
#[derive(Clone, Copy, PartialEq, Eq, Debug)]
pub enum OpaqueItem {
    ServerSetup,
    Request,
    Response,
    State,
    PasswordFile,
    Upload,
    Finalization,
}

/// A protocol step that can fail.
#[derive(Clone, Copy, PartialEq, Eq, Debug)]
pub enum OpaqueStep {
    RegistrationStart,
    ServerRegistrationStart,
    RegistrationFinish,
    LoginStart,
    ServerLoginStart,
    ClientLoginFinish,
    ServerLoginFinish,
}

/// The text that a deserialization error of an item starts with.
pub open spec fn item_error_prefix(item: OpaqueItem) -> Seq<char> {
    match item {
        OpaqueItem::ServerSetup => "Server setup deserialize error: "@,
        OpaqueItem::Request => "Request deserialize error: "@,
        OpaqueItem::Response => "Response deserialize error: "@,
        OpaqueItem::State => "State deserialize error: "@,
        OpaqueItem::PasswordFile => "Password file deserialize error: "@,
        OpaqueItem::Upload => "Upload deserialize error: "@,
        OpaqueItem::Finalization => "Finalization deserialize error: "@,
    }
}

/// The text that an error of a protocol step starts with.
pub open spec fn step_error_prefix(step: OpaqueStep) -> Seq<char> {
    match step {
        OpaqueStep::RegistrationStart => "Registration start error: "@,
        OpaqueStep::ServerRegistrationStart => "Server registration start error: "@,
        OpaqueStep::RegistrationFinish => "Registration finish error: "@,
        OpaqueStep::LoginStart => "Login start error: "@,
        OpaqueStep::ServerLoginStart => "Server login start error: "@,
        OpaqueStep::ClientLoginFinish => "Client login finish error: "@,
        OpaqueStep::ServerLoginFinish => "Server login finish error: "@,
    }
}

/// The error text for an item whose bytes do not deserialize.
pub fn deserialize_error(item: OpaqueItem, detail: &str) -> (r: String)
    ensures
        r@ == item_error_prefix(item) + detail@,
{
    let prefix = match item {
        OpaqueItem::ServerSetup => "Server setup deserialize error: ",
        OpaqueItem::Request => "Request deserialize error: ",
        OpaqueItem::Response => "Response deserialize error: ",
        OpaqueItem::State => "State deserialize error: ",
        OpaqueItem::PasswordFile => "Password file deserialize error: ",
        OpaqueItem::Upload => "Upload deserialize error: ",
        OpaqueItem::Finalization => "Finalization deserialize error: ",
    };
    join_str(prefix, detail)
}

/// The error text for a failed protocol step.
pub fn step_error(step: OpaqueStep, detail: &str) -> (r: String)
    ensures
        r@ == step_error_prefix(step) + detail@,
{
    let prefix = match step {
        OpaqueStep::RegistrationStart => "Registration start error: ",
        OpaqueStep::ServerRegistrationStart => "Server registration start error: ",
        OpaqueStep::RegistrationFinish => "Registration finish error: ",
        OpaqueStep::LoginStart => "Login start error: ",
        OpaqueStep::ServerLoginStart => "Server login start error: ",
        OpaqueStep::ClientLoginFinish => "Client login finish error: ",
        OpaqueStep::ServerLoginFinish => "Server login finish error: ",
    };
    join_str(prefix, detail)
}

/// The hex text in which a serialized message, state or key is handed out.
pub fn message_hex(bytes: &[u8]) -> (r: String)
    ensures
        r@ == hex_text(bytes@),
{
    hex_encode(bytes)
}

/// The bytes of a message, state or key handed in as hex text, or the error
/// of the hex decoder: "Odd number of digits" for an odd length, else
/// "Invalid character .. at position .." for the first non-hex byte.
pub fn message_bytes(text: &str) -> (r: Result<Vec<u8>, String>)
    ensures
        r is Ok <==> (utf8_of(text@).len() % 2 == 0 && all_hex_digits(utf8_of(text@))),
        r matches Ok(v) ==> v@ == hex_bytes(utf8_of(text@)),
        r matches Err(m) ==> (utf8_of(text@).len() % 2 == 1 ==> m@ == "Odd number of digits"@),
        r matches Err(m) ==> (utf8_of(text@).len() % 2 == 0 && reports_plain_char(utf8_of(text@))
            ==> m@ == invalid_hex_message(utf8_of(text@))),
{
    hex_decode(text)
}

/// Hex of the client's registration request and of its registration state.
pub struct ClientRegisterStartResult {
    pub request: String,
    pub state: String,
}

impl ClientRegisterStartResult {
    /// Encode the serialized request and state.
    pub fn from_bytes(request: &[u8], state: &[u8]) -> (r: Self)
        ensures
            r.request@ == hex_text(request@),
            r.state@ == hex_text(state@),
    {
        ClientRegisterStartResult { request: hex_encode(request), state: hex_encode(state) }
    }
}

/// Hex of the registration upload and of the client's export key.
pub struct ClientRegisterFinishResult {
    pub upload: String,
    pub export_key: String,
}

impl ClientRegisterFinishResult {
    /// Encode the serialized upload and the export key.
    pub fn from_bytes(upload: &[u8], export_key: &[u8]) -> (r: Self)
        ensures
            r.upload@ == hex_text(upload@),
            r.export_key@ == hex_text(export_key@),
    {
        ClientRegisterFinishResult { upload: hex_encode(upload), export_key: hex_encode(export_key) }
    }
}

/// Hex of the client's credential request and of its login state.
pub struct ClientLoginStartResult {
    pub request: String,
    pub state: String,
}

impl ClientLoginStartResult {
    /// Encode the serialized request and state.
    pub fn from_bytes(request: &[u8], state: &[u8]) -> (r: Self)
        ensures
            r.request@ == hex_text(request@),
            r.state@ == hex_text(state@),
    {
        ClientLoginStartResult { request: hex_encode(request), state: hex_encode(state) }
    }
}

/// Hex of the server's credential response and of its login state.
pub struct ServerLoginStartResult {
    pub response: String,
    pub state: String,
}

impl ServerLoginStartResult {
    /// Encode the serialized response and state.
    pub fn from_bytes(response: &[u8], state: &[u8]) -> (r: Self)
        ensures
            r.response@ == hex_text(response@),
            r.state@ == hex_text(state@),
    {
        ServerLoginStartResult { response: hex_encode(response), state: hex_encode(state) }
    }
}

/// Hex of the login finalization message, the session key, the export key
/// and the server's public key.
pub struct ClientLoginFinishResult {
    pub finalization: String,
    pub session_key: String,
    pub export_key: String,
    pub server_public_key: String,
}

impl ClientLoginFinishResult {
    /// Encode the finalization message and the three keys.
    pub fn from_bytes(finalization: &[u8], session_key: &[u8], export_key: &[u8], server_public_key: &[u8]) -> (r: Self)
        ensures
            r.finalization@ == hex_text(finalization@),
            r.session_key@ == hex_text(session_key@),
            r.export_key@ == hex_text(export_key@),
            r.server_public_key@ == hex_text(server_public_key@),
    {
        ClientLoginFinishResult {
            finalization: hex_encode(finalization),
            session_key: hex_encode(session_key),
            export_key: hex_encode(export_key),
            server_public_key: hex_encode(server_public_key),
        }
    }
}

} // verus!
