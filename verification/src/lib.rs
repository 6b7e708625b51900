//! A session-oriented storage and naming service driven across a call
//! boundary that has no destructors and no exceptions.  The crate manages
//! opaque session handles backed by an explicit registry, dispatches JSON
//! request envelopes to a closed set of typed operations, hands byte buffers
//! to the caller through an explicit escrow with a paired release call, and
//! bridges connection events to registered observer callbacks.
//!
//! A handle is issued by one of the session-establishment calls and must be
//! passed to `drop_client` exactly once; the registry makes a second destroy
//! a detectable error instead of undefined behaviour, and the buffer escrow
//! does the same for the release calls owed for returned buffers.

pub mod buffer;
pub mod client;
pub mod dns;
pub mod errors;
pub mod helper;
pub mod implementation;
pub mod json_support;
pub mod launcher_config_handler;
pub mod nfs;
pub mod relay;
pub mod response;
pub mod serialisation;

use vstd::prelude::*;

use crate::client::client_eq;
use crate::client::Client;
use crate::client::NetworkEvent;
use crate::errors::FfiError;
use crate::buffer::BufferEscrow;
use crate::json_support::json_bool_field;
use crate::json_support::json_parse;
use crate::json_support::json_string_field;
use crate::nfs::DirectoryKey;
use crate::relay::RelayBridge;
use crate::serialisation::b64_decode;
use crate::serialisation::b64_decode_of;
use crate::serialisation::deserialise_directory_key;
use crate::serialisation::spec_deserialised_key;

verus! {

use vstd::string::StringExecFns;

/// The standard parameters every dispatched operation receives: the
/// session's connection object and the directory-location references and
/// capability flag decoded from the request envelope.
pub struct ParameterPacket {
    /// Connection object used for performing the operation.
    pub client: Client,
    /// Root directory of the application, when the envelope named one.
    pub app_root_dir_key: Option<DirectoryKey>,
    /// Whether the application may touch the shared drive.
    pub safe_drive_access: bool,
    /// Shared drive root directory key, when the envelope named one.
    pub safe_drive_dir_key: Option<DirectoryKey>,
}

/// Two equal packets: same session content, same references, same flag.
pub open spec fn packet_eq(a: ParameterPacket, b: ParameterPacket) -> bool {
    &&& client_eq(a.client, b.client)
    &&& a.app_root_dir_key == b.app_root_dir_key
    &&& a.safe_drive_access == b.safe_drive_access
    &&& a.safe_drive_dir_key == b.safe_drive_dir_key
}

impl Clone for ParameterPacket {
    /// A clone carries the same session content, references and flag.
    fn clone(&self) -> (res: ParameterPacket)
        ensures
            packet_eq(*self, res),
    {
        let app_root_dir_key = if let Some(ref key) = self.app_root_dir_key {
            Some(*key)
        } else {
            None
        };
        let safe_drive_dir_key = if let Some(ref key) = self.safe_drive_dir_key {
            Some(*key)
        } else {
            None
        };
        ParameterPacket {
            client: self.client.clone(),
            app_root_dir_key,
            safe_drive_access: self.safe_drive_access,
            safe_drive_dir_key,
        }
    }
}

/// The standard result of a dispatched operation: an optional text payload,
/// or the unified error.
pub type ResponseType = Result<Option<String>, FfiError>;

/// One dispatched operation: consumes the request's context and produces a
/// result or fails.
pub trait Action {
    /// Executes the operation against the request's context.
    fn execute(&mut self, params: &mut ParameterPacket) -> ResponseType
        requires
            old(params).client.wf(),
    ;
}

/// The envelope fields as they came out of the JSON document, undecoded.
pub struct RawEnvelope {
    /// The `module` field, where present as a string.
    pub module: Option<String>,
    /// The `action` field, where present as a string.
    pub action: Option<String>,
    /// The `app_dir_key` field, where present as a string.
    pub app_dir_key: Option<String>,
    /// The `safe_drive_dir_key` field, where present as a string.
    pub safe_drive_dir_key: Option<String>,
    /// The `safe_drive_access` field, where present as a boolean.
    pub safe_drive_access: Option<bool>,
}

/// The envelope fields of a payload text, at the specification level.
pub struct EnvelopeFields {
    /// The `module` field's text, where the payload carries one.
    pub module: Option<Seq<char>>,
    /// The `action` field's text, where the payload carries one.
    pub action: Option<Seq<char>>,
    /// The `app_dir_key` field's text, where the payload carries one.
    pub app_dir_key: Option<Seq<char>>,
    /// The `safe_drive_dir_key` field's text, where the payload carries one.
    pub safe_drive_dir_key: Option<Seq<char>>,
    /// The `safe_drive_access` field, where the payload carries one.
    pub safe_drive_access: Option<bool>,
}

/// The five envelope fields as rustc-serialize reads them from `s`.
pub open spec fn spec_envelope_of(s: Seq<char>) -> EnvelopeFields {
    EnvelopeFields {
        module: crate::json_support::json_string_field_of(s, "module"@),
        action: crate::json_support::json_string_field_of(s, "action"@),
        app_dir_key: crate::json_support::json_string_field_of(s, "app_dir_key"@),
        safe_drive_dir_key: crate::json_support::json_string_field_of(s, "safe_drive_dir_key"@),
        safe_drive_access: crate::json_support::json_bool_field_of(s, "safe_drive_access"@),
    }
}

/// The view of one extracted optional string field.
pub open spec fn opt_string_view(a: Option<String>) -> Option<Seq<char>> {
    match a {
        Some(x) => Some(x@),
        None => None,
    }
}

/// The fields a `RawEnvelope` holds, at the specification level.
pub open spec fn spec_raw_fields(raw: RawEnvelope) -> EnvelopeFields {
    EnvelopeFields {
        module: opt_string_view(raw.module),
        action: opt_string_view(raw.action),
        app_dir_key: opt_string_view(raw.app_dir_key),
        safe_drive_dir_key: opt_string_view(raw.safe_drive_dir_key),
        safe_drive_access: raw.safe_drive_access,
    }
}

/// Which unified error a failed envelope decode reports: the catch-all
/// with an empty message for a missing or wrongly-typed field and for text
/// that is not base64; the connection subsystem's encode/decode failure
/// for base64 that does not hold a well-formed serialised key.
#[derive(Clone, Copy, Debug, PartialEq, Eq, Structural)]
pub enum EnvelopeError {
    /// A required field is missing, wrongly typed, or not base64.
    Missing,
    /// A reference's bytes are not a well-formed serialised key.
    MalformedKey,
}

/// Whether `e` is the error value an envelope failure of kind `k` reports.
pub open spec fn spec_envelope_error_matches(k: EnvelopeError, e: FfiError) -> bool {
    match k {
        EnvelopeError::Missing => e matches FfiError::Unexpected(m) && m@ == ""@,
        EnvelopeError::MalformedKey => e == FfiError::CoreError(
            crate::errors::CoreError::UnsuccessfulEncodeDecode,
        ),
    }
}

/// The flat code an envelope failure of kind `k` reports.
pub open spec fn spec_envelope_error_code(k: EnvelopeError) -> int {
    match k {
        EnvelopeError::Missing => crate::errors::FFI_ERROR_START_RANGE - 3,
        EnvelopeError::MalformedKey => crate::errors::CORE_ERROR_START_RANGE as int,
    }
}

/// The envelope decoded from a payload text.
pub struct DecodedEnvelope {
    /// The command family selected.
    pub module: Seq<char>,
    /// The operation selected within the family.
    pub action: Seq<char>,
    /// The application's root directory reference, where one was given.
    pub app_root_dir_key: Option<DirectoryKey>,
    /// Whether the application may touch the shared drive.
    pub safe_drive_access: bool,
    /// The shared drive's directory reference, where one was given.
    pub safe_drive_dir_key: Option<DirectoryKey>,
}

/// What decoding one optional base64 reference yields: the key, or the
/// kind of failure.
pub open spec fn spec_decoded_key_field(f: Option<Seq<char>>) -> Result<
    Option<DirectoryKey>,
    EnvelopeError,
> {
    match f {
        None => Ok(None),
        Some(s) => match b64_decode_of(s) {
            None => Err(EnvelopeError::Missing),
            Some(bytes) => match spec_deserialised_key(bytes) {
                None => Err(EnvelopeError::MalformedKey),
                Some(k) => Ok(Some(k)),
            },
        },
    }
}

/// The envelope the fields decode to.  `module` and `action` must be
/// present; when the shared-drive reference is absent the capability flag
/// is `false` whatever was supplied, and when it is present the flag must
/// be present too; each reference must decode from base64 to a well-formed
/// serialised key.  The first failure wins, in this order: module, action,
/// capability flag, application reference, shared-drive reference.
pub open spec fn spec_decoded_envelope(env: EnvelopeFields) -> Result<
    DecodedEnvelope,
    EnvelopeError,
> {
    if env.module is None {
        Err(EnvelopeError::Missing)
    } else if env.action is None {
        Err(EnvelopeError::Missing)
    } else if env.safe_drive_dir_key is Some && env.safe_drive_access is None {
        Err(EnvelopeError::Missing)
    } else {
        match spec_decoded_key_field(env.app_dir_key) {
            Err(k) => Err(k),
            Ok(app_root_dir_key) => match spec_decoded_key_field(env.safe_drive_dir_key) {
                Err(k) => Err(k),
                Ok(safe_drive_dir_key) => Ok(
                    DecodedEnvelope {
                        module: env.module.unwrap(),
                        action: env.action.unwrap(),
                        app_root_dir_key,
                        safe_drive_access: if env.safe_drive_dir_key is None {
                            false
                        } else {
                            env.safe_drive_access.unwrap()
                        },
                        safe_drive_dir_key,
                    },
                ),
            },
        }
    }
}

/// Reads the five envelope fields straight from the payload text.
pub fn read_envelope(payload: &str) -> (r: RawEnvelope)
    ensures
        spec_raw_fields(r) == spec_envelope_of(payload@),
{
    let r = RawEnvelope {
        module: json_string_field(payload, "module"),
        action: json_string_field(payload, "action"),
        app_dir_key: json_string_field(payload, "app_dir_key"),
        safe_drive_dir_key: json_string_field(payload, "safe_drive_dir_key"),
        safe_drive_access: json_bool_field(payload, "safe_drive_access"),
    };
    proof {
        assert(spec_raw_fields(r).module == spec_envelope_of(payload@).module);
        assert(spec_raw_fields(r).action == spec_envelope_of(payload@).action);
        assert(spec_raw_fields(r).app_dir_key == spec_envelope_of(payload@).app_dir_key);
        assert(spec_raw_fields(r).safe_drive_dir_key == spec_envelope_of(
            payload@,
        ).safe_drive_dir_key);
        assert(spec_raw_fields(r).safe_drive_access == spec_envelope_of(
            payload@,
        ).safe_drive_access);
    }
    r
}

/// Decodes one optional base64-encoded directory-location reference.
fn decode_dir_key_field(field: &Option<String>) -> (r: Result<Option<DirectoryKey>, FfiError>)
    ensures
        match r {
            Ok(k) => spec_decoded_key_field(opt_string_view(*field)) == Ok::<
                Option<DirectoryKey>,
                EnvelopeError,
            >(k),
            Err(e) => {
                &&& spec_decoded_key_field(opt_string_view(*field)) matches Err(kind)
                &&& spec_envelope_error_matches(kind, e)
            },
        },
{
    match field {
        Some(encoded) => {
            let bytes = match b64_decode(encoded.as_str()) {
                Some(v) => v,
                None => {
                    return Err(FfiError::unexpected(""));
                },
            };
            match deserialise_directory_key(&bytes) {
                Ok(key) => Ok(Some(key)),
                Err(e) => Err(e),
            }
        },
        None => Ok(None),
    }
}

/// Decodes the extracted envelope fields, as `spec_decoded_envelope`
/// states, the first failure winning in field order.
pub fn decode_raw_envelope(raw: &RawEnvelope) -> (r: Result<
    (String, String, Option<DirectoryKey>, bool, Option<DirectoryKey>),
    FfiError,
>)
    ensures
        ({
            let d = spec_decoded_envelope(spec_raw_fields(*raw));
            match r {
                Ok(out) => {
                    &&& d matches Ok(de)
                    &&& out.0@ == de.module
                    &&& out.1@ == de.action
                    &&& out.2 == de.app_root_dir_key
                    &&& out.3 == de.safe_drive_access
                    &&& out.4 == de.safe_drive_dir_key
                },
                Err(e) => {
                    &&& d matches Err(kind)
                    &&& spec_envelope_error_matches(kind, e)
                },
            }
        }),
{
    let module = match &raw.module {
        Some(m) => m.clone(),
        None => {
            return Err(FfiError::unexpected(""));
        },
    };
    let action = match &raw.action {
        Some(a) => a.clone(),
        None => {
            return Err(FfiError::unexpected(""));
        },
    };
    let safe_drive_access: bool = if raw.safe_drive_dir_key.is_none() {
        false
    } else {
        match raw.safe_drive_access {
            Some(b) => b,
            None => {
                return Err(FfiError::unexpected(""));
            },
        }
    };
    let app_root_dir_key = match decode_dir_key_field(&raw.app_dir_key) {
        Ok(k) => k,
        Err(e) => {
            return Err(e);
        },
    };
    let safe_drive_dir_key = match decode_dir_key_field(&raw.safe_drive_dir_key) {
        Ok(k) => k,
        Err(e) => {
            return Err(e);
        },
    };
    Ok((module, action, app_root_dir_key, safe_drive_access, safe_drive_dir_key))
}

/// Reads and decodes the envelope from the payload text; what comes out is
/// `spec_decoded_envelope` of the text's fields.
pub fn decode_envelope(payload: &str) -> (r: Result<
    (String, String, Option<DirectoryKey>, bool, Option<DirectoryKey>),
    FfiError,
>)
    ensures
        ({
            let d = spec_decoded_envelope(spec_envelope_of(payload@));
            match r {
                Ok(out) => {
                    &&& d matches Ok(de)
                    &&& out.0@ == de.module
                    &&& out.1@ == de.action
                    &&& out.2 == de.app_root_dir_key
                    &&& out.3 == de.safe_drive_access
                    &&& out.4 == de.safe_drive_dir_key
                },
                Err(e) => {
                    &&& d matches Err(kind)
                    &&& spec_envelope_error_matches(kind, e)
                },
            }
        }),
{
    let raw = read_envelope(payload);
    decode_raw_envelope(&raw)
}

/// Builds the execution context from the extracted envelope fields, as
/// `spec_decoded_envelope` states.
pub fn build_parameter_packet(client: Client, raw: &RawEnvelope) -> (r: Result<
    (String, String, ParameterPacket),
    FfiError,
>)
    ensures
        ({
            let d = spec_decoded_envelope(spec_raw_fields(*raw));
            match r {
                Ok(out) => {
                    &&& d matches Ok(de)
                    &&& out.0@ == de.module
                    &&& out.1@ == de.action
                    &&& out.2.client == client
                    &&& out.2.app_root_dir_key == de.app_root_dir_key
                    &&& out.2.safe_drive_access == de.safe_drive_access
                    &&& out.2.safe_drive_dir_key == de.safe_drive_dir_key
                },
                Err(e) => {
                    &&& d matches Err(kind)
                    &&& spec_envelope_error_matches(kind, e)
                },
            }
        }),
{
    match decode_raw_envelope(raw) {
        Ok((module, action, app_root_dir_key, safe_drive_access, safe_drive_dir_key)) => Ok(
            (
                module,
                action,
                ParameterPacket { client, app_root_dir_key, safe_drive_access, safe_drive_dir_key },
            ),
        ),
        Err(e) => Err(e),
    }
}

/// Decodes the envelope out of the payload text and builds the execution
/// context around the session's connection object.
pub fn get_parameter_packet(client: Client, payload: &str) -> (r: Result<
    (String, String, ParameterPacket),
    FfiError,
>)
    ensures
        ({
            let d = spec_decoded_envelope(spec_envelope_of(payload@));
            match r {
                Ok(out) => {
                    &&& d matches Ok(de)
                    &&& out.0@ == de.module
                    &&& out.1@ == de.action
                    &&& out.2.client == client
                    &&& out.2.app_root_dir_key == de.app_root_dir_key
                    &&& out.2.safe_drive_access == de.safe_drive_access
                    &&& out.2.safe_drive_dir_key == de.safe_drive_dir_key
                },
                Err(e) => {
                    &&& d matches Err(kind)
                    &&& spec_envelope_error_matches(kind, e)
                },
            }
        }),
{
    let raw = read_envelope(payload);
    build_parameter_packet(client, &raw)
}

/// The exact behaviour of routing one request: the `storage` and `dns`
/// families behave as their dispatch predicates state, and an unknown
/// module is refused as not implemented with the context untouched.
pub open spec fn spec_module_dispatch(
    module: Seq<char>,
    action: Seq<char>,
    s: Seq<char>,
    p0: ParameterPacket,
    p1: ParameterPacket,
    r: ResponseType,
) -> bool {
    if module == "storage"@ {
        crate::nfs::spec_storage_dispatch(action, s, p0, p1, r)
    } else if module == "dns"@ {
        crate::dns::spec_dns_dispatch(action, s, p0, p1, r)
    } else {
        p1 == p0 && (r matches Err(e) && (e matches FfiError::Unexpected(m) && m@
            == "not implemented"@))
    }
}

/// Routes a request to its command family, behaving exactly as
/// `spec_module_dispatch` states: `storage` for the directory-tree
/// operations, `dns` for the name-service operations.  An unknown module,
/// or an unknown action inside a known module, is terminal for the request
/// only — the packet, and with it the session, is handed back untouched.
pub fn module_parser(
    module: String,
    action: String,
    parameter_packet: &mut ParameterPacket,
    payload: &str,
) -> (r: ResponseType)
    requires
        old(parameter_packet).client.wf(),
    ensures
        final(parameter_packet).client.wf(),
        final(parameter_packet).app_root_dir_key == old(parameter_packet).app_root_dir_key,
        final(parameter_packet).safe_drive_access == old(parameter_packet).safe_drive_access,
        final(parameter_packet).safe_drive_dir_key == old(parameter_packet).safe_drive_dir_key,
        final(parameter_packet).client.account == old(parameter_packet).client.account,
        final(parameter_packet).client.services@ == old(parameter_packet).client.services@,
        spec_module_dispatch(
            module@,
            action@,
            payload@,
            *old(parameter_packet),
            *final(parameter_packet),
            r,
        ),
{
    let storage = String::from_str("storage");
    let dns_module = String::from_str("dns");
    if module.eq(&storage) {
        nfs::action_dispatcher(&action, parameter_packet, payload)
    } else if module.eq(&dns_module) {
        dns::action_dispatcher(&action, parameter_packet, payload)
    } else {
        Err(FfiError::unexpected("not implemented"))
    }
}

/// What a session handle owns: the connection object and the event relay.
pub struct FfiHandle {
    /// The session's connection object.
    pub client: Client,
    /// The relay bridging connection events to observer callbacks.
    pub bridge: RelayBridge,
}

/// The registry of issued session handles.  A handle is one more than its
/// slot's position; handle 0 is never issued, and a destroyed handle's slot
/// stays empty, so a handle is live exactly between its issue and its
/// destroy call.
pub struct FfiRegistry {
    /// One slot per handle ever issued; `None` once destroyed.
    pub slots: Vec<Option<FfiHandle>>,
}

impl FfiRegistry {
    /// Every live session is well-formed and its relay has not terminated.
    pub open spec fn wf(self) -> bool {
        forall|i: int|
            0 <= i < self.slots@.len() && (#[trigger] self.slots@[i]) is Some ==> {
                &&& self.slots@[i].unwrap().client.wf()
                &&& !(self.slots@[i].unwrap().bridge.state is Terminated)
            }
    }

    /// Whether this handle names a live session.
    pub open spec fn live(self, handle: u64) -> bool {
        1 <= handle <= self.slots@.len() && self.slots@[handle - 1] is Some
    }

    /// What the handle names.
    pub open spec fn handle_at(self, handle: u64) -> FfiHandle {
        self.slots@[handle - 1].unwrap()
    }

    /// A registry with no session.
    pub fn new() -> (r: FfiRegistry)
        ensures
            r.wf(),
            r.slots@.len() == 0,
    {
        FfiRegistry { slots: Vec::new() }
    }
}

/// Issues a fresh opaque handle owning this connection object.
pub fn cast_to_ffi_handle(registry: &mut FfiRegistry, client: Client) -> (handle: u64)
    requires
        old(registry).wf(),
        old(registry).slots@.len() < usize::MAX,
        client.wf(),
    ensures
        final(registry).wf(),
        handle != 0,
        handle == old(registry).slots@.len() + 1,
        !old(registry).live(handle),
        final(registry).live(handle),
        final(registry).handle_at(handle).client == client,
        final(registry).handle_at(handle).bridge.state is NotStarted,
        final(registry).handle_at(handle).bridge.observers@.len() == 0,
        final(registry).slots@.len() == old(registry).slots@.len() + 1,
        forall|i: int|
            0 <= i < old(registry).slots@.len() ==> final(registry).slots@[i] == old(registry).slots@[i],
{
    let handle = FfiHandle { client, bridge: RelayBridge::new() };
    registry.slots.push(Some(handle));
    registry.slots.len() as u64
}

/// Looks the handle up without consuming it, as every non-destroying call
/// does; a handle that is not live — never issued, or already destroyed —
/// is a detectable error.
pub fn cast_from_ffi_handle<'a>(registry: &'a FfiRegistry, handle: u64) -> (r: Result<
    &'a Client,
    FfiError,
>)
    ensures
        match r {
            Ok(c) => registry.live(handle) && *c == registry.handle_at(handle).client,
            Err(e) => !registry.live(handle) && (e matches FfiError::Unexpected(m) && m@
                == "invalid session handle"@),
        },
{
    if handle == 0 || handle > registry.slots.len() as u64 {
        return Err(FfiError::unexpected("invalid session handle"));
    }
    match &registry.slots[(handle - 1) as usize] {
        Some(h) => Ok(&h.client),
        None => Err(FfiError::unexpected("invalid session handle")),
    }
}

/// Creates an unregistered session and writes its handle through
/// `ffi_handle`.  Returns 0.
pub fn create_unregistered_client(registry: &mut FfiRegistry, ffi_handle: &mut u64) -> (r: i32)
    requires
        old(registry).wf(),
        old(registry).slots@.len() < usize::MAX,
    ensures
        final(registry).wf(),
        final(registry).slots@.len() == old(registry).slots@.len() + 1,
        r == 0,
        final(registry).live(*final(ffi_handle)),
        !old(registry).live(*final(ffi_handle)),
        final(registry).handle_at(*final(ffi_handle)).client.account is None,
        final(registry).handle_at(*final(ffi_handle)).bridge.state is NotStarted,
        forall|i: int|
            0 <= i < old(registry).slots@.len() ==> final(registry).slots@[i] == old(registry).slots@[i],
{
    let client = Client::create_unregistered_client();
    *ffi_handle = cast_to_ffi_handle(registry, client);
    0
}

/// Creates a registered session for a new account under the given
/// credentials and writes its handle through `ffi_handle`.  Returns 0.
pub fn create_account(
    keyword: &str,
    pin: &str,
    password: &str,
    registry: &mut FfiRegistry,
    ffi_handle: &mut u64,
) -> (r: i32)
    requires
        old(registry).wf(),
        old(registry).slots@.len() < usize::MAX,
    ensures
        final(registry).wf(),
        final(registry).slots@.len() == old(registry).slots@.len() + 1,
        r == 0,
        final(registry).live(*final(ffi_handle)),
        !old(registry).live(*final(ffi_handle)),
        final(registry).handle_at(*final(ffi_handle)).client.account matches Some(a) && a.keyword@
            == keyword@ && a.pin@ == pin@ && a.password@ == password@,
        final(registry).handle_at(*final(ffi_handle)).bridge.state is NotStarted,
        forall|i: int|
            0 <= i < old(registry).slots@.len() ==> final(registry).slots@[i] == old(registry).slots@[i],
{
    let client = Client::create_account(
        String::from_str(keyword),
        String::from_str(pin),
        String::from_str(password),
    );
    *ffi_handle = cast_to_ffi_handle(registry, client);
    0
}

/// Opens a registered session for an existing account under the given
/// credentials and writes its handle through `ffi_handle`.  Returns 0.
pub fn log_in(
    keyword: &str,
    pin: &str,
    password: &str,
    registry: &mut FfiRegistry,
    ffi_handle: &mut u64,
) -> (r: i32)
    requires
        old(registry).wf(),
        old(registry).slots@.len() < usize::MAX,
    ensures
        final(registry).wf(),
        final(registry).slots@.len() == old(registry).slots@.len() + 1,
        r == 0,
        final(registry).live(*final(ffi_handle)),
        !old(registry).live(*final(ffi_handle)),
        final(registry).handle_at(*final(ffi_handle)).client.account matches Some(a) && a.keyword@
            == keyword@ && a.pin@ == pin@ && a.password@ == password@,
        final(registry).handle_at(*final(ffi_handle)).bridge.state is NotStarted,
        forall|i: int|
            0 <= i < old(registry).slots@.len() ==> final(registry).slots@[i] == old(registry).slots@[i],
{
    let client = Client::log_in(
        String::from_str(keyword),
        String::from_str(pin),
        String::from_str(password),
    );
    *ffi_handle = cast_to_ffi_handle(registry, client);
    0
}

/// Registers an observer callback for connection events; the first
/// registration starts the relay.  Returns 0, or the catch-all error code
/// for a handle that is not live.
pub fn register_network_event_observer(
    registry: &mut FfiRegistry,
    handle: u64,
    callback: u64,
) -> (r: i32)
    requires
        old(registry).wf(),
    ensures
        final(registry).wf(),
        final(registry).slots@.len() == old(registry).slots@.len(),
        forall|h: u64| final(registry).live(h) <==> old(registry).live(h),
        old(registry).live(handle) ==> {
            &&& r == 0
            &&& final(registry).handle_at(handle).bridge.observers@ == old(registry).handle_at(
                handle,
            ).bridge.observers@.push(callback)
            &&& final(registry).handle_at(handle).bridge.state is Running
            &&& final(registry).handle_at(handle).client == old(registry).handle_at(handle).client
            &&& forall|i: int|
                0 <= i < old(registry).slots@.len() && i != handle - 1 ==> final(registry).slots@[i] == old(registry).slots@[i]
        },
        !old(registry).live(handle) ==> r < 0 && final(registry).slots@ == old(registry).slots@,
{
    if handle == 0 || handle > registry.slots.len() as u64 {
        let e = FfiError::unexpected("invalid session handle");
        return e.error_code();
    }
    let idx = (handle - 1) as usize;
    let ghost before = registry.slots@;
    match &mut registry.slots[idx] {
        Some(h) => {
            h.bridge.register(callback);
            proof {
                assert(registry.slots@ =~= before.update(idx as int, registry.slots@[idx as int]));
            }
            0
        },
        None => {
            let e = FfiError::unexpected("invalid session handle");
            e.error_code()
        },
    }
}

/// Feeds one connection event through a session's relay, as the relay
/// worker does for each message it drains, and returns the callback
/// invocations to perform, in registration order.
pub fn deliver_network_event(registry: &mut FfiRegistry, handle: u64, event: &NetworkEvent) -> (r:
    Vec<(u64, i32)>)
    requires
        old(registry).wf(),
        !(*event is Terminated),
    ensures
        final(registry).wf(),
        final(registry).slots@.len() == old(registry).slots@.len(),
        forall|h: u64| final(registry).live(h) <==> old(registry).live(h),
        old(registry).live(handle) ==> {
            &&& final(registry).handle_at(handle).client == old(registry).handle_at(handle).client
            &&& final(registry).handle_at(handle).bridge.state == old(registry).handle_at(
                handle,
            ).bridge.state
            &&& final(registry).handle_at(handle).bridge.observers@ == old(registry).handle_at(
                handle,
            ).bridge.observers@
            &&& r@.len() == crate::relay::spec_invocations(
                old(registry).handle_at(handle).bridge,
                *event,
            ).len()
            &&& forall|i: int|
                0 <= i < r@.len() ==> (#[trigger] r@[i]).0 == crate::relay::spec_invocations(
                    old(registry).handle_at(handle).bridge,
                    *event,
                )[i].0 && r@[i].1 as int == crate::relay::spec_invocations(
                    old(registry).handle_at(handle).bridge,
                    *event,
                )[i].1
            &&& forall|i: int|
                0 <= i < old(registry).slots@.len() && i != handle - 1 ==> final(registry).slots@[i] == old(registry).slots@[i]
        },
        !old(registry).live(handle) ==> r@.len() == 0 && final(registry).slots@ == old(registry).slots@,
{
    if handle == 0 || handle > registry.slots.len() as u64 {
        return Vec::new();
    }
    let idx = (handle - 1) as usize;
    let ghost before = registry.slots@;
    match &mut registry.slots[idx] {
        Some(h) => {
            let ghost old_h = *h;
            let out = h.bridge.on_message(event);
            proof {
                assert(h.bridge.state == old_h.bridge.state);
                assert(h.bridge.observers@ == old_h.bridge.observers@);
                assert(registry.slots@ =~= before.update(idx as int, registry.slots@[idx as int]));
            }
            out
        },
        None => Vec::new(),
    }
}

/// Destroys a session handle: signals the relay to stop, then reclaims the
/// session.  Destroying a handle twice, or one never issued, is a
/// detectable error and changes nothing.
pub fn drop_client(registry: &mut FfiRegistry, client_handle: u64) -> (r: Result<(), FfiError>)
    requires
        old(registry).wf(),
    ensures
        final(registry).wf(),
        match r {
            Ok(()) => {
                &&& old(registry).live(client_handle)
                &&& !final(registry).live(client_handle)
                &&& final(registry).slots@ == old(registry).slots@.update(
                    client_handle - 1,
                    None::<FfiHandle>,
                )
            },
            Err(e) => {
                &&& !old(registry).live(client_handle)
                &&& final(registry).slots@ == old(registry).slots@
                &&& e matches FfiError::Unexpected(m) && m@ == "invalid session handle"@
            },
        },
{
    if client_handle == 0 || client_handle > registry.slots.len() as u64 {
        return Err(FfiError::unexpected("invalid session handle"));
    }
    let idx = (client_handle - 1) as usize;
    let ghost before = registry.slots@;
    let slot = &mut registry.slots[idx];
    match slot.take() {
        Some(mut handle) => {
            handle.bridge.terminate();
            proof {
                assert(registry.slots@ =~= before.update(
                    client_handle - 1,
                    None::<FfiHandle>,
                ));
            }
            Ok(())
        },
        None => {
            proof {
                assert(registry.slots@ =~= before);
            }
            Err(FfiError::unexpected("invalid session handle"))
        },
    }
}

/// How the session behind a live handle relates across one dispatch: the
/// relay is untouched, the account and the name-service records keep
/// their content, and every other session is untouched.
pub open spec fn spec_dispatch_session_kept(
    before: FfiRegistry,
    after: FfiRegistry,
    handle: u64,
) -> bool {
    &&& after.handle_at(handle).bridge == before.handle_at(handle).bridge
    &&& after.handle_at(handle).client.account == before.handle_at(handle).client.account
    &&& after.handle_at(handle).client.services@ == before.handle_at(handle).client.services@
    &&& forall|i: int|
        0 <= i < before.slots@.len() && i != handle - 1 ==> after.slots@[i] == before.slots@[i]
}

/// The execution context a decoded envelope builds around a connection
/// object.
pub open spec fn spec_context_of(c: Client, d: DecodedEnvelope) -> ParameterPacket {
    ParameterPacket {
        client: c,
        app_root_dir_key: d.app_root_dir_key,
        safe_drive_access: d.safe_drive_access,
        safe_drive_dir_key: d.safe_drive_dir_key,
    }
}

/// What one dispatch of a parsing payload does to the session and what it
/// answers: either the envelope refuses the request — with the refusal's
/// code — and the session is untouched, or the resolved module acts as
/// `spec_module_dispatch` states and the status is 0 exactly on success,
/// the operation's own code otherwise.
pub open spec fn spec_execute_outcome(
    s: Seq<char>,
    old_c: Client,
    new_c: Client,
    status: int,
) -> bool {
    match spec_decoded_envelope(spec_envelope_of(s)) {
        Err(k) => status == spec_envelope_error_code(k) && new_c == old_c,
        Ok(d) => exists|resp: ResponseType|
            {
                &&& #[trigger] spec_module_dispatch(
                    d.module,
                    d.action,
                    s,
                    spec_context_of(old_c, d),
                    spec_context_of(new_c, d),
                    resp,
                )
                &&& (resp matches Ok(_) ==> status == 0)
                &&& (resp matches Err(e) ==> status == e.spec_error_code())
            },
    }
}

/// Dispatches a request envelope against a session and returns only a
/// status code: 0 for success, a negative unified-error code otherwise.  A
/// payload that does not parse, and a handle that is not live, are
/// terminal for the request only; for everything else the status and the
/// session's new state are exactly what `spec_execute_outcome` states.
pub fn execute(c_payload: &str, registry: &mut FfiRegistry, ffi_handle: u64) -> (r: i32)
    requires
        old(registry).wf(),
    ensures
        final(registry).wf(),
        final(registry).slots@.len() == old(registry).slots@.len(),
        forall|h: u64| final(registry).live(h) <==> old(registry).live(h),
        r == 0 || r < 0,
        !crate::json_support::json_parses(c_payload@) ==> r == crate::errors::FFI_ERROR_START_RANGE
            - 3 && final(registry).slots@ == old(registry).slots@,
        !old(registry).live(ffi_handle) ==> r < 0 && final(registry).slots@ == old(
            registry,
        ).slots@,
        old(registry).live(ffi_handle) ==> {
            &&& spec_dispatch_session_kept(*old(registry), *final(registry), ffi_handle)
            &&& (crate::json_support::json_parses(c_payload@) ==> spec_execute_outcome(
                c_payload@,
                old(registry).handle_at(ffi_handle).client,
                final(registry).handle_at(ffi_handle).client,
                r as int,
            ))
        },
{
    if json_parse(c_payload).is_none() {
        let e = FfiError::unexpected("JSON parse error");
        return e.error_code();
    }
    if ffi_handle == 0 || ffi_handle > registry.slots.len() as u64 {
        let e = FfiError::unexpected("invalid session handle");
        return e.error_code();
    }
    let idx = (ffi_handle - 1) as usize;
    let ghost before = registry.slots@;
    let slot = &mut registry.slots[idx];
    match slot.take() {
        Some(handle) => {
            let FfiHandle { client, bridge } = handle;
            let ghost old_client = client;
            let (status, new_client): (i32, Client) = match decode_envelope(c_payload) {
                Ok((module, action, app_root_dir_key, safe_drive_access, safe_drive_dir_key)) => {
                    let mut packet = ParameterPacket {
                        client,
                        app_root_dir_key,
                        safe_drive_access,
                        safe_drive_dir_key,
                    };
                    let ghost p0 = packet;
                    let outcome = module_parser(module, action, &mut packet, c_payload);
                    let ghost g_outcome = outcome;
                    let st: i32 = match outcome {
                        Ok(_) => 0,
                        Err(e) => e.error_code(),
                    };
                    proof {
                        let d = spec_decoded_envelope(spec_envelope_of(c_payload@)).unwrap();
                        assert(p0 == spec_context_of(old_client, d));
                        assert(packet == spec_context_of(packet.client, d));
                        assert(spec_module_dispatch(
                            d.module,
                            d.action,
                            c_payload@,
                            spec_context_of(old_client, d),
                            spec_context_of(packet.client, d),
                            g_outcome,
                        ));
                    }
                    (st, packet.client)
                },
                Err(e) => (e.error_code(), client),
            };
            *slot = Some(FfiHandle { client: new_client, bridge });
            proof {
                assert(registry.slots@ =~= before.update(idx as int, registry.slots@[idx as int]));
            }
            status
        },
        None => {
            proof {
                assert(registry.slots@ =~= before);
            }
            let e = FfiError::unexpected("invalid session handle");
            e.error_code()
        },
    }
}

/// Dispatches a request envelope against a session and hands the
/// operation's payload back as a boundary-owned buffer: on success the
/// returned token is not null, the escrowed bytes are exactly the UTF-8
/// bytes of the operation's response — none for an operation without a
/// payload, with length and capacity 0 — the buffer's length and capacity
/// stand in `c_size` and `c_capacity`, `c_result` holds 0, and the caller
/// owes one matching `drop_vector` call.  On failure the token is null
/// (0), the escrow and the size out-parameters are untouched and
/// `c_result` holds the negative error code that `spec_execute_outcome`
/// fixes.
pub fn execute_for_content(
    c_payload: &str,
    escrow: &mut BufferEscrow,
    c_size: &mut usize,
    c_capacity: &mut usize,
    c_result: &mut i32,
    registry: &mut FfiRegistry,
    ffi_handle: u64,
) -> (r: u64)
    requires
        old(registry).wf(),
        old(escrow).slots@.len() < usize::MAX,
    ensures
        final(registry).wf(),
        final(registry).slots@.len() == old(registry).slots@.len(),
        forall|h: u64| final(registry).live(h) <==> old(registry).live(h),
        old(registry).live(ffi_handle) ==> spec_dispatch_session_kept(
            *old(registry),
            *final(registry),
            ffi_handle,
        ),
        !old(registry).live(ffi_handle) ==> r == 0 && final(registry).slots@ == old(
            registry,
        ).slots@,
        r == 0 ==> {
            &&& *final(escrow) == *old(escrow)
            &&& *final(c_result) < 0
            &&& *final(c_size) == *old(c_size)
            &&& *final(c_capacity) == *old(c_capacity)
        },
        r != 0 ==> {
            &&& *final(c_result) == 0
            &&& r == old(escrow).slots@.len() + 1
            &&& !crate::buffer::spec_is_live(*old(escrow), r)
            &&& crate::buffer::spec_is_live(*final(escrow), r)
            &&& crate::buffer::spec_release_ok(*final(escrow), r, *final(c_size), *final(c_capacity))
            &&& *final(c_capacity) >= *final(c_size)
            &&& final(escrow).slots@[r - 1].unwrap().data@.len() == *final(c_size)
            &&& forall|i: int|
                0 <= i < old(escrow).slots@.len() ==> final(escrow).slots@[i] == old(
                    escrow,
                ).slots@[i]
        },
        !crate::json_support::json_parses(c_payload@) ==> r == 0 && *final(c_result)
            == crate::errors::FFI_ERROR_START_RANGE - 3 && final(registry).slots@ == old(
            registry,
        ).slots@,
        old(registry).live(ffi_handle) && crate::json_support::json_parses(c_payload@) ==> {
            let old_c = old(registry).handle_at(ffi_handle).client;
            let new_c = final(registry).handle_at(ffi_handle).client;
            match spec_decoded_envelope(spec_envelope_of(c_payload@)) {
                Err(k) => r == 0 && *final(c_result) == spec_envelope_error_code(k) && new_c
                    == old_c,
                Ok(d) => exists|resp: ResponseType|
                    {
                        &&& #[trigger] spec_module_dispatch(
                            d.module,
                            d.action,
                            c_payload@,
                            spec_context_of(old_c, d),
                            spec_context_of(new_c, d),
                            resp,
                        )
                        &&& match resp {
                            Ok(p) => {
                                &&& r != 0
                                &&& final(escrow).slots@[r - 1].unwrap().data@ == (match p {
                                    Some(text) => vstd::utf8::encode_utf8(text@),
                                    None => Seq::<u8>::empty(),
                                })
                                &&& (p is None ==> *final(c_size) == 0 && *final(c_capacity) == 0)
                            },
                            Err(e) => r == 0 && *final(c_result) == e.spec_error_code(),
                        }
                    },
            }
        },
{
    if json_parse(c_payload).is_none() {
        let e = FfiError::unexpected("JSON parse error");
        *c_result = e.error_code();
        return 0;
    }
    if ffi_handle == 0 || ffi_handle > registry.slots.len() as u64 {
        let e = FfiError::unexpected("invalid session handle");
        *c_result = e.error_code();
        return 0;
    }
    let idx = (ffi_handle - 1) as usize;
    let ghost before = registry.slots@;
    let slot = &mut registry.slots[idx];
    match slot.take() {
        Some(handle) => {
            let FfiHandle { client, bridge } = handle;
            let ghost old_client = client;
            let (outcome, new_client): (ResponseType, Client) = match decode_envelope(c_payload) {
                Ok((module, action, app_root_dir_key, safe_drive_access, safe_drive_dir_key)) => {
                    let mut packet = ParameterPacket {
                        client,
                        app_root_dir_key,
                        safe_drive_access,
                        safe_drive_dir_key,
                    };
                    let ghost p0 = packet;
                    let out = module_parser(module, action, &mut packet, c_payload);
                    proof {
                        let d = spec_decoded_envelope(spec_envelope_of(c_payload@)).unwrap();
                        assert(p0 == spec_context_of(old_client, d));
                        assert(packet == spec_context_of(packet.client, d));
                        assert(spec_module_dispatch(
                            d.module,
                            d.action,
                            c_payload@,
                            spec_context_of(old_client, d),
                            spec_context_of(packet.client, d),
                            out,
                        ));
                    }
                    (out, packet.client)
                },
                Err(e) => (Err(e), client),
            };
            let ghost g_outcome = outcome;
            *slot = Some(FfiHandle { client: new_client, bridge });
            proof {
                assert(registry.slots@ =~= before.update(idx as int, registry.slots@[idx as int]));
            }
            match outcome {
                Ok(response) => {
                    let (data, capacity): (Vec<u8>, usize) = match response {
                        Some(text) => {
                            let bytes = text.as_str().as_bytes_vec();
                            let cap = crate::buffer::vec_capacity(&bytes);
                            (bytes, cap)
                        },
                        None => (Vec::new(), 0),
                    };
                    let (token, size, cap) = escrow.hand_out(data, capacity);
                    *c_size = size;
                    *c_capacity = cap;
                    *c_result = 0;
                    token
                },
                Err(e) => {
                    *c_result = e.error_code();
                    proof {
                        crate::errors::lemma_error_ranges_disjoint(
                            crate::errors::CoreError::OperationAborted,
                            crate::errors::NfsError::FileNotFound,
                            crate::errors::DnsError::ServiceNotFound,
                            e,
                        );
                    }
                    0
                },
            }
        },
        None => {
            proof {
                assert(registry.slots@ =~= before);
            }
            let e = FfiError::unexpected("invalid session handle");
            *c_result = e.error_code();
            0
        },
    }
}

/// Releases the boundary-owned buffer a result call handed out, given back
/// the same token, length and capacity.  Returns 0, or the catch-all error
/// code for a triple that names no outstanding buffer — in particular for a
/// second release.
pub fn drop_vector(escrow: &mut BufferEscrow, ptr: u64, size: usize, capacity: usize) -> (r: i32)
    ensures
        crate::buffer::spec_release_ok(*old(escrow), ptr, size, capacity) ==> r == 0
            && crate::buffer::spec_released(*old(escrow), *final(escrow), ptr),
        !crate::buffer::spec_release_ok(*old(escrow), ptr, size, capacity) ==> r
            == crate::errors::FFI_ERROR_START_RANGE - 3 && *final(escrow) == *old(escrow),
{
    match escrow.release(ptr, size, capacity) {
        Ok(()) => 0,
        Err(e) => e.error_code(),
    }
}

/// Hands the serialised key of a root-level directory found or created
/// under `name` out through the escrow, with its length and capacity in
/// the out-parameters.
fn serve_root_child_key(
    name: &String,
    escrow: &mut BufferEscrow,
    c_size: &mut usize,
    c_capacity: &mut usize,
    c_result: &mut i32,
    registry: &mut FfiRegistry,
    ffi_handle: u64,
) -> (r: u64)
    requires
        old(registry).wf(),
        old(escrow).slots@.len() < usize::MAX,
    ensures
        final(registry).wf(),
        final(registry).slots@.len() == old(registry).slots@.len(),
        forall|h: u64| final(registry).live(h) <==> old(registry).live(h),
        !old(registry).live(ffi_handle) ==> r == 0 && *final(c_result) < 0 && *final(escrow)
            == *old(escrow) && *final(c_size) == *old(c_size) && *final(c_capacity) == *old(
            c_capacity,
        ) && final(registry).slots@ == old(registry).slots@,
        old(registry).live(ffi_handle) ==> {
            &&& spec_dispatch_session_kept(*old(registry), *final(registry), ffi_handle)
            &&& r != 0
            &&& r == old(escrow).slots@.len() + 1
            &&& !crate::buffer::spec_is_live(*old(escrow), r)
            &&& crate::buffer::spec_is_live(*final(escrow), r)
            &&& final(escrow).slots@.len() == old(escrow).slots@.len() + 1
            &&& forall|i: int|
                0 <= i < old(escrow).slots@.len() ==> final(escrow).slots@[i] == old(
                    escrow,
                ).slots@[i]
            &&& *final(c_result) == 0
            &&& crate::buffer::spec_release_ok(*final(escrow), r, *final(c_size), *final(c_capacity))
            &&& *final(c_capacity) >= *final(c_size)
            &&& {
                let entries = final(registry).handle_at(
                    ffi_handle,
                ).client.store.dirs@[0].sub_directories@;
                let f = crate::nfs::first_sub_dir_from(entries, name@, 0);
                &&& 0 <= f < entries.len()
                &&& entries[f].name@ == name@
                &&& final(escrow).slots@[r - 1].unwrap().data@
                    == crate::serialisation::spec_serialised_key(entries[f].key)
                &&& *final(c_size) == crate::serialisation::spec_serialised_key(
                    entries[f].key,
                ).len()
            }
        },
{
    if ffi_handle == 0 || ffi_handle > registry.slots.len() as u64 {
        let e = FfiError::unexpected("invalid session handle");
        *c_result = e.error_code();
        return 0;
    }
    let idx = (ffi_handle - 1) as usize;
    let ghost before = registry.slots@;
    match &mut registry.slots[idx] {
        Some(h) => {
            let ghost entries0 = h.client.store.dirs@[0].sub_directories@;
            let key = match crate::helper::find_or_create_root_child(&mut h.client, name) {
                Ok(k) => k,
                Err(e) => {
                    *c_result = e.error_code();
                    return 0;
                },
            };
            proof {
                assert(registry.slots@ =~= before.update(idx as int, registry.slots@[idx as int]));
                let entries = h.client.store.dirs@[0].sub_directories@;
                if entries0.len() == entries.len() {
                } else {
                    assert(forall|j: int|
                        0 <= j < entries0.len() ==> (#[trigger] entries0[j]).name@ != name@);
                    assert(forall|j: int|
                        0 <= j < entries0.len() ==> entries[j] == entries0[j]);
                    assert(entries =~= entries0.push(entries.last()));
                    crate::nfs::lemma_first_sub_dir_push(entries0, entries.last(), name@, 0);
                }
            }
            let serialised_data = crate::serialisation::serialise_directory_key(&key);
            let capacity = crate::buffer::vec_capacity(&serialised_data);
            let (token, size, cap) = escrow.hand_out(serialised_data, capacity);
            *c_size = size;
            *c_capacity = cap;
            *c_result = 0;
            token
        },
        None => {
            proof {
                assert(registry.slots@ =~= before);
            }
            let e = FfiError::unexpected("invalid session handle");
            *c_result = e.error_code();
            0
        },
    }
}

/// Returns the serialised key of the application's root directory — the
/// root-level directory named after the application, created on first use —
/// as a boundary-owned buffer, with its length and capacity in the
/// out-parameters and 0 in `c_result`; the caller owes one matching
/// `drop_vector` call.  The identifier and vendor take no part in where
/// the directory lives.
pub fn get_app_dir_key(
    c_app_name: &str,
    c_app_id: &str,
    c_vendor: &str,
    escrow: &mut BufferEscrow,
    c_size: &mut usize,
    c_capacity: &mut usize,
    c_result: &mut i32,
    registry: &mut FfiRegistry,
    ffi_handle: u64,
) -> (r: u64)
    requires
        old(registry).wf(),
        old(escrow).slots@.len() < usize::MAX,
    ensures
        final(registry).wf(),
        final(registry).slots@.len() == old(registry).slots@.len(),
        forall|h: u64| final(registry).live(h) <==> old(registry).live(h),
        !old(registry).live(ffi_handle) ==> {
            &&& r == 0
            &&& *final(c_result) < 0
            &&& *final(escrow) == *old(escrow)
            &&& *final(c_size) == *old(c_size)
            &&& *final(c_capacity) == *old(c_capacity)
            &&& final(registry).slots@ == old(registry).slots@
        },
        old(registry).live(ffi_handle) ==> {
            &&& spec_dispatch_session_kept(*old(registry), *final(registry), ffi_handle)
            &&& r != 0
            &&& r == old(escrow).slots@.len() + 1
            &&& !crate::buffer::spec_is_live(*old(escrow), r)
            &&& crate::buffer::spec_is_live(*final(escrow), r)
            &&& final(escrow).slots@.len() == old(escrow).slots@.len() + 1
            &&& forall|i: int|
                0 <= i < old(escrow).slots@.len() ==> final(escrow).slots@[i] == old(
                    escrow,
                ).slots@[i]
            &&& *final(c_result) == 0
            &&& crate::buffer::spec_release_ok(*final(escrow), r, *final(c_size), *final(c_capacity))
            &&& *final(c_capacity) >= *final(c_size)
            &&& {
                let entries = final(registry).handle_at(
                    ffi_handle,
                ).client.store.dirs@[0].sub_directories@;
                let f = crate::nfs::first_sub_dir_from(entries, c_app_name@, 0);
                &&& 0 <= f < entries.len()
                &&& entries[f].name@ == c_app_name@
                &&& final(escrow).slots@[r - 1].unwrap().data@
                    == crate::serialisation::spec_serialised_key(entries[f].key)
                &&& *final(c_size) == crate::serialisation::spec_serialised_key(
                    entries[f].key,
                ).len()
            }
        },
{
    let _ = c_app_id;
    let _ = c_vendor;
    let app_name = String::from_str(c_app_name);
    serve_root_child_key(&app_name, escrow, c_size, c_capacity, c_result, registry, ffi_handle)
}

/// Returns the serialised key of the shared drive directory — the
/// root-level directory named `SAFEDrive`, created on first use — as a
/// boundary-owned buffer, with its length and capacity in the
/// out-parameters and 0 in `c_result`; the caller owes one matching
/// `drop_vector` call.
pub fn get_safe_drive_key(
    escrow: &mut BufferEscrow,
    c_size: &mut usize,
    c_capacity: &mut usize,
    c_result: &mut i32,
    registry: &mut FfiRegistry,
    ffi_handle: u64,
) -> (r: u64)
    requires
        old(registry).wf(),
        old(escrow).slots@.len() < usize::MAX,
    ensures
        final(registry).wf(),
        final(registry).slots@.len() == old(registry).slots@.len(),
        forall|h: u64| final(registry).live(h) <==> old(registry).live(h),
        !old(registry).live(ffi_handle) ==> {
            &&& r == 0
            &&& *final(c_result) < 0
            &&& *final(escrow) == *old(escrow)
            &&& *final(c_size) == *old(c_size)
            &&& *final(c_capacity) == *old(c_capacity)
            &&& final(registry).slots@ == old(registry).slots@
        },
        old(registry).live(ffi_handle) ==> {
            &&& spec_dispatch_session_kept(*old(registry), *final(registry), ffi_handle)
            &&& r != 0
            &&& r == old(escrow).slots@.len() + 1
            &&& !crate::buffer::spec_is_live(*old(escrow), r)
            &&& crate::buffer::spec_is_live(*final(escrow), r)
            &&& final(escrow).slots@.len() == old(escrow).slots@.len() + 1
            &&& forall|i: int|
                0 <= i < old(escrow).slots@.len() ==> final(escrow).slots@[i] == old(
                    escrow,
                ).slots@[i]
            &&& *final(c_result) == 0
            &&& crate::buffer::spec_release_ok(*final(escrow), r, *final(c_size), *final(c_capacity))
            &&& *final(c_capacity) >= *final(c_size)
            &&& {
                let entries = final(registry).handle_at(
                    ffi_handle,
                ).client.store.dirs@[0].sub_directories@;
                let f = crate::nfs::first_sub_dir_from(entries, "SAFEDrive"@, 0);
                &&& 0 <= f < entries.len()
                &&& entries[f].name@ == "SAFEDrive"@
                &&& final(escrow).slots@[r - 1].unwrap().data@
                    == crate::serialisation::spec_serialised_key(entries[f].key)
                &&& *final(c_size) == crate::serialisation::spec_serialised_key(
                    entries[f].key,
                ).len()
            }
        },
{
    let name = String::from_str("SAFEDrive");
    serve_root_child_key(&name, escrow, c_size, c_capacity, c_result, registry, ffi_handle)
}

} // verus!
