//! Lifecycle of the engine's context and session resources.
//!
//! The engine itself is reached over a foreign-function boundary by the
//! caller; this module holds every decision around those calls. Creation is
//! split in two: a pure preparation step that resolves and encodes addresses
//! (and fails before the engine is ever involved), and a completion step
//! that turns the engine's reply — did it hand back a resource or not — into
//! a typed result. Release is tracked so that the underlying resource is
//! freed exactly once.
use vstd::prelude::*;

use crate::addr::HostAddress;
use crate::addr::ResolutionError;
use crate::addr::WireAddress;
use crate::addr::encode;
use crate::addr::encode_spec;
use crate::addr::resolve_first;

verus! {

/// Caller-supplied application data held by a context. The tag is checked at
/// read time, so a value can never be reinterpreted as another type.
#[derive(Debug, Clone, PartialEq, Eq)]
pub enum AppData {
    Int(i64),
    Text(String),
    Bytes(Vec<u8>),
}

/// Why a context could not be created.
#[derive(Debug, PartialEq, Eq)]
pub enum ContextError {
    /// The bind input resolved to no address; no engine call was made.
    Resolution(ResolutionError),
    /// The engine returned no handle (bind failure, resource exhaustion).
    CreationFailed,
}

/// Why a session could not be created.
#[derive(Debug, PartialEq, Eq)]
pub enum SessionError {
    /// The peer input resolved to no address; no engine call was made.
    Resolution(ResolutionError),
    /// The engine returned no handle.
    CreationFailed,
}

/// Transport mode of a session.
#[derive(Clone, Copy, Debug, PartialEq, Eq)]
pub enum CoapProto {
    UDP,
    DTLS,
    TCP,
    TLS,
}

impl CoapProto {
    /// The engine's numeric tag for this transport mode.
    pub open spec fn tag_spec(self) -> u8 {
        match self {
            CoapProto::UDP => 1,
            CoapProto::DTLS => 2,
            CoapProto::TCP => 3,
            CoapProto::TLS => 4,
        }
    }

    /// Numeric transport-mode tag handed to the engine's session constructor.
    pub fn tag(&self) -> (r: u8)
        ensures
            r == self.tag_spec(),
    {
        match self {
            CoapProto::UDP => 1,
            CoapProto::DTLS => 2,
            CoapProto::TCP => 3,
            CoapProto::TLS => 4,
        }
    }
}

/// The state this layer keeps for one engine context resource: the
/// application data it co-owns and whether the resource was already
/// released. The raw handle stays with the caller making the native calls.
pub struct CoapContext {
    app_data: Option<AppData>,
    released: bool,
}

impl CoapContext {
    /// The application data the context currently holds.
    pub closed spec fn spec_app_data(&self) -> Option<AppData> {
        self.app_data
    }

    /// Whether the underlying resource was already released.
    pub closed spec fn spec_released(&self) -> bool {
        self.released
    }

    /// Prepares a creation call: encodes the bind address when one is given.
    /// `candidates` are what name resolution returned for the `bind` input;
    /// an empty list is reported as a resolution failure here, before any
    /// engine call. `None` asks for an unbound context and needs no
    /// candidates.
    pub fn create_request(bind: Option<&str>, candidates: &Vec<HostAddress>) -> (r: Result<
        Option<WireAddress>,
        ContextError,
    >)
        ensures
            bind is None ==> r == Ok::<Option<WireAddress>, ContextError>(None),
            (bind is Some && candidates@.len() > 0) ==> r == Ok::<Option<WireAddress>, ContextError>(
                Some(encode_spec(candidates@[0])),
            ),
            (bind is Some && candidates@.len() == 0) ==> (r matches Err(
                ContextError::Resolution(e),
            ) && e.input@ == bind->0@),
    {
        match bind {
            None => Ok(None),
            Some(input) => match resolve_first(input, candidates) {
                Ok(host) => Ok(Some(encode(&host))),
                Err(e) => Err(ContextError::Resolution(e)),
            },
        }
    }

    /// Completes a creation call from the engine's reply: a handle makes a
    /// fresh context (no application data, not released); no handle is a
    /// creation failure.
    pub fn new(engine_returned_handle: bool) -> (r: Result<CoapContext, ContextError>)
        ensures
            match r {
                Ok(c) => engine_returned_handle && c.spec_app_data() is None
                    && !c.spec_released(),
                Err(e) => !engine_returned_handle && e == ContextError::CreationFailed,
            },
    {
        if engine_returned_handle {
            Ok(CoapContext { app_data: None, released: false })
        } else {
            Err(ContextError::CreationFailed)
        }
    }

    /// Stores application data in the context. The context owns the value,
    /// so it lives exactly as long as the context can hand it out: no caller
    /// can drop it early.
    pub fn set_app_data(&mut self, data: AppData)
        ensures
            final(self).spec_app_data() == Some(data),
            final(self).spec_released() == old(self).spec_released(),
    {
        self.app_data = Some(data);
    }

    /// Reads the stored application data back, or `None` if nothing was
    /// stored. The returned value is the one stored, tag included.
    pub fn get_app_data(&self) -> (r: Option<&AppData>)
        ensures
            match r {
                Some(d) => self.spec_app_data() == Some(*d),
                None => self.spec_app_data() is None,
            },
    {
        match &self.app_data {
            Some(d) => Some(d),
            None => None,
        }
    }

    /// Whether the underlying resource was already released.
    pub fn is_released(&self) -> (r: bool)
        ensures
            r == self.spec_released(),
    {
        self.released
    }

    /// Marks the underlying resource released and says whether the caller
    /// must now perform the engine's free call: only on the first release,
    /// so the resource is freed exactly once and a second release is a
    /// no-op, never a double free.
    pub fn release(&mut self) -> (perform_free: bool)
        ensures
            final(self).spec_released(),
            perform_free == !old(self).spec_released(),
            final(self).spec_app_data() == old(self).spec_app_data(),
    {
        let first = !self.released;
        self.released = true;
        first
    }
}

/// Pre-shared-key credentials, consumed at session creation and not
/// retained afterwards. The key is arbitrary bytes, passed to the engine
/// with an explicit length, so it may contain zero bytes; the identity
/// travels as a C string and so must not.
pub struct Credentials {
    pub identity: String,
    pub key: Vec<u8>,
}

impl Credentials {
    /// The identity can be handed to the engine as a C string: no interior
    /// zero byte.
    pub open spec fn identity_wf(&self) -> bool {
        forall|i: int| 0 <= i < self.identity@.len() ==> self.identity@[i] != '\0'
    }
}

/// Everything a session-creation call hands the engine besides the context
/// handle: the encoded peer address and the transport mode. The local
/// interface hint is always left unspecified.
#[derive(Debug, PartialEq, Eq)]
pub struct SessionRequest {
    pub peer: WireAddress,
    pub proto: CoapProto,
}

/// The state this layer keeps for one engine session resource. The raw
/// handle stays with the caller making the native calls.
pub struct CoapSession {
    proto: CoapProto,
    psk: bool,
    released: bool,
}

impl CoapSession {
    /// The transport mode the session was created with.
    pub closed spec fn spec_proto(&self) -> CoapProto {
        self.proto
    }

    /// Whether the session was created with pre-shared-key credentials.
    pub closed spec fn spec_psk(&self) -> bool {
        self.psk
    }

    /// Whether the underlying resource was already released.
    pub closed spec fn spec_released(&self) -> bool {
        self.released
    }

    /// Prepares a session-creation call: picks the first candidate that name
    /// resolution returned for the `peer` input and encodes it. An empty
    /// candidate list is a resolution failure — never a creation failure —
    /// and no engine call is made for it.
    pub fn request(peer: &str, candidates: &Vec<HostAddress>, proto: CoapProto) -> (r: Result<
        SessionRequest,
        SessionError,
    >)
        ensures
            candidates@.len() > 0 ==> r == Ok::<SessionRequest, SessionError>(
                SessionRequest { peer: encode_spec(candidates@[0]), proto },
            ),
            candidates@.len() == 0 ==> (r matches Err(SessionError::Resolution(e)) && e.input@
                == peer@),
    {
        match resolve_first(peer, candidates) {
            Ok(host) => Ok(SessionRequest { peer: encode(&host), proto }),
            Err(e) => Err(SessionError::Resolution(e)),
        }
    }

    /// Completes a plain session-creation call from the engine's reply. The
    /// parent context must still be live: a session never outlives its
    /// context.
    pub fn new(context: &CoapContext, request: &SessionRequest, engine_returned_handle: bool) -> (r:
        Result<CoapSession, SessionError>)
        requires
            !context.spec_released(),
        ensures
            match r {
                Ok(s) => engine_returned_handle && s.spec_proto() == request.proto
                    && !s.spec_psk() && !s.spec_released(),
                Err(e) => !engine_returned_handle && e == SessionError::CreationFailed,
            },
    {
        if engine_returned_handle {
            Ok(CoapSession { proto: request.proto, psk: false, released: false })
        } else {
            Err(SessionError::CreationFailed)
        }
    }

    /// Completes a pre-shared-key session-creation call from the engine's
    /// reply. The credentials are consumed here and not retained; their
    /// identity must be expressible as a C string.
    pub fn new_psk(
        context: &CoapContext,
        request: &SessionRequest,
        credentials: Credentials,
        engine_returned_handle: bool,
    ) -> (r: Result<CoapSession, SessionError>)
        requires
            !context.spec_released(),
            credentials.identity_wf(),
        ensures
            match r {
                Ok(s) => engine_returned_handle && s.spec_proto() == request.proto && s.spec_psk()
                    && !s.spec_released(),
                Err(e) => !engine_returned_handle && e == SessionError::CreationFailed,
            },
    {
        if engine_returned_handle {
            Ok(CoapSession { proto: request.proto, psk: true, released: false })
        } else {
            Err(SessionError::CreationFailed)
        }
    }

    /// Whether the underlying resource was already released.
    pub fn is_released(&self) -> (r: bool)
        ensures
            r == self.spec_released(),
    {
        self.released
    }

    /// Marks the underlying resource released and says whether the caller
    /// must now perform the engine's release call: only on the first
    /// release, so the resource is released exactly once and a second
    /// release is a no-op, never a double free.
    pub fn release(&mut self) -> (perform_release: bool)
        ensures
            final(self).spec_released(),
            perform_release == !old(self).spec_released(),
            final(self).spec_proto() == old(self).spec_proto(),
            final(self).spec_psk() == old(self).spec_psk(),
    {
        let first = !self.released;
        self.released = true;
        first
    }
}

} // verus!
