//! Decision logic of the session service: the control plane.
//!
//! All errors here surface as transport-level status codes, never as
//! GQLSTATUS payloads. The backend calls happen outside; these functions
//! make every decision before and after them, including the cascading
//! cleanup when registration fails after the backend already opened a
//! session.

use vstd::prelude::*;

use crate::backend::{ResetTarget, SessionConfig, SessionHandle, SessionProperty};
use crate::error::{TransportCode, TransportStatus};
use crate::gql_service::validate_session;
use crate::messages::{
    ConfigureProperty, ConfigureRequest, HandshakeRequest, HandshakeResponse, ResetRequest,
    ServerInfo,
};
use crate::registry::{spec_has_key, spec_lookup};
use crate::session_manager::{
    spec_property_applied, spec_reset_applied, SessionManager, SessionState,
};
use crate::transaction_manager::{spec_session_active, TransactionManager};
use crate::value::Value;

verus! {

broadcast use vstd::std_specs::vec::group_vec_axioms;

/// The server name announced in the handshake response.
pub const SERVER_NAME: &'static str = "gql-wire-protocol";

/// The server version announced in the handshake response.
pub const SERVER_VERSION: &'static str = "0.1.0";

/// Check the handshake's credential presence: when an auth hook is
/// configured, credentials must be present.
pub fn handshake_check_credentials(auth_configured: bool, req: &HandshakeRequest) -> (r: Result<
    (),
    TransportStatus,
>)
    ensures
        match r {
            Ok(()) => !auth_configured || req.credentials is Some,
            Err(t) => auth_configured && req.credentials is None && t.code
                == TransportCode::Unauthenticated && t.message@ == "credentials required"@,
        },
{
    if auth_configured {
        match &req.credentials {
            Some(c) => Ok(()),
            None => Err(
                TransportStatus {
                    code: TransportCode::Unauthenticated,
                    message: "credentials required".to_owned(),
                },
            ),
        }
    } else {
        Ok(())
    }
}

/// The status returned when the auth hook rejects the credentials.
pub fn auth_rejected_status() -> (r: TransportStatus)
    ensures
        r.code == TransportCode::Unauthenticated,
        r.message@ == "invalid credentials"@,
{
    TransportStatus {
        code: TransportCode::Unauthenticated,
        message: "invalid credentials".to_owned(),
    }
}

/// Assemble the session configuration the backend receives, from the
/// handshake request: the requested protocol version and the client
/// metadata.
pub fn session_config_from(req: HandshakeRequest) -> (r: SessionConfig)
    ensures
        r.protocol_version == req.protocol_version,
        r.client_info == req.client_info,
{
    SessionConfig { protocol_version: req.protocol_version, client_info: req.client_info }
}

/// Finish a handshake after the backend created a session: register the
/// handle. On success the response announces the server and carries the
/// session id; when the session limit is hit the handle is handed back so
/// the caller can cascade a backend close, and the status is
/// resource-exhausted.
pub fn handshake_complete(sessions: &mut SessionManager, handle: SessionHandle, now: u64) -> (r:
    Result<HandshakeResponse, (TransportStatus, SessionHandle)>)
    requires
        old(sessions).wf(),
    ensures
        final(sessions).wf(),
        final(sessions).capacity() == old(sessions).capacity(),
        match r {
            Ok(resp) => {
                &&& spec_lookup(final(sessions).entries(), handle.0@) matches Some(st)
                    && st.is_default(now)
                &&& forall|k2: Seq<char>|
                    k2 != handle.0@ ==> #[trigger] spec_lookup(final(sessions).entries(), k2)
                        == spec_lookup(old(sessions).entries(), k2)
                &&& resp.protocol_version == 1
                &&& resp.session_id@ == handle.0@
                &&& (resp.server_info matches Some(info) && info.name@ == "gql-wire-protocol"@
                    && info.version@ == "0.1.0"@ && info.features@ == Seq::<String>::empty())
                &&& resp.limits@ == Seq::<(String, u64)>::empty()
            },
            Err((t, h)) => {
                &&& old(sessions).capacity() matches Some(max) && old(sessions).entries().len()
                    >= max
                &&& final(sessions).entries() == old(sessions).entries()
                &&& t.code == TransportCode::ResourceExhausted
                &&& t.message@ == "session error: session limit reached"@
                &&& h == handle
            },
        },
{
    match sessions.register(handle.0.as_str(), now) {
        Ok(()) => {
            Ok(
                HandshakeResponse {
                    protocol_version: 1,
                    session_id: handle.0,
                    server_info: Some(
                        ServerInfo {
                            name: SERVER_NAME.to_owned(),
                            version: SERVER_VERSION.to_owned(),
                            features: Vec::new(),
                        },
                    ),
                    limits: Vec::new(),
                },
            )
        },
        Err(e) => {
            let text = e.display_string();
            proof {
                reveal_strlit("session error: ");
                reveal_strlit("session limit reached");
                reveal_strlit("session error: session limit reached");
                assert(text@ =~= "session error: session limit reached"@);
            }
            Err(
                (
                    TransportStatus { code: TransportCode::ResourceExhausted, message: text },
                    handle,
                ),
            )
        },
    }
}

/// Whether a session property is the meaning of a wire configure property:
/// a parameter's absent wire value denotes NULL.
pub open spec fn spec_property_decoded(w: ConfigureProperty, p: SessionProperty) -> bool {
    match w {
        ConfigureProperty::Schema(s) => p == SessionProperty::Schema(s),
        ConfigureProperty::Graph(g) => p == SessionProperty::Graph(g),
        ConfigureProperty::TimeZoneOffsetMinutes(tz) => p == SessionProperty::TimeZone(tz),
        ConfigureProperty::Parameter { name, value } => {
            &&& p matches SessionProperty::Parameter { name: n2, value: v2 }
            &&& (p matches SessionProperty::Parameter { name: n2, value: v2 } ==> n2 == name
                && v2@ == match value {
                Some(wv) => crate::wire::view_wire_value(wv),
                None => crate::value::ValV::Null,
            })
        },
    }
}

/// Validate a configure request: the session must exist (it is touched)
/// and the request must carry a property, which is decoded.
pub fn configure_preflight(sessions: &mut SessionManager, req: ConfigureRequest, now: u64) -> (r:
    Result<SessionProperty, TransportStatus>)
    requires
        old(sessions).wf(),
    ensures
        final(sessions).wf(),
        final(sessions).capacity() == old(sessions).capacity(),
        forall|k2: Seq<char>|
            k2 != req.session_id@ ==> #[trigger] spec_lookup(final(sessions).entries(), k2)
                == spec_lookup(old(sessions).entries(), k2),
        match r {
            Ok(p) => {
                &&& spec_has_key(old(sessions).entries(), req.session_id@)
                &&& req.property matches Some(w) && spec_property_decoded(w, p)
            },
            Err(t) => {
                &&& (t.code == TransportCode::NotFound <==> !spec_has_key(
                    old(sessions).entries(),
                    req.session_id@,
                ))
                &&& (t.code == TransportCode::InvalidArgument ==> req.property is None)
                &&& (t.code == TransportCode::NotFound || t.code
                    == TransportCode::InvalidArgument)
            },
        },
{
    if let Err(t) = validate_session(sessions, req.session_id.as_str()) {
        return Err(t);
    }
    sessions.touch(req.session_id.as_str(), now);
    match req.property {
        Some(ConfigureProperty::Schema(s)) => Ok(SessionProperty::Schema(s)),
        Some(ConfigureProperty::Graph(g)) => Ok(SessionProperty::Graph(g)),
        Some(ConfigureProperty::TimeZoneOffsetMinutes(tz)) => Ok(SessionProperty::TimeZone(tz)),
        Some(ConfigureProperty::Parameter { name, value }) => {
            let v = match &value {
                Some(wv) => Value::from_wire(wv),
                None => Value::Null,
            };
            Ok(SessionProperty::Parameter { name, value: v })
        },
        None => Err(
            TransportStatus {
                code: TransportCode::InvalidArgument,
                message: "no property specified".to_owned(),
            },
        ),
    }
}

/// Record a configured property in the registry, after the backend accepted
/// it; a session that vanished in between surfaces as not-found.
pub fn configure_commit(
    sessions: &mut SessionManager,
    session_id: &str,
    property: SessionProperty,
) -> (r: Result<(), TransportStatus>)
    requires
        old(sessions).wf(),
    ensures
        final(sessions).wf(),
        final(sessions).capacity() == old(sessions).capacity(),
        forall|k2: Seq<char>|
            k2 != session_id@ ==> #[trigger] spec_lookup(final(sessions).entries(), k2)
                == spec_lookup(old(sessions).entries(), k2),
        match r {
            Ok(()) => {
                &&& spec_lookup(old(sessions).entries(), session_id@) matches Some(st)
                &&& spec_lookup(final(sessions).entries(), session_id@) matches Some(st2)
                    && spec_property_applied(st, property, st2)
            },
            Err(t) => !spec_has_key(old(sessions).entries(), session_id@) && t.code
                == TransportCode::NotFound,
        },
{
    proof {
        crate::registry::lemma_has_key_lookup(old(sessions).entries(), session_id@);
    }
    match sessions.configure(session_id, property) {
        Ok(()) => Ok(()),
        Err(e) => Err(e.to_grpc_status()),
    }
}

/// Decode a wire reset-target code.
pub fn reset_target_from_code(code: i32) -> (r: Option<ResetTarget>)
    ensures
        r == spec_reset_target(code),
{
    if code == 0 {
        Some(ResetTarget::All)
    } else if code == 1 {
        Some(ResetTarget::Schema)
    } else if code == 2 {
        Some(ResetTarget::Graph)
    } else if code == 3 {
        Some(ResetTarget::TimeZone)
    } else if code == 4 {
        Some(ResetTarget::Parameters)
    } else {
        None
    }
}

/// The reset target a wire code denotes.
pub open spec fn spec_reset_target(code: i32) -> Option<ResetTarget> {
    if code == 0 {
        Some(ResetTarget::All)
    } else if code == 1 {
        Some(ResetTarget::Schema)
    } else if code == 2 {
        Some(ResetTarget::Graph)
    } else if code == 3 {
        Some(ResetTarget::TimeZone)
    } else if code == 4 {
        Some(ResetTarget::Parameters)
    } else {
        None
    }
}

/// Validate a reset request: the session must exist (it is touched) and
/// the target code must be known.
pub fn reset_preflight(sessions: &mut SessionManager, req: &ResetRequest, now: u64) -> (r: Result<
    ResetTarget,
    TransportStatus,
>)
    requires
        old(sessions).wf(),
    ensures
        final(sessions).wf(),
        final(sessions).capacity() == old(sessions).capacity(),
        forall|k2: Seq<char>|
            k2 != req.session_id@ ==> #[trigger] spec_lookup(final(sessions).entries(), k2)
                == spec_lookup(old(sessions).entries(), k2),
        match r {
            Ok(target) => {
                &&& spec_has_key(old(sessions).entries(), req.session_id@)
                &&& spec_reset_target(req.target) == Some(target)
            },
            Err(t) => {
                &&& (t.code == TransportCode::NotFound <==> !spec_has_key(
                    old(sessions).entries(),
                    req.session_id@,
                ))
                &&& (t.code == TransportCode::InvalidArgument ==> spec_reset_target(req.target)
                    is None)
                &&& (t.code == TransportCode::NotFound || t.code
                    == TransportCode::InvalidArgument)
            },
        },
{
    if let Err(t) = validate_session(sessions, req.session_id.as_str()) {
        return Err(t);
    }
    sessions.touch(req.session_id.as_str(), now);
    match reset_target_from_code(req.target) {
        Some(target) => Ok(target),
        None => Err(
            TransportStatus {
                code: TransportCode::InvalidArgument,
                message: "invalid reset target".to_owned(),
            },
        ),
    }
}

/// Record a reset in the registry, after the backend accepted it.
pub fn reset_commit(
    sessions: &mut SessionManager,
    session_id: &str,
    target: ResetTarget,
    now: u64,
) -> (r: Result<(), TransportStatus>)
    requires
        old(sessions).wf(),
    ensures
        final(sessions).wf(),
        final(sessions).capacity() == old(sessions).capacity(),
        forall|k2: Seq<char>|
            k2 != session_id@ ==> #[trigger] spec_lookup(final(sessions).entries(), k2)
                == spec_lookup(old(sessions).entries(), k2),
        match r {
            Ok(()) => {
                &&& spec_lookup(old(sessions).entries(), session_id@) matches Some(st)
                &&& spec_lookup(final(sessions).entries(), session_id@) matches Some(st2)
                    && spec_reset_applied(st, target, now, st2)
            },
            Err(t) => !spec_has_key(old(sessions).entries(), session_id@) && t.code
                == TransportCode::NotFound,
        },
{
    proof {
        crate::registry::lemma_has_key_lookup(old(sessions).entries(), session_id@);
    }
    match sessions.reset(session_id, target, now) {
        Ok(()) => Ok(()),
        Err(e) => Err(e.to_grpc_status()),
    }
}

/// Validate a close request, and collect the transactions the close must
/// roll back on the backend: the session's transactions leave the registry.
pub fn close_collect(
    sessions: &SessionManager,
    transactions: &mut TransactionManager,
    session_id: &str,
) -> (r: Result<Vec<String>, TransportStatus>)
    requires
        old(transactions).wf(),
    ensures
        final(transactions).wf(),
        match r {
            Ok(txs) => {
                &&& spec_has_key(sessions.entries(), session_id@)
                &&& !spec_session_active(final(transactions).entries(), session_id@)
                &&& (spec_session_active(old(transactions).entries(), session_id@) ==> txs@.len()
                    == 1)
                &&& (!spec_session_active(old(transactions).entries(), session_id@) ==> txs@.len()
                    == 0 && final(transactions).entries() == old(transactions).entries())
            },
            Err(t) => {
                &&& !spec_has_key(sessions.entries(), session_id@)
                &&& t.code == TransportCode::NotFound
                &&& final(transactions).entries() == old(transactions).entries()
            },
        },
{
    if let Err(t) = validate_session(sessions, session_id) {
        return Err(t);
    }
    Ok(transactions.remove_for_session(session_id))
}

/// Finish a close after the backend released the session: the session
/// leaves the registry.
pub fn close_commit(sessions: &mut SessionManager, session_id: &str)
    requires
        old(sessions).wf(),
    ensures
        final(sessions).wf(),
        final(sessions).capacity() == old(sessions).capacity(),
        spec_lookup(final(sessions).entries(), session_id@) is None,
        forall|k2: Seq<char>|
            k2 != session_id@ ==> #[trigger] spec_lookup(final(sessions).entries(), k2)
                == spec_lookup(old(sessions).entries(), k2),
{
    let removed = sessions.remove(session_id);
}

/// Validate a ping: the session must exist, and is touched.
pub fn ping_touch(sessions: &mut SessionManager, session_id: &str, now: u64) -> (r: Result<
    (),
    TransportStatus,
>)
    requires
        old(sessions).wf(),
    ensures
        final(sessions).wf(),
        final(sessions).capacity() == old(sessions).capacity(),
        forall|k2: Seq<char>|
            k2 != session_id@ ==> #[trigger] spec_lookup(final(sessions).entries(), k2)
                == spec_lookup(old(sessions).entries(), k2),
        match r {
            Ok(()) => {
                &&& spec_lookup(old(sessions).entries(), session_id@) matches Some(st)
                    && spec_lookup(final(sessions).entries(), session_id@) == Some(
                    SessionState { last_activity: now, ..st },
                )
            },
            Err(t) => !spec_has_key(old(sessions).entries(), session_id@) && t.code
                == TransportCode::NotFound && final(sessions).entries() == old(sessions).entries(),
        },
{
    if let Err(t) = validate_session(sessions, session_id) {
        return Err(t);
    }
    proof {
        crate::registry::lemma_has_key_lookup(old(sessions).entries(), session_id@);
    }
    sessions.touch(session_id, now);
    Ok(())
}

} // verus!
