//! The connection that a client asks for.
use std::time::Duration;
use tonic::transport::Endpoint;
use vstd::prelude::*;

use crate::client::auth;
use crate::time;

verus! {

/// The settings of a connection.
#[verifier::external_type_specification]
#[verifier::external_body]
pub struct ExEndpoint(Endpoint);

/// Why a connection could not be set up.
#[verifier::external_type_specification]
#[verifier::external_body]
pub struct ExTransportError(tonic::transport::Error);

/// What `Endpoint::from_shared` makes of an address, where it makes something.
pub uninterp spec fn endpoint_of(addr: Seq<char>) -> Option<Endpoint>;

/// What `Endpoint::user_agent` makes of settings and a text that can stand in a
/// header.
pub uninterp spec fn with_user_agent(e: Endpoint, agent: Seq<char>) -> Endpoint;

/// What `Endpoint::connect_timeout` makes of settings and so many nanoseconds.
pub uninterp spec fn with_connect_timeout(e: Endpoint, nanos: nat) -> Endpoint;

/// What `Endpoint::http2_keep_alive_interval` makes of settings and so many
/// nanoseconds.
pub uninterp spec fn with_keep_alive_interval(e: Endpoint, nanos: nat) -> Endpoint;

/// What `Endpoint::keep_alive_timeout` makes of settings and so many
/// nanoseconds.
pub uninterp spec fn with_keep_alive_timeout(e: Endpoint, nanos: nat) -> Endpoint;

/// What `Endpoint::keep_alive_while_idle` makes of settings and a switch.
pub uninterp spec fn with_keep_alive_while_idle(e: Endpoint, enabled: bool) -> Endpoint;

/// `Endpoint::connect_timeout` bounds the time that connecting may take.
pub assume_specification[ Endpoint::connect_timeout ](e: Endpoint, dur: Duration) -> (r: Endpoint)
    ensures
        r == with_connect_timeout(e, time::duration_nanos(dur)),
;

/// `Endpoint::http2_keep_alive_interval` sets the time between two keep-alive
/// messages.
pub assume_specification[ Endpoint::http2_keep_alive_interval ](
    e: Endpoint,
    interval: Duration,
) -> (r: Endpoint)
    ensures
        r == with_keep_alive_interval(e, time::duration_nanos(interval)),
;

/// `Endpoint::keep_alive_timeout` bounds the wait for the answer to a keep-alive
/// message.
pub assume_specification[ Endpoint::keep_alive_timeout ](e: Endpoint, duration: Duration) -> (r:
    Endpoint)
    ensures
        r == with_keep_alive_timeout(e, time::duration_nanos(duration)),
;

/// `Endpoint::keep_alive_while_idle` keeps a connection alive between calls.
pub assume_specification[ Endpoint::keep_alive_while_idle ](e: Endpoint, enabled: bool) -> (r:
    Endpoint)
    ensures
        r == with_keep_alive_while_idle(e, enabled),
;

/// `Endpoint::from_shared` reads an address. Which error it gives for one that
/// it does not read is left unsaid.
#[verifier::external_body]
fn read_address(addr: &str) -> (r: Result<Endpoint, tonic::transport::Error>)
    ensures
        r is Ok <==> endpoint_of(addr@) is Some,
        r matches Ok(e) ==> endpoint_of(addr@) == Some(e),
{
    Endpoint::from_shared(addr.to_string())
}

/// `Endpoint::user_agent` names the client to the server. It fails on a text
/// that cannot stand in a header; which error it gives is left unsaid.
#[verifier::external_body]
fn user_agent(e: Endpoint, agent: &str) -> (r: Result<Endpoint, tonic::transport::Error>)
    ensures
        r is Ok <==> auth::is_header_text(agent@),
        r matches Ok(x) ==> x == with_user_agent(e, agent@),
{
    e.user_agent(agent)
}

/// The settings with which a client connects: five seconds to connect, and the
/// client's name. Long polls are kept alive by a message every 30 seconds, which
/// is to be answered within ten, between calls too.
pub open spec fn configured(e: Endpoint, agent: Seq<char>) -> Endpoint {
    with_keep_alive_while_idle(
        with_keep_alive_timeout(
            with_keep_alive_interval(
                with_user_agent(with_connect_timeout(e, 5_000_000_000), agent),
                30_000_000_000,
            ),
            10_000_000_000,
        ),
        true,
    )
}

/// The connection to a server at the given address, as a client of the given
/// name asks for it.
pub fn endpoint(addr: &str, agent: &str) -> (r: Result<Endpoint, tonic::transport::Error>)
    ensures
        r is Ok <==> endpoint_of(addr@) is Some && auth::is_header_text(agent@),
        r matches Ok(e) ==> e == configured(endpoint_of(addr@)->0, agent@),
{
    let e = match read_address(addr) {
        Ok(e) => e,
        Err(err) => {
            return Err(err);
        },
    };
    let e = match user_agent(e.connect_timeout(Duration::from_secs(5)), agent) {
        Ok(e) => e,
        Err(err) => {
            return Err(err);
        },
    };
    Ok(
        e.http2_keep_alive_interval(Duration::from_secs(30)).keep_alive_timeout(
            Duration::from_secs(10),
        ).keep_alive_while_idle(true),
    )
}

} // verus!
