//! What the API decides about brokers before and after it talks to the
//! stores and to the orchestrator.

use vstd::prelude::*;
use vstd::string::*;
use crate::broker_connection::Connecting;
use crate::broker_model::{BrokerCreate, BrokerManager, BrokerResponse, BrokerUpdate};
use crate::error_app::{AppError, AppErrorView, AppMsgError, AppMsgErrorView};
use crate::ident::{format_uuid, is_random_uuid, random_uuid, uuid_text};
use crate::text::{decimal_text, i32_text};

verus! {

/// A request to the state synchronizer: make the stored flag of
/// `broker_uuid` equal to `connected`, looking at what is stored first if
/// `search_broker` says so.
#[derive(Debug, Clone, Copy, PartialEq, Eq, Structural)]
pub struct StateRequest {
    pub broker_uuid: u128,
    pub connected: bool,
    pub search_broker: bool,
}

/// How many rows a count found, or `None` where it found none.
pub fn get_broker_count_query(count: Option<i64>) -> (r: Option<i64>)
    ensures
        r == (match count {
            Some(n) => if n == 0 {
                None
            } else {
                Some(n)
            },
            None => None,
        }),
{
    match count {
        Some(n) => if n == 0 {
            None
        } else {
            Some(n)
        },
        None => None,
    }
}

/// How many rows a count found, zero where it gave no number.
pub fn get_broker_count_total_query(count: Option<i64>) -> (r: i64)
    ensures
        r == (match count {
            Some(n) => n,
            None => 0i64,
        }),
{
    match count {
        Some(n) => n,
        None => 0,
    }
}

/// The error of a port that another broker holds.
pub open spec fn port_taken(port: i32) -> AppErrorView {
    AppErrorView::ConstraintViolation(
        AppMsgErrorView {
            api_msg_error: "Broker port already registered"@,
            log_msg_error: "Broker port already registered, port: "@ + decimal_text(port as int),
        },
    )
}

fn port_taken_error(port: i32) -> (e: AppError)
    ensures
        e@ == port_taken(port),
{
    AppError::ConstraintViolation(
        AppMsgError {
            api_msg_error: "Broker port already registered".to_owned(),
            log_msg_error: "Broker port already registered, port: ".to_owned().concat(
                i32_text(port).as_str(),
            ),
        },
    )
}

/// Checks a request to register a broker and draws its identifier.
/// `registered` is how many brokers hold the port already, `None` for none:
/// no two brokers may share a port.
pub fn broker_create(broker: &BrokerCreate, registered: Option<i64>) -> (r: Result<u128, AppError>)
    ensures
        match r {
            Ok(uuid) => registered is None && is_random_uuid(uuid),
            Err(e) => registered is Some && e@ == port_taken(broker.port),
        },
{
    if registered.is_some() {
        return Err(port_taken_error(broker.port));
    }
    Ok(random_uuid())
}

/// Checks a request to change a broker. `others` is how many other brokers
/// hold the port that the request asks for.
pub fn broker_update(update: &BrokerUpdate, others: i64) -> (r: Result<(), AppError>)
    ensures
        match r {
            Ok(()) => others <= 0,
            Err(e) => others > 0 && e@ == port_taken(update.port),
        },
{
    if others > 0 {
        return Err(port_taken_error(update.port));
    }
    Ok(())
}

/// The error of a broker that the store does not hold.
pub open spec fn broker_not_found(broker_uuid: u128) -> AppErrorView {
    AppErrorView::NotFound(
        AppMsgErrorView {
            api_msg_error: "Broker not found"@,
            log_msg_error: "Broker not found, uuid: "@ + uuid_text(broker_uuid),
        },
    )
}

fn broker_not_found_error(broker_uuid: u128) -> (e: AppError)
    ensures
        e@ == broker_not_found(broker_uuid),
{
    AppError::not_found(
        "Broker not found".to_owned(),
        "Broker not found, uuid: ".to_owned().concat(format_uuid(broker_uuid).as_str()),
    )
}

/// The broker to delete, from what the lookup found.
pub fn broker_delete(broker: Option<BrokerResponse>, broker_uuid: u128) -> (r: Result<u128, AppError>)
    ensures
        match r {
            Ok(uuid) => broker matches Some(b) && uuid == b.uuid,
            Err(e) => broker is None && e@ == broker_not_found(broker_uuid),
        },
{
    match broker {
        Some(b) => Ok(b.uuid),
        None => Err(broker_not_found_error(broker_uuid)),
    }
}

/// Decides a request to connect a broker, from what the lookup found. A
/// broker that the store does not hold is an error. A broker that is stored
/// as connected needs nothing: the request succeeds as it stands. For any
/// other broker the opening of its session starts.
pub fn broker_connection(broker: Option<BrokerResponse>, broker_uuid: u128) -> (r: Result<
    Option<Connecting>,
    AppError,
>)
    ensures
        match broker {
            None => r matches Err(e) && e@ == broker_not_found(broker_uuid),
            Some(b) => r matches Ok(start) && (if b.connected {
                start is None
            } else {
                start matches Some(c) && c.is_start_for(&b)
            }),
        },
{
    match broker {
        None => Err(broker_not_found_error(broker_uuid)),
        Some(b) => {
            if b.connected {
                Ok(None)
            } else {
                Ok(Some(Connecting::new(&b)))
            }
        },
    }
}

/// What is stored once a session has been opened: the broker is connected,
/// whatever was stored before.
pub fn broker_connected(broker_uuid: u128) -> (r: StateRequest)
    ensures
        r == (StateRequest { broker_uuid, connected: true, search_broker: false }),
{
    StateRequest { broker_uuid, connected: true, search_broker: false }
}

/// Decides a request to disconnect a broker. Where the broker has a live
/// session, cancellation is signalled to it and the stored flag is to be
/// brought to "not connected". Where it has none, the request fails, the
/// registry stays as it is and nothing is to be stored.
pub fn broker_disconnect(broker_uuid: u128, manager: &mut BrokerManager) -> (r: Result<
    StateRequest,
    AppError,
>)
    requires
        old(manager).wf(),
    ensures
        final(manager).wf(),
        match r {
            Ok(request) => {
                &&& old(manager)@.contains_key(broker_uuid)
                &&& request == (StateRequest { broker_uuid, connected: false, search_broker: true })
                &&& final(manager)@.dom() == old(manager)@.dom()
                &&& final(manager)@[broker_uuid].cancelled
                &&& final(manager)@[broker_uuid].client == old(manager)@[broker_uuid].client
                &&& final(manager)@[broker_uuid].commands == old(manager)@[broker_uuid].commands
                &&& forall|other: u128|
                    other != broker_uuid && #[trigger] old(manager)@.contains_key(other)
                        ==> final(manager)@[other] == old(manager)@[other]
            },
            Err(e) => {
                &&& !old(manager)@.contains_key(broker_uuid)
                &&& final(manager)@ == old(manager)@
                &&& e@ == AppErrorView::NotFound(
                    AppMsgErrorView {
                        api_msg_error: "Broker not found or not connected"@,
                        log_msg_error: "Broker not found or not connected in BrokerManager, uuid: "@
                            + uuid_text(broker_uuid),
                    },
                )
            },
        },
{
    if manager.cancel(&broker_uuid) {
        assert(final(manager)@.dom() =~= old(manager)@.dom());
        Ok(StateRequest { broker_uuid, connected: false, search_broker: true })
    } else {
        Err(
            AppError::not_found(
                "Broker not found or not connected".to_owned(),
                "Broker not found or not connected in BrokerManager, uuid: ".to_owned().concat(
                    format_uuid(broker_uuid).as_str(),
                ),
            ),
        )
    }
}

} // verus!
