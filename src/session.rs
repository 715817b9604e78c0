//! Decisions of one streaming session: the client's event filter, what each
//! inbound command leads to, and which live events are pushed.

use vstd::prelude::*;
use crate::metrics::{
    Metrics, Tally, decrement_websocket_connections, increment_restart_unauthorized,
    increment_websocket_connections, next_count,
};
use crate::models::{EventType, MonitorEvent, event_type_name};
use crate::text::{chars_of, chars_eq_ignore_ascii_case, eq_ascii_ci, owned};

verus! {

/// A session-local filter. Each dimension that is present must match; an
/// absent dimension matches every event.
#[derive(Debug)]
pub struct EventFilter {
    pub service_id: Option<String>,
    pub event_types: Option<Vec<String>>,
}

/// Whether one of the names equals the event type's name up to ASCII case.
pub open spec fn type_listed(ts: Seq<String>, t: EventType) -> bool {
    exists|i: int| 0 <= i < ts.len() && eq_ascii_ci(#[trigger] ts[i]@, event_type_name(t))
}

pub open spec fn filter_matches(f: EventFilter, e: MonitorEvent) -> bool {
    &&& f.service_id matches Some(s) ==> (e.service_id matches Some(x) && x@ == s@)
    &&& f.event_types matches Some(ts) ==> type_listed(ts@, e.event_type)
}

/// Exact string comparison against a literal.
pub fn text_is(a: &String, lit: &str) -> (r: bool)
    ensures
        r == (a@ == lit@),
{
    let b = owned(lit);
    a.eq(&b)
}

impl EventFilter {
    /// Whether the event passes the filter: same service id when one is set,
    /// and an event-type name equal up to ASCII case to one listed when a
    /// list is set.
    pub fn matches(&self, ev: &MonitorEvent) -> (r: bool)
        ensures
            r == filter_matches(*self, *ev),
    {
        match &self.service_id {
            Some(svc) => match &ev.service_id {
                Some(id) => {
                    if !id.eq(svc) {
                        return false;
                    }
                },
                None => {
                    return false;
                },
            },
            None => {},
        }
        match &self.event_types {
            Some(types) => {
                let name = ev.event_type.name();
                let mut i: usize = 0;
                while i < types.len()
                    invariant
                        i <= types@.len(),
                        name@ == event_type_name(ev.event_type),
                        self.event_types == Some(*types),
                        self.service_id matches Some(sv) ==> (ev.service_id matches Some(x) && x@
                            == sv@),
                        forall|k: int|
                            0 <= k < i ==> !eq_ascii_ci(
                                #[trigger] types@[k]@,
                                event_type_name(ev.event_type),
                            ),
                    decreases types@.len() - i,
                {
                    let t = chars_of(types[i].as_str());
                    if chars_eq_ignore_ascii_case(t.as_slice(), name.as_slice()) {
                        assert(eq_ascii_ci(types@[i as int]@, event_type_name(ev.event_type)));
                        assert(type_listed(types@, ev.event_type));
                        return true;
                    }
                    i = i + 1;
                }
                false
            },
            None => true,
        }
    }
}

/// An inbound client command, after decoding.
#[derive(Debug)]
pub struct ClientCommand {
    pub command_type: String,
    pub service_id: Option<String>,
    pub token: Option<String>,
    pub event_types: Option<Vec<String>>,
}

/// What the session does in answer to a command.
#[derive(Debug)]
pub enum CommandAction {
    /// Reply with an error frame; nothing else happens.
    Unauthorized,
    /// Run the restart orchestrator for the service and reply with its result.
    Restart { service_id: String },
    /// Reply with the service's detailed health.
    ServiceDetails { service_id: String },
    /// The filter was installed; confirm it.
    SubscriptionConfirmed,
    /// The filter was removed; confirm it.
    SubscriptionCleared,
    /// Unknown or incomplete command: no reply.
    Ignored,
}

pub open spec fn is_restart(cmd: ClientCommand) -> bool {
    cmd.command_type@ == "restart_service"@
}

pub open spec fn is_details(cmd: ClientCommand) -> bool {
    cmd.command_type@ == "get_service_details"@
}

pub open spec fn is_subscribe(cmd: ClientCommand) -> bool {
    cmd.command_type@ == "subscribe_events"@
}

pub open spec fn is_clear(cmd: ClientCommand) -> bool {
    cmd.command_type@ == "clear_subscription"@
}

/// Whether the command must pass the authorization gate before it is handled.
pub fn requires_authorization(cmd: &ClientCommand) -> (r: bool)
    ensures
        r == is_restart(*cmd),
{
    text_is(&cmd.command_type, "restart_service")
}

/// Whether a session pushes the event: every event without a filter, the
/// matching ones with one.
pub open spec fn forwards(s: Session, e: MonitorEvent) -> bool {
    match s.filter {
        Some(f) => filter_matches(f, e),
        None => true,
    }
}

/// State of one streaming session.
#[derive(Debug)]
pub struct Session {
    pub filter: Option<EventFilter>,
}

impl Session {
    /// Starts a session with no filter and counts it as live.
    pub fn open(metrics: &mut Metrics) -> (r: Session)
        ensures
            r.filter is None,
            final(metrics).counts() == (Tally {
                websocket_connections: old(metrics).counts().websocket_connections.wrapping_add(1),
                ..old(metrics).counts()
            }),
    {
        increment_websocket_connections(metrics);
        Session { filter: None }
    }

    /// Ends the session; it is no longer counted as live. Taking the session
    /// by value makes this happen once per session.
    pub fn close(self, metrics: &mut Metrics)
        ensures
            final(metrics).counts() == (Tally {
                websocket_connections: old(metrics).counts().websocket_connections.wrapping_sub(1),
                ..old(metrics).counts()
            }),
    {
        decrement_websocket_connections(metrics);
    }

    /// Whether a live event is pushed to this client.
    pub fn should_forward(&self, ev: &MonitorEvent) -> (r: bool)
        ensures
            r == forwards(*self, *ev),
    {
        match &self.filter {
            Some(f) => f.matches(ev),
            None => true,
        }
    }

    /// Handles one command. `authorized` tells whether the token check passed;
    /// only restart commands consult it. A rejected restart counts one
    /// unauthorized attempt and changes nothing else.
    pub fn handle_command(&mut self, metrics: &mut Metrics, cmd: ClientCommand, authorized: bool) -> (r:
        CommandAction)
        ensures
            is_restart(cmd) && !authorized ==> {
                &&& r is Unauthorized
                &&& final(self).filter == old(self).filter
                &&& final(metrics).counts() == (Tally {
                    restart_unauthorized: next_count(old(metrics).counts().restart_unauthorized),
                    ..old(metrics).counts()
                })
            },
            !(is_restart(cmd) && !authorized) ==> final(metrics).counts() == old(
                metrics,
            ).counts(),
            is_restart(cmd) && authorized ==> final(self).filter == old(self).filter && match cmd.service_id {
                Some(id) => r == CommandAction::Restart { service_id: id },
                None => r is Ignored,
            },
            is_details(cmd) ==> final(self).filter == old(self).filter && match cmd.service_id {
                Some(id) => r == CommandAction::ServiceDetails { service_id: id },
                None => r is Ignored,
            },
            is_subscribe(cmd) ==> r is SubscriptionConfirmed && final(self).filter == Some(
                EventFilter { service_id: cmd.service_id, event_types: cmd.event_types },
            ),
            is_clear(cmd) ==> r is SubscriptionCleared && final(self).filter is None,
            !is_restart(cmd) && !is_details(cmd) && !is_subscribe(cmd) && !is_clear(cmd) ==> r is Ignored
                && final(self).filter == old(self).filter,
    {
        proof {
            reveal_strlit("restart_service");
            reveal_strlit("get_service_details");
            reveal_strlit("subscribe_events");
            reveal_strlit("clear_subscription");
            assert("restart_service"@.len() == 15);
            assert("get_service_details"@.len() == 19);
            assert("subscribe_events"@.len() == 16);
            assert("clear_subscription"@.len() == 18);
        }
        if text_is(&cmd.command_type, "restart_service") {
            if !authorized {
                increment_restart_unauthorized(metrics);
                return CommandAction::Unauthorized;
            }
            match cmd.service_id {
                Some(id) => CommandAction::Restart { service_id: id },
                None => CommandAction::Ignored,
            }
        } else if text_is(&cmd.command_type, "get_service_details") {
            match cmd.service_id {
                Some(id) => CommandAction::ServiceDetails { service_id: id },
                None => CommandAction::Ignored,
            }
        } else if text_is(&cmd.command_type, "subscribe_events") {
            self.filter = Some(
                EventFilter { service_id: cmd.service_id, event_types: cmd.event_types },
            );
            CommandAction::SubscriptionConfirmed
        } else if text_is(&cmd.command_type, "clear_subscription") {
            self.filter = None;
            CommandAction::SubscriptionCleared
        } else {
            CommandAction::Ignored
        }
    }
}

/// Filtering laws: a service-id filter passes exactly the events of that
/// service; an event-type filter passes exactly the events whose type name
/// is listed, whatever their service; a session without a filter passes
/// every event.
pub proof fn subscription_filter_law(f: EventFilter, e: MonitorEvent, s: Session)
    ensures
        f.event_types is None ==> (f.service_id matches Some(id) ==> (filter_matches(f, e) <==> (
        e.service_id matches Some(x) && x@ == id@))),
        f.service_id is None ==> (f.event_types matches Some(ts) ==> (filter_matches(f, e) <==> exists|
            i: int,
        | 0 <= i < ts@.len() && eq_ascii_ci(#[trigger] ts@[i]@, event_type_name(e.event_type)))),

        s.filter is None ==> forwards(s, e),
{
}

} // verus!
