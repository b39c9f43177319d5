//! The dispatch rules: how one action changes the application state, and
//! which side effects it asks the surrounding runtime to start. The loop
//! that receives actions from the bus, and the tasks that perform the
//! effects, live outside the library; they call [`App::update`] for every
//! action and then carry out the returned effects.

use vstd::prelude::*;

use crate::action::Action;
use crate::api::{spec_classify_command_status, spec_classify_query_response, DNSResponse};
use crate::app::{ActionState, ApiQueryResponseState, App, CompositeStatus, DNSStatus, RunningState,
    spec_aggregate, spec_decrease, spec_increase, spec_jump};
use crate::port_check::{dns_wire_ok, spec_classify_tcp_probe, spec_classify_udp_probe, PortState,
    TcpProbeOutcome, UdpProbeOutcome};

verus! {

/// A side effect the dispatch loop asks its caller to perform. The loop
/// itself never does I/O: commands flip their progress to `Waiting`
/// synchronously and hand the work off through one of these.
#[derive(Debug, PartialEq, Eq, Clone, Copy, Structural)]
pub enum Effect {
    /// Put this action on the action bus.
    Emit(Action),
    /// Spawn the three concurrent probes of one health round; each ends
    /// by sending its `Set*` action back through the bus.
    StartProbeRound,
    /// Spawn the blocking-list refresh command; it ends by sending
    /// `SetRefreshListState` back through the bus.
    StartListRefresh,
    /// Spawn the cache flush command; it ends by sending
    /// `SetDNSCacheClearState` back through the bus.
    StartCacheClear,
}

/// The state after applying one action.
///
/// `Quit` flips the running flag. Focus actions move the focus. The five
/// `Set*` actions each write exactly one field, leaving the others
/// untouched. Dispatching a command sets its progress to `Waiting` the
/// same instant. Everything else leaves the state unchanged.
pub open spec fn spec_apply(s: App, a: Action) -> App {
    match a {
        Action::Quit => App { running_state: RunningState::Done, ..s },
        Action::JumpToTile(n) => App { current_focus: spec_jump(n), ..s },
        Action::CycleFocusUp => App { current_focus: spec_increase(s.current_focus), ..s },
        Action::CycleFocusDown => App { current_focus: spec_decrease(s.current_focus), ..s },
        Action::SetDNSStatus(q) => App {
            dns_status: DNSStatus { query_response_state: Some(q), ..s.dns_status },
            ..s
        },
        Action::SetTCPPortState(p) => App {
            dns_status: DNSStatus { tcp_port_state: Some(p), ..s.dns_status },
            ..s
        },
        Action::SetUDPPortState(p) => App {
            dns_status: DNSStatus { udp_port_state: Some(p), ..s.dns_status },
            ..s
        },
        Action::RefreshLists => App {
            blocking_list_refresh_state: Some(ActionState::Waiting),
            ..s
        },
        Action::SetRefreshListState(st) => App { blocking_list_refresh_state: Some(st), ..s },
        Action::ClearDNSCache => App { cache_delete_state: Some(ActionState::Waiting), ..s },
        Action::SetDNSCacheClearState(st) => App { cache_delete_state: Some(st), ..s },
        _ => s,
    }
}

/// The effects one action asks for.
///
/// Focus changes request a fresh render. Every `UpdateTile` triggers one
/// health-probe round. Each command starts its own task. No other action
/// has a side effect.
pub open spec fn spec_effects(s: App, a: Action) -> Seq<Effect> {
    match a {
        Action::JumpToTile(n) => seq![Effect::Emit(Action::Render)],
        Action::CycleFocusUp => seq![Effect::Emit(Action::Render)],
        Action::CycleFocusDown => seq![Effect::Emit(Action::Render)],
        Action::UpdateTile => seq![Effect::StartProbeRound],
        Action::RefreshLists => seq![Effect::StartListRefresh],
        Action::ClearDNSCache => seq![Effect::StartCacheClear],
        _ => Seq::empty(),
    }
}

impl App {
    /// Apply one action to the state and say which effects to start.
    ///
    /// This is the whole dispatch step: it mutates synchronously, never
    /// blocks, and never performs I/O itself.
    pub fn update(&mut self, action: &Action) -> (effects: Vec<Effect>)
        ensures
            *final(self) == spec_apply(*old(self), *action),
            effects@ == spec_effects(*old(self), *action),
    {
        let mut effects: Vec<Effect> = Vec::new();
        match action {
            Action::Quit => {
                self.change_running_state(RunningState::Done);
            },
            Action::JumpToTile(tile_num) => {
                self.set_tile_to_num(*tile_num);
                effects.push(Effect::Emit(Action::Render));
            },
            Action::CycleFocusUp => {
                self.cycle_focus_up();
                effects.push(Effect::Emit(Action::Render));
            },
            Action::CycleFocusDown => {
                self.cycle_focus_down();
                effects.push(Effect::Emit(Action::Render));
            },
            Action::SetDNSStatus(dns_state) => {
                self.dns_status.query_response_state = Some(*dns_state);
            },
            Action::SetTCPPortState(port_state) => {
                self.dns_status.tcp_port_state = Some(*port_state);
            },
            Action::SetUDPPortState(port_state) => {
                self.dns_status.udp_port_state = Some(*port_state);
            },
            Action::UpdateTile => {
                effects.push(Effect::StartProbeRound);
            },
            Action::RefreshLists => {
                self.blocking_list_refresh_state = Some(ActionState::Waiting);
                effects.push(Effect::StartListRefresh);
            },
            Action::SetRefreshListState(action_state) => {
                self.blocking_list_refresh_state = Some(*action_state);
            },
            Action::ClearDNSCache => {
                self.cache_delete_state = Some(ActionState::Waiting);
                effects.push(Effect::StartCacheClear);
            },
            Action::SetDNSCacheClearState(action_state) => {
                self.cache_delete_state = Some(*action_state);
            },
            _ => {},
        }
        proof {
            assert(effects@ =~= spec_effects(*old(self), *action));
        }
        effects
    }
}

/// For a single refresh-lists invocation the observed progress is exactly
/// `Waiting` the instant the command is dispatched, and exactly `Success`
/// or `Failure` once its result -- whatever the endpoint answered, or a
/// transport failure -- is applied: `Waiting` is never skipped and no
/// third state ever shows.
pub proof fn lemma_refresh_progress(s: App, status: Option<u16>)
    ensures
        spec_apply(s, Action::RefreshLists).blocking_list_refresh_state == Some(
            ActionState::Waiting,
        ),
        (spec_apply(
            spec_apply(s, Action::RefreshLists),
            Action::SetRefreshListState(spec_classify_command_status(status)),
        ).blocking_list_refresh_state matches Some(st) && (st == ActionState::Success || st
            == ActionState::Failure)),
{
}

/// The cache-flush command shows the same two-step progress as the list
/// refresh: `Waiting` at dispatch, then exactly one of `Success` or
/// `Failure`.
pub proof fn lemma_cache_clear_progress(s: App, status: Option<u16>)
    ensures
        spec_apply(s, Action::ClearDNSCache).cache_delete_state == Some(ActionState::Waiting),
        (spec_apply(
            spec_apply(s, Action::ClearDNSCache),
            Action::SetDNSCacheClearState(spec_classify_command_status(status)),
        ).cache_delete_state matches Some(st) && (st == ActionState::Success || st
            == ActionState::Failure)),
{
}

/// The state reached from `s` once all three probe results of one round
/// have been delivered: each signal sits in its own field and nothing
/// else has changed.
pub open spec fn spec_round_result(
    s: App,
    q: ApiQueryResponseState,
    t: PortState,
    u: PortState,
) -> App {
    App {
        dns_status: DNSStatus {
            query_response_state: Some(q),
            tcp_port_state: Some(t),
            udp_port_state: Some(u),
        },
        ..s
    }
}

/// The three probe results of one round -- the API signal `q`, the TCP
/// signal `t` and the UDP signal `u` -- may be delivered in any of the
/// six possible orders: every order reaches the same final state, and
/// hence the same composite verdict.
pub proof fn lemma_probe_order_independent(
    s: App,
    q: ApiQueryResponseState,
    t: PortState,
    u: PortState,
)
    ensures
        spec_apply(
            spec_apply(spec_apply(s, Action::SetDNSStatus(q)), Action::SetTCPPortState(t)),
            Action::SetUDPPortState(u),
        ) == spec_round_result(s, q, t, u),
        spec_apply(
            spec_apply(spec_apply(s, Action::SetDNSStatus(q)), Action::SetUDPPortState(u)),
            Action::SetTCPPortState(t),
        ) == spec_round_result(s, q, t, u),
        spec_apply(
            spec_apply(spec_apply(s, Action::SetTCPPortState(t)), Action::SetDNSStatus(q)),
            Action::SetUDPPortState(u),
        ) == spec_round_result(s, q, t, u),
        spec_apply(
            spec_apply(spec_apply(s, Action::SetTCPPortState(t)), Action::SetUDPPortState(u)),
            Action::SetDNSStatus(q),
        ) == spec_round_result(s, q, t, u),
        spec_apply(
            spec_apply(spec_apply(s, Action::SetUDPPortState(u)), Action::SetDNSStatus(q)),
            Action::SetTCPPortState(t),
        ) == spec_round_result(s, q, t, u),
        spec_apply(
            spec_apply(spec_apply(s, Action::SetUDPPortState(u)), Action::SetTCPPortState(t)),
            Action::SetDNSStatus(q),
        ) == spec_round_result(s, q, t, u),
        spec_aggregate(spec_round_result(s, q, t, u).dns_status) == spec_aggregate(
            DNSStatus {
                query_response_state: Some(q),
                tcp_port_state: Some(t),
                udp_port_state: Some(u),
            },
        ),
{
}

/// End to end: whenever the API answers with return code `NOERROR`, the
/// TCP connection succeeds, and any parseable DNS reply arrives within
/// the wait, delivering the three classified results gives the verdict
/// `Healthy`.
pub proof fn lemma_round_healthy(s: App, resp: DNSResponse, udp: UdpProbeOutcome)
    requires
        resp.returnCode@ == "NOERROR"@,
        (udp matches UdpProbeOutcome::Reply(b) && dns_wire_ok(b@)),
    ensures
        spec_aggregate(
            spec_round_result(
                s,
                spec_classify_query_response(Some(resp)),
                spec_classify_tcp_probe(TcpProbeOutcome::Connected),
                spec_classify_udp_probe(udp),
            ).dns_status,
        ) == CompositeStatus::Healthy,
{
}

/// End to end: whenever the API gives no usable answer, the TCP
/// connection is refused, and the UDP probe times out, the verdict is
/// `Unreachable`.
pub proof fn lemma_round_unreachable(s: App)
    ensures
        spec_aggregate(
            spec_round_result(
                s,
                spec_classify_query_response(None),
                spec_classify_tcp_probe(TcpProbeOutcome::Refused),
                spec_classify_udp_probe(UdpProbeOutcome::TimedOut),
            ).dns_status,
        ) == CompositeStatus::Unreachable,
{
}

/// End to end: whenever the API is reachable but answers with any return
/// code other than `NOERROR`, while both ports answer, the verdict is
/// `Degraded` -- reachable but erroring is told apart from unreachable.
pub proof fn lemma_round_degraded(s: App, resp: DNSResponse, udp: UdpProbeOutcome)
    requires
        resp.returnCode@ != "NOERROR"@,
        (udp matches UdpProbeOutcome::Reply(b) && dns_wire_ok(b@)),
    ensures
        spec_aggregate(
            spec_round_result(
                s,
                spec_classify_query_response(Some(resp)),
                spec_classify_tcp_probe(TcpProbeOutcome::Connected),
                spec_classify_udp_probe(udp),
            ).dns_status,
        ) == CompositeStatus::Degraded,
{
}

} // verus!
