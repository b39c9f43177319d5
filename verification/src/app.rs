//! The application state and the pure state machines it owns: the cyclic
//! focus over the dashboard tiles and the aggregation of the three
//! independent DNS health signals into one composite status.

use vstd::prelude::*;

use crate::api::{url_parse_spec, ApiClient, ApiClientError, spec_host_ok, spec_scheme_ok};
use crate::port_check::PortState;

verus! {

/// Whether the application should keep running.
#[derive(Debug, PartialEq, Eq, Clone, Copy, Structural)]
pub enum RunningState {
    Running,
    Done,
}

impl Default for RunningState {
    fn default() -> (r: Self)
        ensures
            r == RunningState::Running,
    {
        RunningState::Running
    }
}

/// Which screen is shown. Only `Main` is reachable today; the other two
/// are placeholders of the surrounding user interface.
#[derive(Debug, PartialEq, Eq, Clone, Copy, Structural)]
pub enum CurrentScreen {
    Main,
    Setup,
    Exiting,
}

impl Default for CurrentScreen {
    fn default() -> (r: Self)
        ensures
            r == CurrentScreen::Main,
    {
        CurrentScreen::Main
    }
}

/// Result of issuing one real DNS query through the control API.
#[derive(Debug, PartialEq, Eq, Clone, Copy, Structural)]
pub enum ApiQueryResponseState {
    /// The API answered and the query succeeded.
    Healthy,
    /// The API answered, but with an application-level error.
    Unhealthy,
    /// The API could not be reached or gave no usable answer.
    NoResponse,
}

/// Progress of a fire-and-forget command (list refresh, cache flush).
///
/// It is set to `Waiting` the instant the command is dispatched and moves
/// exactly once to `Success` or `Failure` when the command finishes.
#[derive(Debug, PartialEq, Eq, Clone, Copy, Structural)]
pub enum ActionState {
    Waiting,
    Success,
    Failure,
}

/// The three latest independent signals about the resolver's health.
///
/// `None` means "not yet probed". Each field is updated on its own as the
/// corresponding probe result arrives, so any combination of set and unset
/// fields can be observed.
#[derive(Debug, PartialEq, Eq, Clone)]
pub struct DNSStatus {
    pub query_response_state: Option<ApiQueryResponseState>,
    pub tcp_port_state: Option<PortState>,
    pub udp_port_state: Option<PortState>,
}

impl Default for DNSStatus {
    fn default() -> (r: Self)
        ensures
            r == (DNSStatus {
                query_response_state: None,
                tcp_port_state: None,
                udp_port_state: None,
            }),
    {
        DNSStatus { query_response_state: None, tcp_port_state: None, udp_port_state: None }
    }
}

/// The single user-facing verdict derived from the three signals.
#[derive(Debug, PartialEq, Eq, Clone, Copy, Structural)]
pub enum CompositeStatus {
    /// No probe has reported yet.
    NotYetQueried,
    /// Both ports are open and the API query succeeded.
    Healthy,
    /// Both ports are closed and the API gave no response.
    Unreachable,
    /// Any partial, mixed or error combination.
    Degraded,
}

/// The aggregation rules, in the order they take precedence:
/// all unset first, then the fully healthy combination, then the fully
/// unreachable one, and everything else is degraded.
pub open spec fn spec_aggregate(s: DNSStatus) -> CompositeStatus {
    if s.query_response_state is None && s.tcp_port_state is None && s.udp_port_state is None {
        CompositeStatus::NotYetQueried
    } else if s.tcp_port_state == Some(PortState::Open) && s.udp_port_state == Some(PortState::Open)
        && s.query_response_state == Some(ApiQueryResponseState::Healthy) {
        CompositeStatus::Healthy
    } else if s.tcp_port_state == Some(PortState::Closed) && s.udp_port_state == Some(
        PortState::Closed,
    ) && s.query_response_state == Some(ApiQueryResponseState::NoResponse) {
        CompositeStatus::Unreachable
    } else {
        CompositeStatus::Degraded
    }
}

impl DNSStatus {
    /// Fold the three signals into the composite status. Evaluated fresh
    /// on every use; never cached.
    pub fn aggregate(&self) -> (r: CompositeStatus)
        ensures
            r == spec_aggregate(*self),
    {
        if self.query_response_state.is_none() && self.tcp_port_state.is_none()
            && self.udp_port_state.is_none() {
            CompositeStatus::NotYetQueried
        } else if self.tcp_port_state == Some(PortState::Open) && self.udp_port_state == Some(
            PortState::Open,
        ) && self.query_response_state == Some(ApiQueryResponseState::Healthy) {
            CompositeStatus::Healthy
        } else if self.tcp_port_state == Some(PortState::Closed) && self.udp_port_state == Some(
            PortState::Closed,
        ) && self.query_response_state == Some(ApiQueryResponseState::NoResponse) {
            CompositeStatus::Unreachable
        } else {
            CompositeStatus::Degraded
        }
    }
}

/// The aggregation is total: whatever combination of set and unset fields
/// the three signals are in, it yields exactly one of the four verdicts.
pub proof fn lemma_aggregate_total(s: DNSStatus)
    ensures
        spec_aggregate(s) is NotYetQueried || spec_aggregate(s) is Healthy || spec_aggregate(s)
            is Unreachable || spec_aggregate(s) is Degraded,
{
}

/// The verdict is `Healthy` exactly for the one combination where both
/// ports are open and the API query succeeded; no other combination, in
/// particular none that changes a single field of it, is reported healthy.
pub proof fn lemma_aggregate_healthy_iff(s: DNSStatus)
    ensures
        spec_aggregate(s) == CompositeStatus::Healthy <==> s == (DNSStatus {
            query_response_state: Some(ApiQueryResponseState::Healthy),
            tcp_port_state: Some(PortState::Open),
            udp_port_state: Some(PortState::Open),
        }),
{
}

/// The verdict is `Unreachable` exactly for the one combination where both
/// ports are closed and the API gave no response.
pub proof fn lemma_aggregate_unreachable_iff(s: DNSStatus)
    ensures
        spec_aggregate(s) == CompositeStatus::Unreachable <==> s == (DNSStatus {
            query_response_state: Some(ApiQueryResponseState::NoResponse),
            tcp_port_state: Some(PortState::Closed),
            udp_port_state: Some(PortState::Closed),
        }),
{
}

/// Changing any single field of the fully healthy combination to another
/// value makes the verdict `Degraded` -- never silently `Healthy` again.
pub proof fn lemma_aggregate_degrades_on_mismatch(s: DNSStatus)
    requires
        s != (DNSStatus {
            query_response_state: Some(ApiQueryResponseState::Healthy),
            tcp_port_state: Some(PortState::Open),
            udp_port_state: Some(PortState::Open),
        }),
        (s.query_response_state == Some(ApiQueryResponseState::Healthy) && s.tcp_port_state
            == Some(PortState::Open)) || (s.query_response_state == Some(
            ApiQueryResponseState::Healthy,
        ) && s.udp_port_state == Some(PortState::Open)) || (s.tcp_port_state == Some(
            PortState::Open,
        ) && s.udp_port_state == Some(PortState::Open)),
    ensures
        spec_aggregate(s) == CompositeStatus::Degraded,
{
}

/// The currently focused tile of the dashboard, a fixed cyclic order of
/// five tiles.
#[derive(Debug, PartialEq, Eq, Clone, Copy, Structural)]
pub enum CurrentFocus {
    DNSStatus,
    BlockingStatus,
    RefreshLists,
    DeleteCache,
    QueryDNS,
}

impl Default for CurrentFocus {
    fn default() -> (r: Self)
        ensures
            r == CurrentFocus::DNSStatus,
    {
        CurrentFocus::DNSStatus
    }
}

/// The next tile in display order, wrapping from the last back to the
/// first.
pub open spec fn spec_increase(f: CurrentFocus) -> CurrentFocus {
    match f {
        CurrentFocus::DNSStatus => CurrentFocus::BlockingStatus,
        CurrentFocus::BlockingStatus => CurrentFocus::RefreshLists,
        CurrentFocus::RefreshLists => CurrentFocus::DeleteCache,
        CurrentFocus::DeleteCache => CurrentFocus::QueryDNS,
        CurrentFocus::QueryDNS => CurrentFocus::DNSStatus,
    }
}

/// The previous tile in display order, wrapping from the first back to the
/// last.
pub open spec fn spec_decrease(f: CurrentFocus) -> CurrentFocus {
    match f {
        CurrentFocus::QueryDNS => CurrentFocus::DeleteCache,
        CurrentFocus::DeleteCache => CurrentFocus::RefreshLists,
        CurrentFocus::RefreshLists => CurrentFocus::BlockingStatus,
        CurrentFocus::BlockingStatus => CurrentFocus::DNSStatus,
        CurrentFocus::DNSStatus => CurrentFocus::QueryDNS,
    }
}

/// The tile selected by its ordinal. Ordinals outside 1..=5 select the
/// first tile: that is the defined fallback for out-of-range jumps.
pub open spec fn spec_jump(number: u8) -> CurrentFocus {
    match number {
        1u8 => CurrentFocus::DNSStatus,
        2u8 => CurrentFocus::BlockingStatus,
        3u8 => CurrentFocus::RefreshLists,
        4u8 => CurrentFocus::DeleteCache,
        5u8 => CurrentFocus::QueryDNS,
        _ => CurrentFocus::DNSStatus,
    }
}

/// The ordinal of a tile, 1 through 5.
pub open spec fn spec_tile_number(f: CurrentFocus) -> u8 {
    match f {
        CurrentFocus::DNSStatus => 1u8,
        CurrentFocus::BlockingStatus => 2u8,
        CurrentFocus::RefreshLists => 3u8,
        CurrentFocus::DeleteCache => 4u8,
        CurrentFocus::QueryDNS => 5u8,
    }
}

impl CurrentFocus {
    /// Move the focus to the next tile, wrapping around.
    pub fn increase(&mut self)
        ensures
            *final(self) == spec_increase(*old(self)),
    {
        *self = match self {
            CurrentFocus::DNSStatus => CurrentFocus::BlockingStatus,
            CurrentFocus::BlockingStatus => CurrentFocus::RefreshLists,
            CurrentFocus::RefreshLists => CurrentFocus::DeleteCache,
            CurrentFocus::DeleteCache => CurrentFocus::QueryDNS,
            CurrentFocus::QueryDNS => CurrentFocus::DNSStatus,
        }
    }

    /// Move the focus to the previous tile, wrapping around.
    pub fn decrease(&mut self)
        ensures
            *final(self) == spec_decrease(*old(self)),
    {
        *self = match self {
            CurrentFocus::QueryDNS => CurrentFocus::DeleteCache,
            CurrentFocus::DeleteCache => CurrentFocus::RefreshLists,
            CurrentFocus::RefreshLists => CurrentFocus::BlockingStatus,
            CurrentFocus::BlockingStatus => CurrentFocus::DNSStatus,
            CurrentFocus::DNSStatus => CurrentFocus::QueryDNS,
        }
    }

    /// Set the focus to the tile with the given ordinal; ordinals outside
    /// 1..=5 fall back to the first tile.
    pub fn set_on_number(&mut self, number: u8)
        ensures
            *final(self) == spec_jump(number),
    {
        *self = match number {
            1 => CurrentFocus::DNSStatus,
            2 => CurrentFocus::BlockingStatus,
            3 => CurrentFocus::RefreshLists,
            4 => CurrentFocus::DeleteCache,
            5 => CurrentFocus::QueryDNS,
            _ => CurrentFocus::DNSStatus,
        }
    }

    /// The ordinal of the focused tile, 1 through 5.
    pub fn get_tile_number(&self) -> (r: u8)
        ensures
            r == spec_tile_number(*self),
            1 <= r <= 5,
    {
        match self {
            CurrentFocus::DNSStatus => 1,
            CurrentFocus::BlockingStatus => 2,
            CurrentFocus::RefreshLists => 3,
            CurrentFocus::DeleteCache => 4,
            CurrentFocus::QueryDNS => 5,
        }
    }
}

/// The focus after `n` forward steps.
pub open spec fn spec_increase_n(f: CurrentFocus, n: nat) -> CurrentFocus
    decreases n,
{
    if n == 0 {
        f
    } else {
        spec_increase(spec_increase_n(f, (n - 1) as nat))
    }
}

/// The focus after `n` backward steps.
pub open spec fn spec_decrease_n(f: CurrentFocus, n: nat) -> CurrentFocus
    decreases n,
{
    if n == 0 {
        f
    } else {
        spec_decrease(spec_decrease_n(f, (n - 1) as nat))
    }
}

/// Stepping forward and stepping backward are inverse to each other.
pub proof fn lemma_focus_steps_inverse(f: CurrentFocus)
    ensures
        spec_decrease(spec_increase(f)) == f,
        spec_increase(spec_decrease(f)) == f,
{
}

/// Cycling forward from any tile returns to it after exactly five steps,
/// and the five tiles seen on the way are pairwise distinct: every tile is
/// visited exactly once per cycle.
pub proof fn lemma_focus_wraparound_increase(f: CurrentFocus)
    ensures
        spec_increase_n(f, 5) == f,
        spec_increase_n(f, 0) != spec_increase_n(f, 1),
        spec_increase_n(f, 0) != spec_increase_n(f, 2),
        spec_increase_n(f, 0) != spec_increase_n(f, 3),
        spec_increase_n(f, 0) != spec_increase_n(f, 4),
        spec_increase_n(f, 1) != spec_increase_n(f, 2),
        spec_increase_n(f, 1) != spec_increase_n(f, 3),
        spec_increase_n(f, 1) != spec_increase_n(f, 4),
        spec_increase_n(f, 2) != spec_increase_n(f, 3),
        spec_increase_n(f, 2) != spec_increase_n(f, 4),
        spec_increase_n(f, 3) != spec_increase_n(f, 4),
{
    reveal_with_fuel(spec_increase_n, 6);
}

/// Cycling backward from any tile returns to it after exactly five steps,
/// visiting every tile exactly once, and each backward step undoes the
/// matching forward step: the tiles are seen in reverse of the forward
/// order.
pub proof fn lemma_focus_wraparound_decrease(f: CurrentFocus)
    ensures
        spec_decrease_n(f, 5) == f,
        spec_decrease_n(f, 0) != spec_decrease_n(f, 1),
        spec_decrease_n(f, 0) != spec_decrease_n(f, 2),
        spec_decrease_n(f, 0) != spec_decrease_n(f, 3),
        spec_decrease_n(f, 0) != spec_decrease_n(f, 4),
        spec_decrease_n(f, 1) != spec_decrease_n(f, 2),
        spec_decrease_n(f, 1) != spec_decrease_n(f, 3),
        spec_decrease_n(f, 1) != spec_decrease_n(f, 4),
        spec_decrease_n(f, 2) != spec_decrease_n(f, 3),
        spec_decrease_n(f, 2) != spec_decrease_n(f, 4),
        spec_decrease_n(f, 3) != spec_decrease_n(f, 4),
        spec_decrease_n(f, 1) == spec_increase_n(f, 4),
        spec_decrease_n(f, 2) == spec_increase_n(f, 3),
        spec_decrease_n(f, 3) == spec_increase_n(f, 2),
        spec_decrease_n(f, 4) == spec_increase_n(f, 1),
{
    reveal_with_fuel(spec_decrease_n, 6);
    reveal_with_fuel(spec_increase_n, 6);
}

/// Jumping to an ordinal outside 1..=5 lands on the defined fallback, the
/// first tile, regardless of where the focus was.
pub proof fn lemma_jump_out_of_range(number: u8)
    requires
        number < 1 || number > 5,
    ensures
        spec_jump(number) == CurrentFocus::DNSStatus,
{
}

/// Jumping to an ordinal within 1..=5 lands on the tile with exactly that
/// ordinal.
pub proof fn lemma_jump_in_range(number: u8)
    requires
        1 <= number <= 5,
    ensures
        spec_tile_number(spec_jump(number)) == number,
{
}

/// The blocking state of the resolver, as its control API reports it.
#[derive(Debug, PartialEq, Eq, Clone)]
pub struct BlockingStatus {
    /// Whether blocking is enabled.
    pub is_blocking_enabled: bool,
    /// If blocking is temporarily disabled: seconds until it comes back.
    pub unblocking_timer: Option<u32>,
    /// Names of the disabled groups.
    disabled_groups: Option<String>,
}

/// The whole application state. Created once at startup and from then on
/// mutated exclusively by the dispatch loop, one action at a time.
#[derive(Debug, PartialEq, Eq, Clone)]
pub struct App {
    /// The control API the probes talk to.
    pub api: ApiClient,
    pub running_state: RunningState,
    pub current_screen: CurrentScreen,
    pub current_focus: CurrentFocus,
    /// Whether the user is currently typing into a text field.
    pub is_currently_editing: bool,
    pub blocking_status: Option<BlockingStatus>,
    pub dns_status: DNSStatus,
    /// Progress of the latest blocking-list refresh; `None` until one is
    /// requested.
    pub blocking_list_refresh_state: Option<ActionState>,
    /// Progress of the latest cache flush; `None` until one is requested.
    pub cache_delete_state: Option<ActionState>,
}

impl App {
    /// The initial state: focused on the first tile, running, nothing
    /// probed yet, talking to the default local resolver address.
    pub fn new() -> (r: Result<App, ApiClientError>)
        ensures
            (r matches Ok(app) ==> app.api.wf() && app.api.api_port == 4000 && app.api.dns_port
                == 1234 && app.running_state == RunningState::Running && app.current_screen
                == CurrentScreen::Main && app.current_focus == CurrentFocus::DNSStatus
                && !app.is_currently_editing && app.blocking_status is None && app.dns_status == (
            DNSStatus {
                query_response_state: None,
                tcp_port_state: None,
                udp_port_state: None,
            }) && app.blocking_list_refresh_state is None && app.cache_delete_state is None),
            (r matches Ok(app) ==> (url_parse_spec("http://localhost"@) matches Some(u)
                && app.api.url.host@ == u.host->0 && app.api.url.scheme@ == (
            if u.scheme.len() == 0 {
                "https"@
            } else {
                u.scheme
            }))),
            (r is Ok <==> (url_parse_spec("http://localhost"@) matches Some(u) && spec_scheme_ok(
                u.scheme,
            ) && spec_host_ok(u.host))),
    {
        let api = match ApiClient::new("http://localhost", 4000, 1234) {
            Ok(api) => api,
            Err(e) => {
                return Err(e);
            },
        };
        Ok(
            App {
                api,
                running_state: RunningState::Running,
                current_screen: CurrentScreen::Main,
                current_focus: CurrentFocus::DNSStatus,
                is_currently_editing: false,
                blocking_status: None,
                dns_status: DNSStatus::default(),
                blocking_list_refresh_state: None,
                cache_delete_state: None,
            },
        )
    }

    /// Replace the running flag.
    pub fn change_running_state(&mut self, state: RunningState)
        ensures
            *final(self) == (App { running_state: state, ..*old(self) }),
    {
        self.running_state = state
    }

    /// Move the focus to the next tile, wrapping around.
    pub fn cycle_focus_up(&mut self)
        ensures
            *final(self) == (App { current_focus: spec_increase(old(self).current_focus), ..*old(
                self,
            ) }),
    {
        self.current_focus.increase();
    }

    /// Move the focus to the previous tile, wrapping around.
    pub fn cycle_focus_down(&mut self)
        ensures
            *final(self) == (App { current_focus: spec_decrease(old(self).current_focus), ..*old(
                self,
            ) }),
    {
        self.current_focus.decrease();
    }

    /// Set the focus to the tile with the given ordinal; ordinals outside
    /// 1..=5 fall back to the first tile.
    pub fn set_tile_to_num(&mut self, num: u8)
        ensures
            *final(self) == (App { current_focus: spec_jump(num), ..*old(self) }),
    {
        self.current_focus.set_on_number(num);
    }
}

} // verus!
