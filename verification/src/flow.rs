//! The onboarding sequence as an explicit state machine.
//!
//! The caller performs each outside step — joining the network, the two
//! authorization requests, the backend registration — and hands the
//! outcome back as a [`FlowEvent`]. [`OnboardingFlow::step`] decides the
//! next state, what to publish over the control channel, and which outside
//! step to perform next. The whole sequence is wrapped in a small in-memory
//! retry budget that absorbs transient failures; the terminal provider
//! rejections end the flow at once without consuming it.

use vstd::prelude::*;
use crate::auth0::DeviceCodeResponse;
use crate::auth0::GrantView;
use crate::auth0::TokenResult;
use crate::auth0::TokenResultView;
use crate::auth0::TokenStatus;
use crate::auth0::status_described;
use crate::auth0::status_retryable;
use crate::cycle::clamped_lifetime;
use crate::mycelium::StationInsert;
use crate::mycelium::StationInsertView;
use crate::mycelium::build_station_insert;
use crate::mycelium::station_insert_of;
use crate::onboarding::OnboardingSettings;
use crate::onboarding::OnboardingState;
use crate::onboarding::SettingsView;
use crate::onboarding::StateView;
use crate::settings::FlashState;
use crate::settings::StoreView;
use crate::tokens::TokenWallet;
use crate::tokens::WalletView;
use crate::wifi::MyceliumWifiSettings;
use crate::wifi::WifiSettingsView;
use crate::wifi::wifi_basic;

verus! {

/// Immediate retries of the whole onboarding sequence before `Failed` is
/// published. This budget lives in memory only and is reset by every new
/// `Initialize` command.
pub const ONBOARDING_RETRIES: u32 = 5;

/// The fewest seconds between two token-endpoint polls, enforced even when
/// the provider declares a smaller interval.
pub const MIN_POLL_INTERVAL: u64 = 5;

/// Seconds added to the wait after the provider answers `slow_down`.
pub const SLOW_DOWN_STEP: u64 = 5;

/// Mathematical model of [`FlowPhase`].
pub enum FlowPhaseView {
    Joining,
    RequestingCode,
    Polling { device_code: Seq<char>, wait_seconds: u64 },
    Registering,
    Complete,
    Failed,
}

/// Where the onboarding sequence stands.
pub enum FlowPhase {
    Joining,
    RequestingCode,
    Polling { device_code: String, wait_seconds: u64 },
    Registering,
    Complete,
    Failed,
}

impl View for FlowPhase {
    type V = FlowPhaseView;

    open spec fn view(&self) -> FlowPhaseView {
        match self {
            FlowPhase::Joining => FlowPhaseView::Joining,
            FlowPhase::RequestingCode => FlowPhaseView::RequestingCode,
            FlowPhase::Polling { device_code, wait_seconds } => FlowPhaseView::Polling {
                device_code: device_code@,
                wait_seconds: *wait_seconds,
            },
            FlowPhase::Registering => FlowPhaseView::Registering,
            FlowPhase::Complete => FlowPhaseView::Complete,
            FlowPhase::Failed => FlowPhaseView::Failed,
        }
    }
}

/// Mathematical model of [`OnboardingFlow`].
pub struct FlowView {
    pub settings: SettingsView,
    pub mac: Seq<char>,
    pub retries_left: u32,
    pub phase: FlowPhaseView,
}

/// One run of the onboarding sequence: the settings it was started with,
/// the device's hardware address, the remaining retry budget and the
/// current phase.
pub struct OnboardingFlow {
    pub settings: OnboardingSettings,
    pub mac: String,
    pub retries_left: u32,
    pub phase: FlowPhase,
}

impl View for OnboardingFlow {
    type V = FlowView;

    open spec fn view(&self) -> FlowView {
        FlowView {
            settings: self.settings@,
            mac: self.mac@,
            retries_left: self.retries_left,
            phase: self.phase@,
        }
    }
}

/// Mathematical model of [`FlowEvent`].
pub enum EventView {
    JoinSucceeded { enriched: WifiSettingsView },
    JoinFailed { cause: Seq<char> },
    DeviceCodeReceived { grant: GrantView },
    DeviceCodeFailed { cause: Seq<char> },
    PollCompleted { result: TokenResultView, now: u64 },
    PollFailed { cause: Seq<char> },
    TimeSyncFailed,
    RegistrationSucceeded { station_id: Seq<char> },
    RegistrationFailed { cause: Seq<char> },
}

/// The outcome of one outside step, handed back to the state machine.
/// `PollCompleted` carries the current synchronized time, read after the
/// response arrived, so that a granted token's absolute expiry is computed
/// from the time of issuance.
pub enum FlowEvent {
    JoinSucceeded { enriched: MyceliumWifiSettings },
    JoinFailed { cause: String },
    DeviceCodeReceived { grant: DeviceCodeResponse },
    DeviceCodeFailed { cause: String },
    PollCompleted { result: TokenResult, now: u64 },
    PollFailed { cause: String },
    TimeSyncFailed,
    RegistrationSucceeded { station_id: String },
    RegistrationFailed { cause: String },
}

impl View for FlowEvent {
    type V = EventView;

    open spec fn view(&self) -> EventView {
        match self {
            FlowEvent::JoinSucceeded { enriched } => EventView::JoinSucceeded {
                enriched: enriched@,
            },
            FlowEvent::JoinFailed { cause } => EventView::JoinFailed { cause: cause@ },
            FlowEvent::DeviceCodeReceived { grant } => EventView::DeviceCodeReceived {
                grant: grant@,
            },
            FlowEvent::DeviceCodeFailed { cause } => EventView::DeviceCodeFailed { cause: cause@ },
            FlowEvent::PollCompleted { result, now } => EventView::PollCompleted {
                result: result@,
                now: *now,
            },
            FlowEvent::PollFailed { cause } => EventView::PollFailed { cause: cause@ },
            FlowEvent::TimeSyncFailed => EventView::TimeSyncFailed,
            FlowEvent::RegistrationSucceeded { station_id } => EventView::RegistrationSucceeded {
                station_id: station_id@,
            },
            FlowEvent::RegistrationFailed { cause } => EventView::RegistrationFailed {
                cause: cause@,
            },
        }
    }
}

/// Mathematical model of [`FlowAction`].
pub enum ActionView {
    Join { settings: WifiSettingsView },
    RequestDeviceCode,
    Poll { device_code: Seq<char>, wait_seconds: u64 },
    Register { insert: StationInsertView, access_token: Seq<char> },
    Halt,
    Ignore,
}

/// The outside step the caller performs next. `Halt` ends the flow —
/// terminal states are not resumable — and `Ignore` answers an event that
/// does not fit the current phase.
pub enum FlowAction {
    Join { settings: MyceliumWifiSettings },
    RequestDeviceCode,
    Poll { device_code: String, wait_seconds: u64 },
    Register { insert: StationInsert, access_token: String },
    Halt,
    Ignore,
}

impl View for FlowAction {
    type V = ActionView;

    open spec fn view(&self) -> ActionView {
        match self {
            FlowAction::Join { settings } => ActionView::Join { settings: settings@ },
            FlowAction::RequestDeviceCode => ActionView::RequestDeviceCode,
            FlowAction::Poll { device_code, wait_seconds } => ActionView::Poll {
                device_code: device_code@,
                wait_seconds: *wait_seconds,
            },
            FlowAction::Register { insert, access_token } => ActionView::Register {
                insert: insert@,
                access_token: access_token@,
            },
            FlowAction::Halt => ActionView::Halt,
            FlowAction::Ignore => ActionView::Ignore,
        }
    }
}

/// Mathematical model of [`StepResult`].
pub struct StepView {
    pub publish: Option<StateView>,
    pub action: ActionView,
}

/// What one transition asks of the caller: at most one state publication
/// and one outside step.
pub struct StepResult {
    pub publish: Option<OnboardingState>,
    pub action: FlowAction,
}

impl View for StepResult {
    type V = StepView;

    open spec fn view(&self) -> StepView {
        StepView {
            publish: match self.publish {
                Some(ref s) => Some(s@),
                None => None,
            },
            action: self.action@,
        }
    }
}

/// Which settings the join step uses: persisted settings are reused when
/// their SSID matches the newly supplied one — they already carry the
/// discovered channel and access-point identifier — and otherwise the join
/// starts from the freshly supplied SSID and credential.
pub open spec fn selected_join_settings(
    persisted: Option<WifiSettingsView>,
    s: SettingsView,
) -> WifiSettingsView {
    match persisted {
        Some(p) => if p.ssid == s.wifi_ssid {
            p
        } else {
            wifi_basic(s.wifi_ssid, s.wifi_password)
        },
        None => wifi_basic(s.wifi_ssid, s.wifi_password),
    }
}

/// Picks the settings for the join step from the durable records and the
/// supplied settings.
pub fn select_join_settings(store: &FlashState, settings: &OnboardingSettings) -> (r:
    MyceliumWifiSettings)
    ensures
        r@ == selected_join_settings(store@.wifi, settings@),
{
    match store.get_wifi_settings() {
        Some(p) => {
            if p.ssid.eq(&settings.wifi_ssid) {
                p.clone()
            } else {
                MyceliumWifiSettings::basic(
                    settings.wifi_ssid.clone(),
                    settings.wifi_password.clone(),
                )
            }
        },
        None => MyceliumWifiSettings::basic(
            settings.wifi_ssid.clone(),
            settings.wifi_password.clone(),
        ),
    }
}

/// The join-selection law: a persisted network whose SSID matches the
/// supplied one is reused whole — the enrichment it carries (channel,
/// access-point identifier) is preserved — and otherwise the join starts
/// from the freshly supplied, un-enriched settings.
pub proof fn lemma_join_settings_selection(p: WifiSettingsView, s: SettingsView)
    ensures
        p.ssid == s.wifi_ssid ==> selected_join_settings(Some(p), s) == p,
        p.ssid != s.wifi_ssid ==> selected_join_settings(Some(p), s) == wifi_basic(
            s.wifi_ssid,
            s.wifi_password,
        ),
        selected_join_settings(None, s) == wifi_basic(s.wifi_ssid, s.wifi_password),
{
}

/// The first poll wait: the provider's declared interval, but never below
/// the enforced minimum.
pub open spec fn initial_wait(interval: u64) -> u64 {
    if interval < MIN_POLL_INTERVAL {
        MIN_POLL_INTERVAL
    } else {
        interval
    }
}

/// The longer wait after a `slow_down` answer.
pub open spec fn slowed_wait(wait: u64) -> u64 {
    if wait + SLOW_DOWN_STEP <= u64::MAX {
        (wait + SLOW_DOWN_STEP) as u64
    } else {
        u64::MAX
    }
}

/// What a failed attempt does: with budget left the whole sequence
/// restarts at the join step — re-reading the durable records, since a
/// successful join may have persisted enriched settings meanwhile — and
/// with the budget exhausted the flow ends in `Failed` carrying the cause.
pub open spec fn attempt_failed(pre: FlowView, store: StoreView, cause: Seq<char>) -> (
    FlowView,
    StepView,
) {
    if pre.retries_left > 0 {
        (
            FlowView {
                retries_left: (pre.retries_left - 1) as u32,
                phase: FlowPhaseView::Joining,
                ..pre
            },
            StepView {
                publish: Some(StateView::ProvisioningWifi),
                action: ActionView::Join {
                    settings: selected_join_settings(store.wifi, pre.settings),
                },
            },
        )
    } else {
        (
            FlowView { phase: FlowPhaseView::Failed, ..pre },
            StepView {
                publish: Some(StateView::Failed { error: cause }),
                action: ActionView::Halt,
            },
        )
    }
}

/// The wallet stored when the provider grants the first token pair.
pub open spec fn granted_wallet(
    access_token: Seq<char>,
    refresh_token: Seq<char>,
    expires_in: u64,
    now: u64,
) -> WalletView {
    WalletView {
        access_token: access_token,
        refresh_token: refresh_token,
        expires_at: (now + clamped_lifetime(now, expires_in)) as u64,
    }
}

/// The transition relation of the onboarding sequence: from a flow state,
/// the durable records and one event to the next flow state, the new
/// records, and what the caller publishes and performs next. Events that
/// do not fit the current phase change nothing and are answered with
/// `Ignore`.
pub open spec fn flow_next(pre: FlowView, store: StoreView, ev: EventView) -> (
    FlowView,
    StoreView,
    StepView,
) {
    let ignored = (
        pre,
        store,
        StepView { publish: None, action: ActionView::Ignore },
    );
    match pre.phase {
        FlowPhaseView::Joining => match ev {
            EventView::JoinSucceeded { enriched } => (
                FlowView { phase: FlowPhaseView::RequestingCode, ..pre },
                StoreView { wifi: Some(enriched), ..store },
                StepView { publish: None, action: ActionView::RequestDeviceCode },
            ),
            EventView::JoinFailed { cause } => {
                let (f, s) = attempt_failed(pre, store, cause);
                (f, store, s)
            },
            _ => ignored,
        },
        FlowPhaseView::RequestingCode => match ev {
            EventView::DeviceCodeReceived { grant } => (
                FlowView {
                    phase: FlowPhaseView::Polling {
                        device_code: grant.device_code,
                        wait_seconds: initial_wait(grant.interval),
                    },
                    ..pre
                },
                store,
                StepView {
                    publish: Some(
                        StateView::AwaitingAuthorization { url: grant.verification_uri_complete },
                    ),
                    action: ActionView::Poll {
                        device_code: grant.device_code,
                        wait_seconds: initial_wait(grant.interval),
                    },
                },
            ),
            EventView::DeviceCodeFailed { cause } => {
                let (f, s) = attempt_failed(pre, store, cause);
                (f, store, s)
            },
            _ => ignored,
        },
        FlowPhaseView::Polling { device_code, wait_seconds } => match ev {
            EventView::PollCompleted { result, now } => match result {
                TokenResultView::Error { error } => {
                    if error == TokenStatus::AuthorizationPending {
                        (
                            pre,
                            store,
                            StepView {
                                publish: None,
                                action: ActionView::Poll { device_code, wait_seconds },
                            },
                        )
                    } else if error == TokenStatus::SlowDown {
                        (
                            FlowView {
                                phase: FlowPhaseView::Polling {
                                    device_code,
                                    wait_seconds: slowed_wait(wait_seconds),
                                },
                                ..pre
                            },
                            store,
                            StepView {
                                publish: None,
                                action: ActionView::Poll {
                                    device_code,
                                    wait_seconds: slowed_wait(wait_seconds),
                                },
                            },
                        )
                    } else {
                        (
                            FlowView { phase: FlowPhaseView::Failed, ..pre },
                            store,
                            StepView {
                                publish: Some(
                                    StateView::Failed { error: status_described(error) },
                                ),
                                action: ActionView::Halt,
                            },
                        )
                    }
                },
                TokenResultView::AccessToken { .. } => (
                    pre,
                    store,
                    StepView {
                        publish: None,
                        action: ActionView::Poll { device_code, wait_seconds },
                    },
                ),
                TokenResultView::Full { access_token, refresh_token, expires_in } => (
                    FlowView { phase: FlowPhaseView::Registering, ..pre },
                    StoreView {
                        wallet: Some(granted_wallet(access_token, refresh_token, expires_in, now)),
                        ..store
                    },
                    StepView {
                        publish: None,
                        action: ActionView::Register {
                            insert: station_insert_of(pre.settings, pre.mac),
                            access_token: access_token,
                        },
                    },
                ),
            },
            EventView::PollFailed { cause } => {
                let (f, s) = attempt_failed(pre, store, cause);
                (f, store, s)
            },
            EventView::TimeSyncFailed => {
                let (f, s) = attempt_failed(pre, store, "time synchronization timed out"@);
                (f, store, s)
            },
            _ => ignored,
        },
        FlowPhaseView::Registering => match ev {
            EventView::RegistrationSucceeded { station_id } => (
                FlowView { phase: FlowPhaseView::Complete, ..pre },
                StoreView { station_id: Some(station_id), ..store },
                StepView { publish: Some(StateView::Complete), action: ActionView::Halt },
            ),
            EventView::RegistrationFailed { cause } => {
                let (f, s) = attempt_failed(pre, store, cause);
                (f, store, s)
            },
            _ => ignored,
        },
        FlowPhaseView::Complete => ignored,
        FlowPhaseView::Failed => ignored,
    }
}

/// The flow state, durable records and published states after a whole run
/// of events, first event first.
pub open spec fn flow_run(pre: FlowView, store: StoreView, events: Seq<EventView>) -> (
    FlowView,
    StoreView,
    Seq<StateView>,
)
    decreases events.len(),
{
    if events.len() == 0 {
        (pre, store, Seq::empty())
    } else {
        let t1 = flow_next(pre, store, events[0]);
        let t2 = flow_run(t1.0, t1.1, events.drop_first());
        (
            t2.0,
            t2.1,
            match t1.2.publish {
                Some(p) => seq![p] + t2.2,
                None => t2.2,
            },
        )
    }
}

/// A run over concatenated events is the two runs in sequence, and
/// publishes what the two publish.
pub proof fn lemma_flow_run_concat(
    pre: FlowView,
    store: StoreView,
    a: Seq<EventView>,
    b: Seq<EventView>,
)
    ensures
        ({
            let t = flow_run(pre, store, a);
            let u = flow_run(t.0, t.1, b);
            flow_run(pre, store, a + b) == (u.0, u.1, t.2 + u.2)
        }),
    decreases a.len(),
{
    if a.len() == 0 {
        assert(a + b =~= b);
        let u = flow_run(pre, store, b);
        assert(Seq::<StateView>::empty() + u.2 =~= u.2);
    } else {
        let t1 = flow_next(pre, store, a[0]);
        assert((a + b)[0] == a[0]);
        assert((a + b).drop_first() =~= a.drop_first() + b);
        lemma_flow_run_concat(t1.0, t1.1, a.drop_first(), b);
        let t = flow_run(t1.0, t1.1, a.drop_first());
        let u = flow_run(t.0, t.1, b);
        match t1.2.publish {
            Some(p) => {
                assert((seq![p] + t.2) + u.2 =~= seq![p] + (t.2 + u.2));
            },
            None => {},
        }
    }
}

/// A poll answered with `authorization_pending`.
pub open spec fn is_pending_poll(ev: EventView) -> bool {
    ev matches EventView::PollCompleted {
        result: TokenResultView::Error { error: TokenStatus::AuthorizationPending },
        ..
    }
}

/// Polls answered with `authorization_pending` change nothing and publish
/// nothing, however many of them arrive: the flow keeps polling.
pub proof fn lemma_pending_polls_publish_nothing(
    pre: FlowView,
    store: StoreView,
    events: Seq<EventView>,
)
    requires
        pre.phase is Polling,
        forall|i: int| 0 <= i < events.len() ==> is_pending_poll(events[i]),
    ensures
        flow_run(pre, store, events) == (pre, store, Seq::<StateView>::empty()),
    decreases events.len(),
{
    if events.len() > 0 {
        assert(is_pending_poll(events[0]));
        lemma_pending_polls_publish_nothing(pre, store, events.drop_first());
    }
}

/// A flow that reached `Complete` or `Failed` is inert: no event changes
/// it, touches the records, or publishes anything further.
pub proof fn lemma_terminal_phase_inert(pre: FlowView, store: StoreView, events: Seq<EventView>)
    requires
        pre.phase is Complete || pre.phase is Failed,
    ensures
        flow_run(pre, store, events) == (pre, store, Seq::<StateView>::empty()),
    decreases events.len(),
{
    if events.len() > 0 {
        lemma_terminal_phase_inert(pre, store, events.drop_first());
    }
}

/// A poll answered with a terminal rejection — `expired_token`,
/// `access_denied` or `invalid_grant` — ends the flow at once: `Failed`
/// carrying that status's cause is published, the records are untouched,
/// and the caller is told to halt, so no further poll is ever asked for.
pub proof fn lemma_terminal_rejection_fails_immediately(
    pre: FlowView,
    store: StoreView,
    st: TokenStatus,
    now: u64,
)
    requires
        pre.phase is Polling,
        !status_retryable(st),
    ensures
        ({
            let t = flow_next(
                pre,
                store,
                EventView::PollCompleted { result: TokenResultView::Error { error: st }, now },
            );
            &&& t.0.phase is Failed
            &&& t.1 == store
            &&& t.2.publish == Some(StateView::Failed { error: status_described(st) })
            &&& t.2.action == ActionView::Halt
        }),
{
}

/// A polling flow that sees any number of `authorization_pending` answers,
/// then a full grant, then a successful registration publishes exactly one
/// state: `Complete`. No `Failed` is ever published, the granted wallet
/// and the station identity end up in the durable records.
pub proof fn lemma_grant_after_pending_completes_once(
    pre: FlowView,
    store: StoreView,
    pendings: Seq<EventView>,
    access_token: Seq<char>,
    refresh_token: Seq<char>,
    expires_in: u64,
    now: u64,
    station_id: Seq<char>,
)
    requires
        pre.phase is Polling,
        forall|i: int| 0 <= i < pendings.len() ==> is_pending_poll(pendings[i]),
    ensures
        ({
            let grant = EventView::PollCompleted {
                result: TokenResultView::Full { access_token, refresh_token, expires_in },
                now,
            };
            let registered = EventView::RegistrationSucceeded { station_id };
            let t = flow_run(pre, store, pendings + seq![grant, registered]);
            &&& t.0.phase is Complete
            &&& t.2 == seq![StateView::Complete]
            &&& t.1.wallet == Some(granted_wallet(access_token, refresh_token, expires_in, now))
            &&& t.1.station_id == Some(station_id)
            &&& t.1.wifi == store.wifi
        }),
{
    let grant = EventView::PollCompleted {
        result: TokenResultView::Full { access_token, refresh_token, expires_in },
        now,
    };
    let registered = EventView::RegistrationSucceeded { station_id };
    let suffix = seq![grant, registered];
    lemma_flow_run_concat(pre, store, pendings, suffix);
    lemma_pending_polls_publish_nothing(pre, store, pendings);
    let t1 = flow_next(pre, store, grant);
    let t2 = flow_next(t1.0, t1.1, registered);
    assert(suffix[0] == grant);
    assert(suffix.drop_first() =~= seq![registered]);
    assert(seq![registered][0] == registered);
    assert(seq![registered].drop_first() =~= Seq::<EventView>::empty());
    assert(flow_run(t2.0, t2.1, Seq::<EventView>::empty()) == (
        t2.0,
        t2.1,
        Seq::<StateView>::empty(),
    ));
    assert(t2.2.publish == Some(StateView::Complete));
    assert(flow_run(t1.0, t1.1, seq![registered]) == (
        t2.0,
        t2.1,
        seq![StateView::Complete] + Seq::<StateView>::empty(),
    ));
    assert(t1.2.publish is None);
    assert(flow_run(pre, store, suffix) == (
        t2.0,
        t2.1,
        seq![StateView::Complete] + Seq::<StateView>::empty(),
    ));
    assert(seq![StateView::Complete] + Seq::<StateView>::empty() =~= seq![StateView::Complete]);
    assert(Seq::<StateView>::empty() + seq![StateView::Complete] =~= seq![StateView::Complete]);
}

impl OnboardingFlow {
    /// Starts one onboarding sequence with a fresh retry budget: publishes
    /// `ProvisioningWifi` and asks the caller to join the selected
    /// network.
    pub fn start(settings: OnboardingSettings, mac: String, store: &FlashState) -> (r: (
        OnboardingFlow,
        StepResult,
    ))
        ensures
            r.0@ == (FlowView {
                settings: settings@,
                mac: mac@,
                retries_left: ONBOARDING_RETRIES,
                phase: FlowPhaseView::Joining,
            }),
            r.1@ == (StepView {
                publish: Some(StateView::ProvisioningWifi),
                action: ActionView::Join {
                    settings: selected_join_settings(store@.wifi, settings@),
                },
            }),
    {
        let join = select_join_settings(store, &settings);
        let flow = OnboardingFlow {
            settings,
            mac,
            retries_left: ONBOARDING_RETRIES,
            phase: FlowPhase::Joining,
        };
        let step = StepResult {
            publish: Some(OnboardingState::ProvisioningWifi),
            action: FlowAction::Join { settings: join },
        };
        (flow, step)
    }

    /// Restarts the attempt or ends the flow, as the retry budget decides.
    fn fail_attempt(&mut self, store: &FlashState, cause: String) -> (r: StepResult)
        ensures
            final(self)@ == attempt_failed(old(self)@, store@, cause@).0,
            r@ == attempt_failed(old(self)@, store@, cause@).1,
    {
        if self.retries_left > 0 {
            self.retries_left = self.retries_left - 1;
            self.phase = FlowPhase::Joining;
            let join = select_join_settings(store, &self.settings);
            StepResult {
                publish: Some(OnboardingState::ProvisioningWifi),
                action: FlowAction::Join { settings: join },
            }
        } else {
            self.phase = FlowPhase::Failed;
            StepResult {
                publish: Some(OnboardingState::Failed { error: cause }),
                action: FlowAction::Halt,
            }
        }
    }

    /// Feeds one outside outcome to the state machine.
    pub fn step(&mut self, store: &mut FlashState, event: FlowEvent) -> (r: StepResult)
        ensures
            final(self)@ == flow_next(old(self)@, old(store)@, event@).0,
            final(store)@ == flow_next(old(self)@, old(store)@, event@).1,
            r@ == flow_next(old(self)@, old(store)@, event@).2,
    {
        match event {
            FlowEvent::JoinSucceeded { enriched } => {
                match self.phase {
                    FlowPhase::Joining => {
                        store.set_wifi_settings(enriched);
                        self.phase = FlowPhase::RequestingCode;
                        StepResult { publish: None, action: FlowAction::RequestDeviceCode }
                    },
                    _ => StepResult { publish: None, action: FlowAction::Ignore },
                }
            },
            FlowEvent::JoinFailed { cause } => {
                match self.phase {
                    FlowPhase::Joining => self.fail_attempt(store, cause),
                    _ => StepResult { publish: None, action: FlowAction::Ignore },
                }
            },
            FlowEvent::DeviceCodeReceived { grant } => {
                match self.phase {
                    FlowPhase::RequestingCode => {
                        let wait = if grant.interval < MIN_POLL_INTERVAL {
                            MIN_POLL_INTERVAL
                        } else {
                            grant.interval
                        };
                        self.phase = FlowPhase::Polling {
                            device_code: grant.device_code.clone(),
                            wait_seconds: wait,
                        };
                        StepResult {
                            publish: Some(
                                OnboardingState::AwaitingAuthorization {
                                    url: grant.verification_uri_complete,
                                },
                            ),
                            action: FlowAction::Poll {
                                device_code: grant.device_code,
                                wait_seconds: wait,
                            },
                        }
                    },
                    _ => StepResult { publish: None, action: FlowAction::Ignore },
                }
            },
            FlowEvent::DeviceCodeFailed { cause } => {
                match self.phase {
                    FlowPhase::RequestingCode => self.fail_attempt(store, cause),
                    _ => StepResult { publish: None, action: FlowAction::Ignore },
                }
            },
            FlowEvent::PollCompleted { result, now } => {
                let (device_code, wait_seconds) = match &self.phase {
                    FlowPhase::Polling { device_code, wait_seconds } => (
                        device_code.clone(),
                        *wait_seconds,
                    ),
                    _ => {
                        return StepResult { publish: None, action: FlowAction::Ignore };
                    },
                };
                match result {
                    TokenResult::Error { error } => {
                        if matches!(error, TokenStatus::AuthorizationPending) {
                            StepResult {
                                publish: None,
                                action: FlowAction::Poll { device_code, wait_seconds },
                            }
                        } else if matches!(error, TokenStatus::SlowDown) {
                            let wait = if wait_seconds <= u64::MAX - SLOW_DOWN_STEP {
                                wait_seconds + SLOW_DOWN_STEP
                            } else {
                                u64::MAX
                            };
                            self.phase = FlowPhase::Polling {
                                device_code: device_code.clone(),
                                wait_seconds: wait,
                            };
                            StepResult {
                                publish: None,
                                action: FlowAction::Poll { device_code, wait_seconds: wait },
                            }
                        } else {
                            self.phase = FlowPhase::Failed;
                            StepResult {
                                publish: Some(
                                    OnboardingState::Failed {
                                        error: String::from_str(error.describe()),
                                    },
                                ),
                                action: FlowAction::Halt,
                            }
                        }
                    },
                    TokenResult::AccessToken { .. } => StepResult {
                        publish: None,
                        action: FlowAction::Poll { device_code, wait_seconds },
                    },
                    TokenResult::Full { access_token, refresh_token, expires_in } => {
                        let lifetime = if expires_in <= u64::MAX - now {
                            expires_in
                        } else {
                            u64::MAX - now
                        };
                        let wallet = TokenWallet::new(
                            access_token.clone(),
                            refresh_token,
                            lifetime,
                            now,
                        );
                        store.set_token_wallet(wallet);
                        self.phase = FlowPhase::Registering;
                        let insert = build_station_insert(&self.settings, &self.mac);
                        StepResult {
                            publish: None,
                            action: FlowAction::Register { insert, access_token },
                        }
                    },
                }
            },
            FlowEvent::PollFailed { cause } => {
                match self.phase {
                    FlowPhase::Polling { .. } => self.fail_attempt(store, cause),
                    _ => StepResult { publish: None, action: FlowAction::Ignore },
                }
            },
            FlowEvent::TimeSyncFailed => {
                match self.phase {
                    FlowPhase::Polling { .. } => self.fail_attempt(
                        store,
                        String::from_str("time synchronization timed out"),
                    ),
                    _ => StepResult { publish: None, action: FlowAction::Ignore },
                }
            },
            FlowEvent::RegistrationSucceeded { station_id } => {
                match self.phase {
                    FlowPhase::Registering => {
                        store.set_station_id(station_id);
                        self.phase = FlowPhase::Complete;
                        StepResult {
                            publish: Some(OnboardingState::Complete),
                            action: FlowAction::Halt,
                        }
                    },
                    _ => StepResult { publish: None, action: FlowAction::Ignore },
                }
            },
            FlowEvent::RegistrationFailed { cause } => {
                match self.phase {
                    FlowPhase::Registering => self.fail_attempt(store, cause),
                    _ => StepResult { publish: None, action: FlowAction::Ignore },
                }
            },
        }
    }
}

} // verus!
