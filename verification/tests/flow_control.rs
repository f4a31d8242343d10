use mycelium_station::auth0::{DeviceCodeResponse, TokenResult, TokenStatus};
use mycelium_station::control::{on_command, CommandOutcome};
use mycelium_station::flow::{
    FlowAction, FlowEvent, OnboardingFlow, StepResult, MIN_POLL_INTERVAL, ONBOARDING_RETRIES,
};
use mycelium_station::onboarding::{OnboardingSettings, OnboardingState};
use mycelium_station::settings::FlashState;
use mycelium_station::tokens::TokenWallet;
use mycelium_station::wifi::MyceliumWifiSettings;

fn settings() -> OnboardingSettings {
    OnboardingSettings {
        name: String::from("Plant1"),
        location: String::from("Kitchen"),
        description: String::from(""),
        wifi_ssid: String::from("Net"),
        wifi_password: String::from("pw"),
    }
}

fn grant() -> DeviceCodeResponse {
    DeviceCodeResponse {
        device_code: String::from("dc-1"),
        user_code: String::from("ABCD-EFGH"),
        verification_uri: String::from("https://issuer/activate"),
        verification_uri_complete: String::from("https://issuer/activate?user_code=ABCD-EFGH"),
        expires_in: 900,
        interval: 5,
    }
}

fn record(published: &mut Vec<OnboardingState>, step: &StepResult) {
    if let Some(state) = &step.publish {
        published.push(state.clone());
    }
}

/// Drives a flow to its polling phase, collecting publications.
fn flow_at_polling(
    store: &mut FlashState,
    published: &mut Vec<OnboardingState>,
) -> OnboardingFlow {
    let (mut flow, step) = OnboardingFlow::start(settings(), String::from("AA:BB"), store);
    record(published, &step);
    let step = flow.step(
        store,
        FlowEvent::JoinSucceeded {
            enriched: MyceliumWifiSettings::basic(String::from("Net"), String::from("pw")),
        },
    );
    record(published, &step);
    let step = flow.step(store, FlowEvent::DeviceCodeReceived { grant: grant() });
    record(published, &step);
    flow
}

#[test]
fn matching_ssid_reuses_persisted_enriched_settings() {
    let mut store = FlashState::new();
    store.set_wifi_settings(MyceliumWifiSettings {
        ssid: String::from("Greenhouse"),
        password: String::from("old-secret"),
        channel: Some(6),
        bssid: Some([1, 2, 3, 4, 5, 6]),
    });
    let incoming = OnboardingSettings {
        name: String::from("Plant1"),
        location: String::from("Kitchen"),
        description: String::from(""),
        wifi_ssid: String::from("Greenhouse"),
        wifi_password: String::from("fresh-secret"),
    };
    let (_, step) = OnboardingFlow::start(incoming, String::from("AA:BB"), &store);
    match step.action {
        FlowAction::Join { settings } => {
            // The persisted, already-enriched settings are reused whole.
            assert_eq!(settings.ssid, "Greenhouse");
            assert_eq!(settings.password, "old-secret");
            assert_eq!(settings.channel, Some(6));
            assert_eq!(settings.bssid, Some([1, 2, 3, 4, 5, 6]));
        }
        _ => panic!("expected a join action"),
    }
}

#[test]
fn different_ssid_uses_fresh_settings() {
    let mut store = FlashState::new();
    store.set_wifi_settings(MyceliumWifiSettings {
        ssid: String::from("Greenhouse"),
        password: String::from("old-secret"),
        channel: Some(6),
        bssid: Some([1, 2, 3, 4, 5, 6]),
    });
    let (_, step) = OnboardingFlow::start(settings(), String::from("AA:BB"), &store);
    match step.action {
        FlowAction::Join { settings } => {
            assert_eq!(settings.ssid, "Net");
            assert_eq!(settings.password, "pw");
            assert_eq!(settings.channel, None);
            assert_eq!(settings.bssid, None);
        }
        _ => panic!("expected a join action"),
    }
}

#[test]
fn five_pending_polls_then_grant_publish_exactly_one_complete() {
    let mut store = FlashState::new();
    let mut published = Vec::new();
    let mut flow = flow_at_polling(&mut store, &mut published);
    for _ in 0..5 {
        let step = flow.step(
            &mut store,
            FlowEvent::PollCompleted {
                result: TokenResult::Error { error: TokenStatus::AuthorizationPending },
                now: 0,
            },
        );
        record(&mut published, &step);
        assert!(matches!(step.action, FlowAction::Poll { .. }));
    }
    let step = flow.step(
        &mut store,
        FlowEvent::PollCompleted {
            result: TokenResult::Full {
                access_token: String::from("A"),
                refresh_token: String::from("R"),
                expires_in: 3600,
            },
            now: 1000,
        },
    );
    record(&mut published, &step);
    assert!(matches!(step.action, FlowAction::Register { .. }));
    let step = flow.step(
        &mut store,
        FlowEvent::RegistrationSucceeded { station_id: String::from("st-1") },
    );
    record(&mut published, &step);

    let completes = published
        .iter()
        .filter(|s| matches!(s, OnboardingState::Complete))
        .count();
    let faileds = published
        .iter()
        .filter(|s| matches!(s, OnboardingState::Failed { .. }))
        .count();
    assert_eq!(completes, 1);
    assert_eq!(faileds, 0);
}

#[test]
fn access_denied_fails_immediately_and_halts() {
    let mut store = FlashState::new();
    let mut published = Vec::new();
    let mut flow = flow_at_polling(&mut store, &mut published);
    let step = flow.step(
        &mut store,
        FlowEvent::PollCompleted {
            result: TokenResult::Error { error: TokenStatus::AccessDenied },
            now: 0,
        },
    );
    match &step.publish {
        Some(OnboardingState::Failed { error }) => {
            assert_eq!(error, "authorization was denied");
        }
        _ => panic!("expected a failed publication"),
    }
    assert!(matches!(step.action, FlowAction::Halt));
    // No further poll is ever asked for: the flow is inert.
    let step = flow.step(
        &mut store,
        FlowEvent::PollCompleted {
            result: TokenResult::Error { error: TokenStatus::AuthorizationPending },
            now: 0,
        },
    );
    assert!(step.publish.is_none());
    assert!(matches!(step.action, FlowAction::Ignore));
}

#[test]
fn access_token_only_keeps_polling_during_onboarding() {
    let mut store = FlashState::new();
    let mut published = Vec::new();
    let mut flow = flow_at_polling(&mut store, &mut published);
    let step = flow.step(
        &mut store,
        FlowEvent::PollCompleted {
            result: TokenResult::AccessToken {
                access_token: String::from("A"),
                expires_in: 60,
            },
            now: 0,
        },
    );
    assert!(step.publish.is_none());
    assert!(matches!(step.action, FlowAction::Poll { .. }));
}

#[test]
fn slow_down_lengthens_the_wait() {
    let mut store = FlashState::new();
    let mut published = Vec::new();
    let mut flow = flow_at_polling(&mut store, &mut published);
    let step = flow.step(
        &mut store,
        FlowEvent::PollCompleted {
            result: TokenResult::Error { error: TokenStatus::SlowDown },
            now: 0,
        },
    );
    match step.action {
        FlowAction::Poll { wait_seconds, .. } => assert_eq!(wait_seconds, 10),
        _ => panic!("expected a poll action"),
    }
}

#[test]
fn declared_interval_below_minimum_is_raised() {
    let mut store = FlashState::new();
    let (mut flow, _) = OnboardingFlow::start(settings(), String::from("AA:BB"), &store);
    flow.step(
        &mut store,
        FlowEvent::JoinSucceeded {
            enriched: MyceliumWifiSettings::basic(String::from("Net"), String::from("pw")),
        },
    );
    let mut short = grant();
    short.interval = 1;
    let step = flow.step(&mut store, FlowEvent::DeviceCodeReceived { grant: short });
    match step.action {
        FlowAction::Poll { wait_seconds, .. } => assert_eq!(wait_seconds, MIN_POLL_INTERVAL),
        _ => panic!("expected a poll action"),
    }
}

#[test]
fn exhausted_retry_budget_publishes_failed_with_cause() {
    let mut store = FlashState::new();
    let (mut flow, _) = OnboardingFlow::start(settings(), String::from("AA:BB"), &store);
    for _ in 0..ONBOARDING_RETRIES {
        let step = flow.step(
            &mut store,
            FlowEvent::JoinFailed { cause: String::from("wifi join failed") },
        );
        assert!(matches!(
            step.publish,
            Some(OnboardingState::ProvisioningWifi)
        ));
        assert!(matches!(step.action, FlowAction::Join { .. }));
    }
    let step = flow.step(
        &mut store,
        FlowEvent::JoinFailed { cause: String::from("wifi join failed") },
    );
    match &step.publish {
        Some(OnboardingState::Failed { error }) => assert_eq!(error, "wifi join failed"),
        _ => panic!("expected a failed publication"),
    }
    assert!(matches!(step.action, FlowAction::Halt));
}

#[test]
fn end_to_end_initialize_command() {
    let raw = "{\"_type\":\"Initialize\",\"settings\":{\"name\":\"Plant1\",\"location\":\"Kitchen\",\"description\":\"\",\"wifi_ssid\":\"Net\",\"wifi_password\":\"pw\"}}";
    let mut store = FlashState::new();
    let mut published = Vec::new();

    let (mut flow, step) = match on_command(&store, String::from("AA:BB"), raw) {
        CommandOutcome::Started { flow, step } => (flow, step),
        _ => panic!("expected the command to start a flow"),
    };
    record(&mut published, &step);
    match &step.action {
        FlowAction::Join { settings } => {
            assert_eq!(settings.ssid, "Net");
            assert_eq!(settings.password, "pw");
        }
        _ => panic!("expected a join action"),
    }

    let step = flow.step(
        &mut store,
        FlowEvent::JoinSucceeded {
            enriched: MyceliumWifiSettings {
                ssid: String::from("Net"),
                password: String::from("pw"),
                channel: Some(6),
                bssid: Some([1, 2, 3, 4, 5, 6]),
            },
        },
    );
    record(&mut published, &step);
    let step = flow.step(&mut store, FlowEvent::DeviceCodeReceived { grant: grant() });
    record(&mut published, &step);
    // The human authorizes between the first and the second poll.
    let step = flow.step(
        &mut store,
        FlowEvent::PollCompleted {
            result: TokenResult::Error { error: TokenStatus::AuthorizationPending },
            now: 0,
        },
    );
    record(&mut published, &step);
    let step = flow.step(
        &mut store,
        FlowEvent::PollCompleted {
            result: TokenResult::Full {
                access_token: String::from("A"),
                refresh_token: String::from("R"),
                expires_in: 3600,
            },
            now: 1000,
        },
    );
    record(&mut published, &step);
    let step = flow.step(
        &mut store,
        FlowEvent::RegistrationSucceeded {
            station_id: String::from("11111111-1111-1111-1111-111111111111"),
        },
    );
    record(&mut published, &step);

    assert_eq!(published.len(), 3);
    assert!(matches!(published[0], OnboardingState::ProvisioningWifi));
    match &published[1] {
        OnboardingState::AwaitingAuthorization { url } => {
            assert_eq!(url, "https://issuer/activate?user_code=ABCD-EFGH");
        }
        _ => panic!("expected the authorization url"),
    }
    assert!(matches!(published[2], OnboardingState::Complete));

    assert!(store.get_wifi_settings().is_some());
    assert_eq!(store.get_wifi_settings().unwrap().channel, Some(6));
    let wallet: &TokenWallet = store.get_token_wallet().unwrap();
    assert_eq!(wallet.access_token, "A");
    assert_eq!(wallet.refresh_token, "R");
    assert_eq!(wallet.expires_at, 4600);
    assert_eq!(
        store.get_station_id().unwrap(),
        "11111111-1111-1111-1111-111111111111"
    );
}

#[test]
fn reboot_command_is_handed_through_without_publication() {
    let store = FlashState::new();
    let outcome = on_command(&store, String::from("AA:BB"), "{\"_type\":\"Reboot\"}");
    assert!(matches!(outcome, CommandOutcome::Reboot));
    // Nothing was persisted and nothing is to be published.
    assert!(!store.has_station_id());
    assert!(store.get_wifi_settings().is_none());
}

#[test]
fn unrecognized_commands_are_rejected() {
    let store = FlashState::new();
    assert!(matches!(
        on_command(&store, String::from("AA:BB"), "{\"_type\":\"SelfDestruct\"}"),
        CommandOutcome::Rejected
    ));
    assert!(matches!(
        on_command(&store, String::from("AA:BB"), "not json"),
        CommandOutcome::Rejected
    ));
}
