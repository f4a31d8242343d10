use mycelium_station::auth0::TokenResult;
use mycelium_station::codec::{decode_command, encode_command, encode_state};
use mycelium_station::cycle::{apply_refresh_result, plan_checkin, refresh_needed};
use mycelium_station::mycelium::{
    bearer_header, build_station_insert, checkin_url, classify_status, mac_string, stations_url,
    timestamp_to_rfc3339, MyceliumError, WateringSchedule,
};
use mycelium_station::onboarding::{OnboardingCommand, OnboardingSettings, OnboardingState};
use mycelium_station::settings::FlashState;
use mycelium_station::tokens::TokenWallet;

fn sample_settings() -> OnboardingSettings {
    OnboardingSettings {
        name: String::from("Plant1"),
        location: String::from("Kitchen"),
        description: String::from(""),
        wifi_ssid: String::from("Net"),
        wifi_password: String::from("pw"),
    }
}

#[test]
fn decode_accepts_the_documented_initialize_command() {
    let raw = "{\"_type\":\"Initialize\",\"settings\":{\"name\":\"Plant1\",\"location\":\"Kitchen\",\"description\":\"\",\"wifi_ssid\":\"Net\",\"wifi_password\":\"pw\"}}";
    match decode_command(raw) {
        Some(OnboardingCommand::Initialize { settings }) => {
            assert_eq!(settings.name, "Plant1");
            assert_eq!(settings.location, "Kitchen");
            assert_eq!(settings.description, "");
            assert_eq!(settings.wifi_ssid, "Net");
            assert_eq!(settings.wifi_password, "pw");
        }
        _ => panic!("expected an initialize command"),
    }
}

#[test]
fn decode_accepts_the_reboot_command() {
    assert!(matches!(
        decode_command("{\"_type\":\"Reboot\"}"),
        Some(OnboardingCommand::Reboot)
    ));
}

#[test]
fn decode_rejects_out_of_grammar_bytes() {
    // An unknown tag.
    assert!(decode_command("{\"_type\":\"Shutdown\"}").is_none());
    // A missing field.
    assert!(decode_command(
        "{\"_type\":\"Initialize\",\"settings\":{\"name\":\"a\",\"location\":\"b\"}}"
    )
    .is_none());
    // Trailing bytes.
    assert!(decode_command("{\"_type\":\"Reboot\"} ").is_none());
    // An unterminated string.
    assert!(decode_command("{\"_type\":\"Initialize\",\"settings\":{\"name\":\"a").is_none());
    // An unknown escape.
    assert!(decode_command(
        "{\"_type\":\"Initialize\",\"settings\":{\"name\":\"\\x\",\"location\":\"\",\"description\":\"\",\"wifi_ssid\":\"\",\"wifi_password\":\"\"}}"
    )
    .is_none());
    // A raw control character inside a string.
    assert!(decode_command(
        "{\"_type\":\"Initialize\",\"settings\":{\"name\":\"a\u{1}\",\"location\":\"\",\"description\":\"\",\"wifi_ssid\":\"\",\"wifi_password\":\"\"}}"
    )
    .is_none());
    assert!(decode_command("").is_none());
}

#[test]
fn encode_then_decode_round_trips() {
    let command = OnboardingCommand::Initialize { settings: sample_settings() };
    let encoded = encode_command(&command);
    assert_eq!(
        encoded,
        "{\"_type\":\"Initialize\",\"settings\":{\"name\":\"Plant1\",\"location\":\"Kitchen\",\"description\":\"\",\"wifi_ssid\":\"Net\",\"wifi_password\":\"pw\"}}"
    );
    match decode_command(&encoded) {
        Some(OnboardingCommand::Initialize { settings }) => {
            assert_eq!(settings.name, "Plant1");
            assert_eq!(settings.wifi_password, "pw");
        }
        _ => panic!("expected the command back"),
    }
}

#[test]
fn escapes_round_trip() {
    let tricky = OnboardingCommand::Initialize {
        settings: OnboardingSettings {
            name: String::from("a\"b\\c"),
            location: String::from("line\nbreak"),
            description: String::from("tab\there"),
            wifi_ssid: String::from("Net"),
            wifi_password: String::from("p\rw"),
        },
    };
    let encoded = encode_command(&tricky);
    assert!(encoded.contains("a\\\"b\\\\c"));
    assert!(encoded.contains("line\\nbreak"));
    match decode_command(&encoded) {
        Some(OnboardingCommand::Initialize { settings }) => {
            assert_eq!(settings.name, "a\"b\\c");
            assert_eq!(settings.location, "line\nbreak");
            assert_eq!(settings.description, "tab\there");
            assert_eq!(settings.wifi_password, "p\rw");
        }
        _ => panic!("expected the command back"),
    }
}

#[test]
fn published_states_encode_exactly() {
    assert_eq!(
        encode_state(&OnboardingState::AwaitingSettings),
        "{\"_type\":\"AwaitingSettings\"}"
    );
    assert_eq!(
        encode_state(&OnboardingState::ProvisioningWifi),
        "{\"_type\":\"ProvisioningWifi\"}"
    );
    assert_eq!(
        encode_state(&OnboardingState::Complete),
        "{\"_type\":\"Complete\"}"
    );
    assert_eq!(
        encode_state(&OnboardingState::Failed { error: String::from("wifi \"x\" lost") }),
        "{\"_type\":\"Failed\",\"error\":\"wifi \\\"x\\\" lost\"}"
    );
    assert_eq!(
        encode_state(&OnboardingState::AwaitingAuthorization {
            url: String::from("https://issuer/activate?user_code=ABCD")
        }),
        "{\"_type\":\"AwaitingAuthorization\",\"url\":\"https://issuer/activate?user_code=ABCD\"}"
    );
}

#[test]
fn refresh_is_needed_only_past_expiry() {
    let mut store = FlashState::new();
    assert!(!refresh_needed(&store, 5000));
    store.set_token_wallet(TokenWallet::new(
        String::from("a"),
        String::from("r"),
        100,
        1000,
    ));
    assert!(!refresh_needed(&store, 1100));
    assert!(refresh_needed(&store, 1101));
}

#[test]
fn refresh_response_updates_only_the_access_token() {
    let mut store = FlashState::new();
    store.set_token_wallet(TokenWallet::new(
        String::from("a"),
        String::from("r"),
        100,
        1000,
    ));
    apply_refresh_result(
        &mut store,
        TokenResult::AccessToken { access_token: String::from("b"), expires_in: 60 },
        2000,
    );
    let w = store.get_token_wallet().unwrap();
    assert_eq!(w.access_token, "b");
    assert_eq!(w.refresh_token, "r");
    assert_eq!(w.expires_at, 2060);
}

#[test]
fn full_refresh_response_rotates_the_refresh_token() {
    let mut store = FlashState::new();
    store.set_token_wallet(TokenWallet::new(
        String::from("a"),
        String::from("r"),
        100,
        1000,
    ));
    apply_refresh_result(
        &mut store,
        TokenResult::Full {
            access_token: String::from("b"),
            refresh_token: String::from("r2"),
            expires_in: 60,
        },
        2000,
    );
    let w = store.get_token_wallet().unwrap();
    assert_eq!(w.access_token, "b");
    assert_eq!(w.refresh_token, "r2");
    assert_eq!(w.expires_at, 2060);
}

#[test]
fn provider_error_leaves_the_old_wallet_in_place() {
    let mut store = FlashState::new();
    store.set_token_wallet(TokenWallet::new(
        String::from("a"),
        String::from("r"),
        100,
        1000,
    ));
    apply_refresh_result(
        &mut store,
        TokenResult::Error { error: mycelium_station::auth0::TokenStatus::InvalidGrant },
        2000,
    );
    let w = store.get_token_wallet().unwrap();
    assert_eq!(w.access_token, "a");
    assert_eq!(w.refresh_token, "r");
    assert_eq!(w.expires_at, 1100);
}

#[test]
fn checkin_plan_carries_token_identity_and_timestamp() {
    let mut store = FlashState::new();
    store.set_token_wallet(TokenWallet::new(
        String::from("tok"),
        String::from("r"),
        100,
        1000,
    ));
    store.set_station_id(String::from("st-1"));
    let plan = plan_checkin(&store, 1516991409).unwrap();
    assert_eq!(plan.access_token, "tok");
    assert_eq!(plan.station_id, "st-1");
    assert_eq!(plan.timestamp, "2018-01-26T18:30:09Z");
}

#[test]
fn checkin_plan_needs_a_station_identity() {
    let mut store = FlashState::new();
    store.set_token_wallet(TokenWallet::new(
        String::from("tok"),
        String::from("r"),
        100,
        1000,
    ));
    assert!(plan_checkin(&store, 0).is_none());
}

#[test]
fn timestamps_render_as_rfc3339_utc() {
    assert_eq!(timestamp_to_rfc3339(0).unwrap(), "1970-01-01T00:00:00Z");
    assert_eq!(
        timestamp_to_rfc3339(1516991409).unwrap(),
        "2018-01-26T18:30:09Z"
    );
}

#[test]
fn backend_urls_and_headers_are_exact() {
    assert_eq!(
        stations_url("https://api.example.com"),
        "https://api.example.com/api/stations"
    );
    assert_eq!(
        checkin_url("https://api.example.com", "st-1"),
        "https://api.example.com/api/stations/st-1/checkin"
    );
    assert_eq!(bearer_header("tok"), "Bearer tok");
}

#[test]
fn non_200_statuses_are_hard_failures() {
    assert!(classify_status(200).is_ok());
    assert_eq!(
        classify_status(503),
        Err(MyceliumError::UnexpectedResponse { status: 503 })
    );
}

#[test]
fn registration_record_is_derived_from_settings() {
    let insert = build_station_insert(&sample_settings(), &String::from("AA:BB:CC:DD:EE:FF"));
    assert_eq!(insert.mac, "AA:BB:CC:DD:EE:FF");
    assert_eq!(insert.name, "Plant1");
    assert_eq!(insert.location, "Kitchen");
    assert_eq!(insert.description, "");
    match insert.watering_schedule {
        WateringSchedule::Threshold { below_soil_pf, period } => {
            assert_eq!(below_soil_pf, 500);
            assert_eq!(period, "5 seconds");
        }
        _ => panic!("expected the threshold schedule"),
    }
}

#[test]
fn hardware_addresses_render_zero_padded_uppercase() {
    assert_eq!(
        mac_string(&[0x0A, 0xFF, 0x00, 0x12, 0x34, 0x56]),
        "0A:FF:00:12:34:56"
    );
}
