use ele_ds_client::es8388::{
    AdcInputChannel, AudioBitWidth, AudioDataFormat, Command, DacOutputMode, DacOutputVpp,
    MclkLrckRatio, RunMode, SampleRateMode, init_commands, start_commands,
};
use ele_ds_client::ota::{decide_upgrade, ota_step, OtaError, OtaEvent, OtaState, UpgradeQueryResponse};
use ele_ds_client::version::{judge_version, newer, parse_timestamp, strip_bin_suffix, Timestamp};
use ele_ds_client::weather::{
    accept_weather, day_summary, pick_city_id, DailyWeather, GeoResponse, Location, Refer,
    Weather, WeatherError, WeatherResponse,
};
use ele_ds_client::client::{
    buffer_sizes, is_https_address, wifi_credentials_ok, GeneralHttpRequest, RequestUserInfo,
};
use ele_ds_client::http_server::{generate_dir_file_failed_html, generate_dir_file_html, normalize_uri};
use ele_ds_client::config::build_time;

#[test]
fn register_addresses_match_datasheet() {
    assert_eq!(Command::ChipControl1.reg_addr(), 0x00);
    assert_eq!(Command::MasterModeControl.reg_addr(), 0x08);
    assert_eq!(Command::AdcControl8.reg_addr(), 0x10);
    assert_eq!(Command::DacControl30.reg_addr(), 0x34);
}

#[test]
fn register_defaults_match_datasheet() {
    assert_eq!(Command::ChipControl1.default_value(), 0x06);
    assert_eq!(Command::ChipPowerManagement.default_value(), 0xC3);
    assert_eq!(Command::DacControl9.default_value(), 0xF7);
    assert_eq!(Command::DacControl29.default_value(), 0xAA);
    assert_eq!(Command::ChipLowPower1.default_value(), 0x00);
}

#[test]
fn register_address_round_trip() {
    for addr in 0u8..=0x34 {
        let cmd = Command::from_reg_addr(addr).expect("address inside the register map");
        assert_eq!(cmd.reg_addr(), addr);
    }
    assert!(Command::from_reg_addr(0x35).is_none());
    assert!(Command::from_reg_addr(0xFF).is_none());
}

#[test]
fn bit_field_constructors_pack_fields() {
    assert_eq!(
        Command::build_adc_input_config(AdcInputChannel::Input2, AdcInputChannel::Differential),
        (0x01 << 6) | (0x03 << 4)
    );
    assert_eq!(
        Command::build_audio_format_config(AudioDataFormat::I2s, AudioBitWidth::Bit16),
        (0x03 << 2) | 0x00
    );
    assert_eq!(
        Command::build_sample_rate_config(SampleRateMode::DoubleSpeed, MclkLrckRatio::Ratio256),
        0x20 | 0x02
    );
    assert_eq!(Command::build_dac_output_config(DacOutputMode::Mono, DacOutputVpp::V4_0), 0x21);
}

#[test]
fn init_program_covers_selected_paths() {
    let adc_dac = init_commands(RunMode::AdcDac);
    assert_eq!(adc_dac.len(), 4 + 11 + 5);
    assert_eq!(adc_dac[0], (0x00, 0x16));
    assert_eq!(adc_dac[4], (0x03, 0xFF));
    let adc_only = init_commands(RunMode::Adc);
    assert_eq!(adc_only.len(), 4 + 5);
    assert_eq!(adc_only[4], (0x09, 0x22));
    let dac_only = init_commands(RunMode::Dac);
    assert_eq!(dac_only.len(), 4 + 11);
}

#[test]
fn start_program_powers_up_selected_paths() {
    let start = start_commands(RunMode::AdcDac);
    assert_eq!(start.len(), 6);
    assert_eq!(start[0], (0x03, 0x00));
    assert_eq!(start[1], (0x04, 0xFC));
    assert_eq!(start[4], (0x2E, 0x1E));
    assert_eq!(start_commands(RunMode::Adc).len(), 1);
    assert_eq!(start_commands(RunMode::Dac).len(), 5);
}

#[test]
fn newer_timestamp_wins() {
    assert!(judge_version("2025-06-01 12:00:01", "2025-06-01 12:00:00"));
    assert!(judge_version("2026-01-01 00:00:00", "2025-12-31 23:59:59"));
}

#[test]
fn equal_or_older_timestamp_is_no_update() {
    assert!(!judge_version("2025-06-01 12:00:00", "2025-06-01 12:00:00"));
    assert!(!judge_version("2024-06-01 12:00:00", "2025-06-01 12:00:00"));
}

#[test]
fn malformed_timestamp_on_either_side_is_no_update() {
    assert!(!judge_version("not a time", "2025-06-01 12:00:00"));
    assert!(!judge_version("2026-06-01 12:00:00", "garbage"));
    assert!(!judge_version("2026-13-01 12:00:00", "2025-06-01 12:00:00"));
    assert!(!judge_version("2026-06-01 24:00:00", "2025-06-01 12:00:00"));
    assert!(!judge_version("", ""));
}

#[test]
fn bin_suffix_is_stripped_before_comparison() {
    assert!(judge_version("2026-06-01 12:00:00.bin", "2025-06-01 12:00:00"));
    assert_eq!(strip_bin_suffix("2026-06-01 12:00:00.bin"), "2026-06-01 12:00:00");
    assert_eq!(strip_bin_suffix("2026-06-01 12:00:00"), "2026-06-01 12:00:00");
    assert_eq!(strip_bin_suffix(".bin"), "");
}

#[test]
fn calendar_validity_is_checked() {
    assert!(parse_timestamp("2023-02-29 00:00:00").is_none());
    assert!(parse_timestamp("2024-02-29 00:00:00").is_some());
    assert!(parse_timestamp("2100-02-29 00:00:00").is_none());
    assert!(parse_timestamp("2000-02-29 00:00:00").is_some());
    assert!(parse_timestamp("2025-04-31 00:00:00").is_none());
    assert!(parse_timestamp("2025-00-10 00:00:00").is_none());
    let t = parse_timestamp("2025-06-01 12:34:56").unwrap();
    assert_eq!(
        t,
        Timestamp { year: 2025, month: 6, day: 1, hour: 12, minute: 34, second: 56 }
    );
}

#[test]
fn field_order_decides_newer() {
    let a = Timestamp { year: 2025, month: 6, day: 1, hour: 12, minute: 0, second: 0 };
    let b = Timestamp { year: 2025, month: 5, day: 30, hour: 23, minute: 59, second: 59 };
    assert!(newer(a, b));
    assert!(!newer(b, a));
    assert!(!newer(a, a));
}

#[test]
fn upgrade_decision_follows_status_cmd_and_version() {
    let response = UpgradeQueryResponse {
        version: "2026-01-01 00:00:00".to_string(),
        device_type: "ele_ds_client_rust".to_string(),
        pack_size: 1024,
        download_url: "/upgrade/fw.bin".to_string(),
    };
    let wanted = decide_upgrade(200, "UpgradeQuery_ACK", response.clone(), build_time());
    let got = wanted.unwrap().expect("a strictly newer version is wanted");
    assert_eq!(got.download_url, "/upgrade/fw.bin");
    assert_eq!(got.pack_size, 1024);

    let bad_status = decide_upgrade(500, "UpgradeQuery_ACK", response.clone(), build_time());
    assert_eq!(bad_status.unwrap_err(), OtaError::BadStatus(500));

    let wrong_cmd = decide_upgrade(200, "SomethingElse", response.clone(), build_time());
    assert!(wrong_cmd.unwrap().is_none());

    let old = UpgradeQueryResponse { version: "2020-01-01 00:00:00".to_string(), ..response };
    assert!(decide_upgrade(200, "UpgradeQuery_ACK", old, build_time()).unwrap().is_none());
}

#[test]
fn ota_session_walks_the_state_machine() {
    let mut s = OtaState::Idle;
    s = ota_step(s, OtaEvent::SyncStarted);
    assert_eq!(s, OtaState::Querying);
    s = ota_step(s, OtaEvent::UpdateNeeded);
    assert_eq!(s, OtaState::Downloading);
    s = ota_step(s, OtaEvent::CopyCompleted);
    assert_eq!(s, OtaState::Flashing);
    s = ota_step(s, OtaEvent::Finalized);
    assert_eq!(s, OtaState::Rebooting);
}

#[test]
fn ota_failures_abort_and_a_new_connection_requeries() {
    assert_eq!(ota_step(OtaState::Querying, OtaEvent::QueryFailed), OtaState::Aborted);
    assert_eq!(ota_step(OtaState::Downloading, OtaEvent::CopyFailed), OtaState::Aborted);
    assert_eq!(ota_step(OtaState::Flashing, OtaEvent::FinalizeFailed), OtaState::Aborted);
    assert_eq!(ota_step(OtaState::Aborted, OtaEvent::SyncStarted), OtaState::Querying);
    assert_eq!(ota_step(OtaState::Querying, OtaEvent::UpdateNotNeeded), OtaState::NoUpdate);
    // Events outside the current state change nothing: no resume of a
    // partial download.
    assert_eq!(ota_step(OtaState::Aborted, OtaEvent::CopyCompleted), OtaState::Aborted);
    assert_eq!(ota_step(OtaState::Idle, OtaEvent::UpdateNeeded), OtaState::Idle);
}

fn location(id: &str) -> Location {
    Location {
        name: "Fuzhou".to_string(),
        id: id.to_string(),
        lat: "26.07".to_string(),
        lon: "119.30".to_string(),
        adm2: "Fuzhou".to_string(),
        adm1: "Fujian".to_string(),
        country: "China".to_string(),
        tz: "Asia/Shanghai".to_string(),
    }
}

#[test]
fn city_id_comes_from_first_listed_location() {
    let geo = GeoResponse {
        code: "200".to_string(),
        location: vec![location("101230101"), location("other")],
    };
    assert_eq!(pick_city_id(&geo).unwrap(), "101230101");
}

#[test]
fn city_lookup_fails_on_error_code_or_no_location() {
    let bad_code = GeoResponse { code: "404".to_string(), location: vec![location("x")] };
    assert_eq!(pick_city_id(&bad_code).unwrap_err(), WeatherError::CityLookupFailed);
    let empty = GeoResponse { code: "200".to_string(), location: vec![] };
    assert_eq!(pick_city_id(&empty).unwrap_err(), WeatherError::CityLookupFailed);
}

fn daily(min: &str, max: &str, text: &str) -> DailyWeather {
    DailyWeather {
        fx_date: "2025-06-01".to_string(),
        sunrise: String::new(),
        sunset: String::new(),
        moonrise: String::new(),
        moonset: String::new(),
        moon_phase: String::new(),
        moon_phase_icon: String::new(),
        temp_max: max.to_string(),
        temp_min: min.to_string(),
        icon_day: String::new(),
        text_day: text.to_string(),
        icon_night: String::new(),
        text_night: String::new(),
        wind360_day: String::new(),
        wind_dir_day: String::new(),
        wind_scale_day: String::new(),
        wind_speed_day: String::new(),
        wind360_night: String::new(),
        wind_dir_night: String::new(),
        wind_scale_night: String::new(),
        wind_speed_night: String::new(),
        humidity: String::new(),
        precip: String::new(),
        pressure: String::new(),
        vis: String::new(),
        cloud: String::new(),
        uv_index: String::new(),
    }
}

#[test]
fn weather_acceptance_and_summaries() {
    let weather = WeatherResponse {
        code: "200".to_string(),
        update_time: String::new(),
        fx_link: String::new(),
        daily: vec![daily("20", "28", "Sunny"), daily("19", "25", "Cloudy"), daily("18", "22", "Rain")],
        refer: Refer { sources: vec![], license: vec![] },
    };
    assert!(accept_weather(&weather));
    assert_eq!(day_summary(&weather.daily[0]), "20-28 Sunny");
    let lines = weather.get_ui_need_data().unwrap();
    assert_eq!(lines[1], "19-25 Cloudy");
    assert_eq!(lines[2], "18-22 Rain");

    let short = WeatherResponse { daily: vec![daily("1", "2", "x")], ..weather.clone() };
    assert!(short.get_ui_need_data().is_none());
    let refused = WeatherResponse { code: "402".to_string(), ..weather };
    assert!(!accept_weather(&refused));
}

#[test]
fn weather_client_remembers_city_and_key() {
    let w = Weather::new("fuzhou", "SECRET-REDACTED");
    assert_eq!(w.city, "fuzhou");
    assert_eq!(w.key, "SECRET-REDACTED");
}

#[test]
fn https_detection_ignores_case_and_needs_five_chars() {
    assert!(is_https_address("https://server"));
    assert!(is_https_address("HTTPS://server"));
    assert!(is_https_address("HttpS"));
    assert!(!is_https_address("http://server"));
    assert!(!is_https_address("htt"));
    assert!(!is_https_address(""));
}

#[test]
fn buffer_sizes_grow_for_tls() {
    assert_eq!(buffer_sizes(true), (10240, 4096));
    assert_eq!(buffer_sizes(false), (4096, 2048));
}

#[test]
fn uri_normalization_roots_and_terminates_paths() {
    assert_eq!(normalize_uri(""), "/fat/");
    assert_eq!(normalize_uri("/"), "/fat/");
    assert_eq!(normalize_uri("/fat/music"), "/fat/music/");
    assert_eq!(normalize_uri("/fat/music/"), "/fat/music/");
}

#[test]
fn request_envelope_advances_sequence_and_carries_payload() {
    let req = GeneralHttpRequest::new_request(41, "{\"x\":1}".to_string());
    assert_eq!(req.seq, 42);
    assert_eq!(req.payload, "{\"x\":1}");
    assert_eq!(req.user_info.username, "test");
    let defaults = RequestUserInfo::default();
    assert_eq!(defaults.password, "test");
}

#[test]
fn wifi_credential_limits() {
    assert!(wifi_credentials_ok("net", "pass"));
    assert!(wifi_credentials_ok(&"s".repeat(32), &"p".repeat(64)));
    assert!(!wifi_credentials_ok(&"s".repeat(33), "pass"));
    assert!(!wifi_credentials_ok("net", &"p".repeat(65)));
}

#[test]
fn directory_listing_html_is_exact() {
    let items = vec![("music".to_string(), true), ("a.txt".to_string(), false)];
    let html = generate_dir_file_html("/fat/stuff/", &items);
    assert_eq!(
        html,
        "<html><head><meta charset='utf-8'><title>ESP32 File Server</title></head><body>\
         <h1>current direct: /fat/stuff/</h1>\
         <p><a href='..'>[ \u{2B06}\u{FE0F} return ]</a></p><ul>\
         <li>\u{1F4C1} <a href='/fat/stuff/music/'>music</a></li>\
         <li>\u{1F4C4} <a href='/fat/stuff/a.txt'>a.txt</a></li>\
         </ul></body></html>"
    );
    // The storage root gets no parent link.
    let root = generate_dir_file_html("/fat/", &vec![]);
    assert!(!root.contains("return ]"));
    let failed = generate_dir_file_failed_html("/fat/x/", "missing");
    assert!(failed.contains("<p><strong>Path:</strong> /fat/x/</p>"));
    assert!(failed.contains("<p><strong>Reason:</strong> missing</p>"));
    assert!(failed.starts_with("<html><head><meta charset='utf-8'><title>Failed - ESP32</title>"));
}
