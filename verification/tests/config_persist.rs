use ele_ds_client::ActivePage;
use ele_ds_client::config::{
    build_time, config_to_json, load_config, parse_config, DeviceConfig, DeviceInfo, UserInfo,
};
use ele_ds_client::textfmt::{centi_string, str_equal, u32_string};
use ele_ds_client::ui::{
    digit_segments, popup_area, select_page_content, status_title, PageContent, Rect,
    ScreenError, UiInfo,
};
use ele_ds_client::screen::AllSensorData;

fn sample_config() -> DeviceConfig {
    let mut c: DeviceConfig = Default::default();
    c.wifi_ssid = Some("esp-2.4G".to_string());
    c.wifi_password = Some("12345678..".to_string());
    c.city = "fuzhou".to_string();
    c.requery_upgrade_time_minutes = 1440;
    c.boot_times = 17;
    c.last_weather_fetch_hour = 9;
    c.weather_cache = Some("{\"code\":\"200\",\"daily\":[]}".to_string());
    c.current_page = ActivePage::Sensor;
    c.set_user_info(UserInfo { username: "user".to_string(), password: "pw\\end\"q".to_string() });
    c
}

fn assert_configs_equal(a: &DeviceConfig, b: &DeviceConfig) {
    assert_eq!(a.wifi_ssid, b.wifi_ssid);
    assert_eq!(a.wifi_password, b.wifi_password);
    assert_eq!(a.time_zone, b.time_zone);
    assert_eq!(a.city, b.city);
    assert_eq!(a.requery_upgrade_time_minutes, b.requery_upgrade_time_minutes);
    assert_eq!(a.wifi_max_link_seconds, b.wifi_max_link_seconds);
    assert_eq!(a.wifi_reconnect_boot_interval, b.wifi_reconnect_boot_interval);
    assert_eq!(a.boot_times, b.boot_times);
    assert_eq!(a.last_weather_fetch_hour, b.last_weather_fetch_hour);
    assert_eq!(a.weather_cache, b.weather_cache);
    assert_eq!(a.current_page, b.current_page);
    assert_eq!(a.user_info.username, b.user_info.username);
    assert_eq!(a.user_info.password, b.user_info.password);
    assert_eq!(a.device_info.version, b.device_info.version);
    assert_eq!(a.device_info.device_type, b.device_info.device_type);
}

#[test]
fn save_then_load_round_trips_every_field() {
    let config = sample_config();
    let text = config_to_json(&config);
    let loaded = parse_config(&text).expect("the encoder's text must parse");
    assert_configs_equal(&config, &loaded);
}

#[test]
fn default_config_round_trips() {
    let config: DeviceConfig = Default::default();
    let text = config_to_json(&config);
    let loaded = parse_config(&text).expect("the default config must round-trip");
    assert_configs_equal(&config, &loaded);
}

#[test]
fn quotes_and_backslashes_survive_the_round_trip() {
    let mut config: DeviceConfig = Default::default();
    config.wifi_ssid = Some("a\"b\\c\"\"d\\\\e".to_string());
    config.city = "\\".to_string();
    config.set_user_info(UserInfo { username: "\"".to_string(), password: String::new() });
    let text = config_to_json(&config);
    let loaded = parse_config(&text).expect("escaped strings must round-trip");
    assert_configs_equal(&config, &loaded);
}

#[test]
fn the_file_text_is_plain_json() {
    let text = config_to_json(&sample_config());
    let value: serde_json::Value = serde_json::from_str(&text).expect("the file must be JSON");
    assert_eq!(value["wifi_ssid"], "esp-2.4G");
    assert_eq!(value["boot_times"], 17);
    assert_eq!(value["current_page"], 0);
    assert_eq!(value["weather_cache"], "{\"code\":\"200\",\"daily\":[]}");
    assert!(value["wifi_max_link_seconds"].is_u64());
    let none: DeviceConfig = Default::default();
    let none_text = config_to_json(&none);
    let none_value: serde_json::Value = serde_json::from_str(&none_text).unwrap();
    assert!(none_value["wifi_ssid"].is_null());
}

#[test]
fn garbage_and_truncated_texts_do_not_parse() {
    assert!(parse_config("").is_none());
    assert!(parse_config("{}").is_none());
    assert!(parse_config("not json at all").is_none());
    let text = config_to_json(&sample_config());
    assert!(parse_config(&text[..text.len() - 1]).is_none());
    let mut trailing = text.clone();
    trailing.push(' ');
    assert!(parse_config(&trailing).is_none());
}

#[test]
fn a_page_index_outside_the_range_does_not_parse() {
    let text = config_to_json(&sample_config());
    let broken = text.replace("\"current_page\":0", "\"current_page\":12");
    assert!(parse_config(&broken).is_none());
}

#[test]
fn load_falls_back_to_defaults_and_asks_for_a_save() {
    let (config, rebuilt) = load_config(None);
    assert!(rebuilt);
    assert_eq!(config.current_page, ActivePage::Home);
    assert_eq!(config.requery_upgrade_time_minutes, 1440);
    let (config2, rebuilt2) = load_config(Some("corrupt"));
    assert!(rebuilt2);
    assert_eq!(config2.time_zone, "CST-8");
    let good = config_to_json(&sample_config());
    let (config3, rebuilt3) = load_config(Some(&good));
    assert!(!rebuilt3);
    assert_eq!(config3.boot_times, 17);
}

#[test]
fn boot_counter_is_monotone() {
    let mut config: DeviceConfig = Default::default();
    assert_eq!(config.boot_times, 0);
    config.boot_times_add();
    config.boot_times_add();
    assert_eq!(config.boot_times, 2);
    let text = config_to_json(&config);
    let loaded = parse_config(&text).unwrap();
    assert_eq!(loaded.boot_times, 2);
}

#[test]
fn device_info_defaults_name_the_firmware() {
    let info: DeviceInfo = Default::default();
    assert_eq!(info.version, build_time());
    assert_eq!(info.device_type, "ele_ds_client_rust");
    assert_eq!(build_time().len(), 19);
}

#[test]
fn decimal_renderings_are_exact() {
    assert_eq!(u32_string(0), "0");
    assert_eq!(u32_string(7), "7");
    assert_eq!(u32_string(1440), "1440");
    assert_eq!(u32_string(u32::MAX), "4294967295");
    assert_eq!(centi_string(2345), "23.4");
    assert_eq!(centi_string(-501), "-5.0");
    assert_eq!(centi_string(0), "0.0");
    assert_eq!(centi_string(99), "0.9");
}

#[test]
fn string_equality_by_characters() {
    assert!(str_equal("abc", "abc"));
    assert!(!str_equal("abc", "abd"));
    assert!(!str_equal("abc", "ab"));
    assert!(str_equal("", ""));
}

#[test]
fn popup_box_is_centered_percentage_of_the_area() {
    let area = Rect { x: 0, y: 0, width: 250, height: 122 };
    let popup = popup_area(area, 60, 40);
    assert_eq!(popup.width, 150);
    assert_eq!(popup.height, 48);
    assert_eq!(popup.x, 50);
    assert_eq!(popup.y, 37);
}

#[test]
fn clock_digits_light_the_usual_segments() {
    let eight = digit_segments('8');
    assert!(eight.top && eight.mid && eight.bottom);
    assert!(eight.left_top && eight.left_bottom && eight.right_top && eight.right_bottom);
    let one = digit_segments('1');
    assert!(!one.top && !one.mid && !one.bottom && !one.left_top && !one.left_bottom);
    assert!(one.right_top && one.right_bottom);
    let blank = digit_segments('x');
    assert!(!blank.top && !blank.right_top && !blank.right_bottom);
}

#[test]
fn page_content_selection_matches_the_page() {
    let ui = UiInfo { net_state: true, battery: 80 };
    let sensor_data = AllSensorData { temperature_centi: 2100, humidity_centi: 4500 };
    let lines = ["a".to_string(), "b".to_string(), "c".to_string()];
    match select_page_content(
        ActivePage::Sensor,
        Some(sensor_data),
        lines.clone(),
        "fuzhou".to_string(),
        ui.clone(),
    ) {
        Ok(PageContent::Sensor(page)) => {
            assert_eq!(page.sensor_data, sensor_data);
            assert_eq!(page.ui_info, ui);
        },
        _ => panic!("the sensor page must be selected"),
    }
    match select_page_content(
        ActivePage::Home,
        None,
        lines.clone(),
        "fuzhou".to_string(),
        ui.clone(),
    ) {
        Ok(PageContent::Home(page)) => {
            assert_eq!(page.city, "fuzhou");
            assert_eq!(page.weather_info[2], "c");
        },
        _ => panic!("the home page must be selected"),
    }
    let err = select_page_content(ActivePage::About, None, lines, "fuzhou".to_string(), ui);
    match err {
        Err(e) => assert_eq!(e, ScreenError::UnsupportedPage),
        Ok(_) => panic!("the about page has no renderer"),
    }
}

#[test]
fn status_title_spells_net_and_battery() {
    assert_eq!(status_title(&UiInfo { net_state: true, battery: 80 }), " Net: Connect Battery: 80% ");
    assert_eq!(
        status_title(&UiInfo { net_state: false, battery: 5 }),
        " Net: Disconnect Battery: 5% "
    );
}

#[test]
fn page_indices_round_trip() {
    let pages = [
        ActivePage::NoPage,
        ActivePage::Sensor,
        ActivePage::Home,
        ActivePage::Image,
        ActivePage::FullTime,
        ActivePage::Setting,
        ActivePage::FullWeather,
        ActivePage::About,
    ];
    for page in pages {
        assert_eq!(ActivePage::from_index(page.page_index()), Some(page));
    }
    assert_eq!(ActivePage::from_index(8), None);
    assert!(ActivePage::Home.cur_set_page_is_need_refresh());
    assert!(ActivePage::Sensor.cur_set_page_is_need_refresh());
    assert!(!ActivePage::About.cur_set_page_is_need_refresh());
    assert!(!ActivePage::Image.cur_set_page_is_need_refresh());
}

#[test]
fn test_signal_is_a_square_wave() {
    let buffer = ele_ds_client::audio::play_test_signal();
    assert_eq!(buffer.len(), 8192);
    // First half-period: +20000 little endian on both channels.
    assert_eq!(&buffer[0..4], &[0x20, 0x4E, 0x20, 0x4E]);
    // Second half-period: -20000.
    assert_eq!(&buffer[4096..4100], &[0xE0, 0xB1, 0xE0, 0xB1]);
    assert_eq!(&buffer[8188..8192], &[0xE0, 0xB1, 0xE0, 0xB1]);
}

#[test]
fn wifi_reconnect_follows_the_boot_counter() {
    let mut config: DeviceConfig = Default::default();
    config.wifi_reconnect_boot_interval = 3;
    config.boot_times = 0;
    assert!(config.should_attempt_wifi_connect());
    config.boot_times = 5;
    assert!(!config.should_attempt_wifi_connect());
    config.boot_times = 6;
    assert!(config.should_attempt_wifi_connect());
    config.wifi_reconnect_boot_interval = 0;
    assert!(!config.should_attempt_wifi_connect());
}

#[test]
fn weather_is_fetched_once_per_hour() {
    let mut config: DeviceConfig = Default::default();
    config.last_weather_fetch_hour = 9;
    assert!(!config.should_fetch_weather(9));
    assert!(config.should_fetch_weather(10));
}
