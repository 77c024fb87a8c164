//! The persisted device configuration.
//!
//! The configuration is one JSON document, rewritten wholesale on every
//! save; a missing or unparsable file is rebuilt from defaults. The file
//! text is produced and read here, in one canonical shape — every field in
//! a fixed order, strings escaped — so that saving and loading are proved
//! inverses; reading and writing the file itself happens outside this
//! crate.

use vstd::prelude::*;
use vstd::string::StrSliceExecFns;
use vstd::string::StringExecFns;
use crate::ActivePage;
use crate::jsontext::spec_quote;
use crate::jsontext::push_quoted;
use crate::jsontext::spec_eat_lit;
use crate::jsontext::spec_eat_quoted;
use crate::jsontext::spec_eat_u32;
use crate::jsontext::eat_lit;
use crate::jsontext::eat_quoted;
use crate::jsontext::eat_num;
use crate::jsontext::lemma_eat_lit_prefix;
use crate::jsontext::lemma_eat_quoted_prefix;
use crate::jsontext::lemma_eat_num_prefix;
use crate::textfmt::spec_dec_digits;
use crate::textfmt::push_u32;

verus! {

/// The account the device reports itself under.
#[derive(Debug, Clone)]
pub struct UserInfo {
    pub username: String,
    pub password: String,
}

impl Default for UserInfo {
    /// An unset account.
    fn default() -> (r: Self)
        ensures
            r.username@ =~= Seq::<char>::empty(),
            r.password@ =~= Seq::<char>::empty(),
    {
        UserInfo { username: String::new(), password: String::new() }
    }
}

/// What this firmware is: its build timestamp and its device type.
#[derive(Debug, Clone)]
pub struct DeviceInfo {
    pub version: String,
    pub device_type: String,
}

/// The build timestamp of the running firmware.
pub fn build_time() -> (r: &'static str)
    ensures
        r@ =~= "2025-06-01 12:00:00"@,
{
    proof {
        reveal_strlit("2025-06-01 12:00:00");
    }
    "2025-06-01 12:00:00"
}

impl Default for DeviceInfo {
    /// The running firmware's own identity.
    fn default() -> (r: Self)
        ensures
            r.version@ =~= "2025-06-01 12:00:00"@,
            r.device_type@ =~= "ele_ds_client_rust"@,
    {
        proof {
            reveal_strlit("ele_ds_client_rust");
        }
        DeviceInfo {
            version: String::from_str(build_time()),
            device_type: String::from_str("ele_ds_client_rust"),
        }
    }
}

/// Everything the device persists across power-off.
#[derive(Debug, Clone)]
pub struct DeviceConfig {
    /// Network credentials; none until the user sets them.
    pub wifi_ssid: Option<String>,
    pub wifi_password: Option<String>,
    /// The time zone the clock is shown in.
    pub time_zone: String,
    /// The city the weather is fetched for.
    pub city: String,
    /// Minutes between upgrade queries.
    pub requery_upgrade_time_minutes: u32,
    /// Seconds a WiFi connection attempt may take.
    pub wifi_max_link_seconds: u32,
    /// Boots between reconnect attempts.
    pub wifi_reconnect_boot_interval: u32,
    /// How often the device has booted; grows by one each boot.
    pub boot_times: u32,
    /// The hour of the last successful weather fetch.
    pub last_weather_fetch_hour: u32,
    /// The last weather answer, as the JSON text it arrived in.
    pub weather_cache: Option<String>,
    /// The page shown when power was lost, shown again at boot.
    pub current_page: ActivePage,
    pub user_info: UserInfo,
    pub device_info: DeviceInfo,
}

impl Default for DeviceConfig {
    /// The configuration a fresh device starts with: no credentials, the
    /// home page, and the stock timing policy.
    fn default() -> (r: Self)
        ensures
            r.wifi_ssid is None,
            r.wifi_password is None,
            r.time_zone@ =~= "CST-8"@,
            r.city@ =~= "fuzhou"@,
            r.requery_upgrade_time_minutes == 1440,
            r.wifi_max_link_seconds == 30,
            r.wifi_reconnect_boot_interval == 1,
            r.boot_times == 0,
            r.last_weather_fetch_hour == 0,
            r.weather_cache is None,
            r.current_page == ActivePage::Home,
            r.user_info.username@ =~= Seq::<char>::empty(),
            r.user_info.password@ =~= Seq::<char>::empty(),
            r.device_info.version@ =~= "2025-06-01 12:00:00"@,
            r.device_info.device_type@ =~= "ele_ds_client_rust"@,
    {
        proof {
            reveal_strlit("CST-8");
            reveal_strlit("fuzhou");
        }
        DeviceConfig {
            wifi_ssid: None,
            wifi_password: None,
            time_zone: String::from_str("CST-8"),
            city: String::from_str("fuzhou"),
            requery_upgrade_time_minutes: 1440,
            wifi_max_link_seconds: 30,
            wifi_reconnect_boot_interval: 1,
            boot_times: 0,
            last_weather_fetch_hour: 0,
            weather_cache: None,
            current_page: ActivePage::Home,
            user_info: Default::default(),
            device_info: Default::default(),
        }
    }
}

/// The configuration's value, with every string as its characters: what
/// the contracts and the file format speak of.
pub ghost struct ConfigV {
    pub wifi_ssid: Option<Seq<char>>,
    pub wifi_password: Option<Seq<char>>,
    pub time_zone: Seq<char>,
    pub city: Seq<char>,
    pub requery_upgrade_time_minutes: int,
    pub wifi_max_link_seconds: int,
    pub wifi_reconnect_boot_interval: int,
    pub boot_times: int,
    pub last_weather_fetch_hour: int,
    pub weather_cache: Option<Seq<char>>,
    pub current_page: ActivePage,
    pub username: Seq<char>,
    pub password: Seq<char>,
    pub version: Seq<char>,
    pub device_type: Seq<char>,
}

/// An optional string's characters.
pub open spec fn spec_opt_view(o: Option<String>) -> Option<Seq<char>> {
    match o {
        Some(s) => Some(s@),
        None => None,
    }
}

impl DeviceConfig {
    /// The configuration's value.
    pub open spec fn view_v(&self) -> ConfigV {
        ConfigV {
            wifi_ssid: spec_opt_view(self.wifi_ssid),
            wifi_password: spec_opt_view(self.wifi_password),
            time_zone: self.time_zone@,
            city: self.city@,
            requery_upgrade_time_minutes: self.requery_upgrade_time_minutes as int,
            wifi_max_link_seconds: self.wifi_max_link_seconds as int,
            wifi_reconnect_boot_interval: self.wifi_reconnect_boot_interval as int,
            boot_times: self.boot_times as int,
            last_weather_fetch_hour: self.last_weather_fetch_hour as int,
            weather_cache: spec_opt_view(self.weather_cache),
            current_page: self.current_page,
            username: self.user_info.username@,
            password: self.user_info.password@,
            version: self.device_info.version@,
            device_type: self.device_info.device_type@,
        }
    }

    /// Replaces the account.
    pub fn set_user_info(&mut self, user_info: UserInfo)
        ensures
            final(self).user_info == user_info,
            final(self).view_v() == (ConfigV {
                username: user_info.username@,
                password: user_info.password@,
                ..old(self).view_v()
            }),
    {
        self.user_info = user_info;
    }

    /// Counts a boot: the boot counter grows by one and nothing else
    /// changes. The counter is monotone — it never decreases.
    pub fn boot_times_add(&mut self)
        requires
            old(self).boot_times < u32::MAX,
        ensures
            final(self).boot_times == old(self).boot_times + 1,
            final(self).view_v() == (ConfigV {
                boot_times: old(self).boot_times + 1,
                ..old(self).view_v()
            }),
    {
        self.boot_times = self.boot_times + 1;
    }

    /// The periodic-connect policy: a WiFi connection is attempted on the
    /// boots the reconnect interval divides; an interval of zero never
    /// reconnects.
    pub fn should_attempt_wifi_connect(&self) -> (r: bool)
        ensures
            r == (self.wifi_reconnect_boot_interval != 0 && self.boot_times as int
                % self.wifi_reconnect_boot_interval as int == 0),
    {
        self.wifi_reconnect_boot_interval != 0 && self.boot_times
            % self.wifi_reconnect_boot_interval == 0
    }

    /// Whether the weather is fetched this cycle: at most once per hour,
    /// tracked by the hour of the last successful fetch.
    pub fn should_fetch_weather(&self, current_hour: u32) -> (r: bool)
        ensures
            r == (current_hour != self.last_weather_fetch_hour),
    {
        current_hour != self.last_weather_fetch_hour
    }
}

/// Every counter of the value fits its stored type.
pub open spec fn spec_config_wf(v: ConfigV) -> bool {
    &&& 0 <= v.requery_upgrade_time_minutes <= u32::MAX
    &&& 0 <= v.wifi_max_link_seconds <= u32::MAX
    &&& 0 <= v.wifi_reconnect_boot_interval <= u32::MAX
    &&& 0 <= v.boot_times <= u32::MAX
    &&& 0 <= v.last_weather_fetch_hour <= u32::MAX
}

/// How an optional string stands in the file: `null`, or quoted.
pub open spec fn spec_opt_field(o: Option<Seq<char>>) -> Seq<char> {
    match o {
        Some(s) => spec_quote(s),
        None => "null"@,
    }
}

/// The file text from the current page's field on.
pub open spec fn spec_json_from_page(v: ConfigV) -> Seq<char> {
    ",\"current_page\":"@ + spec_dec_digits(v.current_page.spec_index()) + spec_json_from_username(
        v,
    )
}

/// The file text from the account's fields on.
pub open spec fn spec_json_from_username(v: ConfigV) -> Seq<char> {
    ",\"username\":"@ + spec_quote(v.username) + (",\"password\":"@ + spec_quote(v.password) + (
    ",\"version\":"@ + spec_quote(v.version) + (",\"device_type\":"@ + spec_quote(v.device_type)
        + "}"@)))
}

/// The file text from the counters on.
pub open spec fn spec_json_from_counters(v: ConfigV) -> Seq<char> {
    ",\"requery_upgrade_time_minutes\":"@ + spec_dec_digits(v.requery_upgrade_time_minutes) + (
    ",\"wifi_max_link_seconds\":"@ + spec_dec_digits(v.wifi_max_link_seconds) + (
    ",\"wifi_reconnect_boot_interval\":"@ + spec_dec_digits(v.wifi_reconnect_boot_interval) + (
    ",\"boot_times\":"@ + spec_dec_digits(v.boot_times) + (",\"last_weather_fetch_hour\":"@
        + spec_dec_digits(v.last_weather_fetch_hour) + (",\"weather_cache\":"@ + spec_opt_field(
        v.weather_cache,
    ) + spec_json_from_page(v))))))
}

/// The whole file text of a configuration value: one JSON object, every
/// field in this fixed order, no whitespace.
pub open spec fn spec_config_json(v: ConfigV) -> Seq<char> {
    "{\"wifi_ssid\":"@ + spec_opt_field(v.wifi_ssid) + (",\"wifi_password\":"@ + spec_opt_field(
        v.wifi_password,
    ) + (",\"time_zone\":"@ + spec_quote(v.time_zone) + (",\"city\":"@ + spec_quote(v.city)
        + spec_json_from_counters(v))))
}

/// Appends an optional string field: `null`, or the quoted string.
fn push_opt_field(out: &mut String, o: &Option<String>)
    ensures
        final(out)@ == old(out)@ + spec_opt_field(spec_opt_view(*o)),
{
    match o {
        Some(s) => {
            push_quoted(out, s.as_str());
        },
        None => {
            proof {
                reveal_strlit("null");
            }
            out.append("null");
        },
    }
}

/// Renders the configuration as its file text.
#[verifier::rlimit(100)]
pub fn config_to_json(c: &DeviceConfig) -> (r: String)
    ensures
        r@ == spec_config_json(c.view_v()),
{
    proof {
        reveal_strlit("{\"wifi_ssid\":");
        reveal_strlit(",\"wifi_password\":");
        reveal_strlit(",\"time_zone\":");
        reveal_strlit(",\"city\":");
        reveal_strlit(",\"requery_upgrade_time_minutes\":");
        reveal_strlit(",\"wifi_max_link_seconds\":");
        reveal_strlit(",\"wifi_reconnect_boot_interval\":");
        reveal_strlit(",\"boot_times\":");
        reveal_strlit(",\"last_weather_fetch_hour\":");
        reveal_strlit(",\"weather_cache\":");
        reveal_strlit(",\"current_page\":");
        reveal_strlit(",\"username\":");
        reveal_strlit(",\"password\":");
        reveal_strlit(",\"version\":");
        reveal_strlit(",\"device_type\":");
        reveal_strlit("}");
    }
    let mut out = String::new();
    out.append("{\"wifi_ssid\":");
    push_opt_field(&mut out, &c.wifi_ssid);
    out.append(",\"wifi_password\":");
    push_opt_field(&mut out, &c.wifi_password);
    out.append(",\"time_zone\":");
    push_quoted(&mut out, c.time_zone.as_str());
    out.append(",\"city\":");
    push_quoted(&mut out, c.city.as_str());
    out.append(",\"requery_upgrade_time_minutes\":");
    push_u32(&mut out, c.requery_upgrade_time_minutes);
    out.append(",\"wifi_max_link_seconds\":");
    push_u32(&mut out, c.wifi_max_link_seconds);
    out.append(",\"wifi_reconnect_boot_interval\":");
    push_u32(&mut out, c.wifi_reconnect_boot_interval);
    out.append(",\"boot_times\":");
    push_u32(&mut out, c.boot_times);
    out.append(",\"last_weather_fetch_hour\":");
    push_u32(&mut out, c.last_weather_fetch_hour);
    out.append(",\"weather_cache\":");
    push_opt_field(&mut out, &c.weather_cache);
    out.append(",\"current_page\":");
    push_u32(&mut out, c.current_page.page_index() as u32);
    out.append(",\"username\":");
    push_quoted(&mut out, c.user_info.username.as_str());
    out.append(",\"password\":");
    push_quoted(&mut out, c.user_info.password.as_str());
    out.append(",\"version\":");
    push_quoted(&mut out, c.device_info.version.as_str());
    out.append(",\"device_type\":");
    push_quoted(&mut out, c.device_info.device_type.as_str());
    out.append("}");
    proof {
        assert(out@ =~= spec_config_json(c.view_v()));
    }
    out
}

/// The value an optional field at the head of `s` holds (`null` or a
/// quoted string), and what follows it.
pub open spec fn spec_eat_opt(s: Seq<char>) -> Option<(Option<Seq<char>>, Seq<char>)> {
    if 4 <= s.len() && s.subrange(0, 4) == "null"@ {
        Some((None, s.subrange(4, s.len() as int)))
    } else {
        match spec_eat_quoted(s) {
            Some((v, rest)) => Some((Some(v), rest)),
            None => None,
        }
    }
}

/// Consumes the optional string field at the head of `s`.
fn eat_opt_field<'a>(s: &'a str) -> (r: Option<(Option<String>, &'a str)>)
    requires
        s@.len() <= usize::MAX,
    ensures
        r matches Some(t) ==> (spec_eat_opt(s@) matches Some(sr) && spec_opt_view(t.0) == sr.0
            && t.1@ == sr.1 && t.1@.len() <= s@.len()),
        r is None <==> spec_eat_opt(s@) is None,
{
    proof {
        reveal_strlit("null");
    }
    match eat_lit(s, "null") {
        Some(rest) => Some((None, rest)),
        None => match eat_quoted(s) {
            Some((v, rest)) => Some((Some(v), rest)),
            None => None,
        },
    }
}

/// Eating an optional field off its own written form gives the value back
/// and leaves the remainder.
proof fn lemma_eat_opt_prefix(o: Option<Seq<char>>, rest: Seq<char>)
    ensures
        spec_eat_opt(spec_opt_field(o) + rest) == Some((o, rest)),
{
    reveal_strlit("null");
    let s = spec_opt_field(o) + rest;
    match o {
        None => {
            assert(s.subrange(0, 4) =~= "null"@);
            assert(s.subrange(4, s.len() as int) =~= rest);
        },
        Some(v) => {
            assert(s[0] == '"');
            if 4 <= s.len() {
                assert(s.subrange(0, 4)[0] == '"');
                assert("null"@[0] == 'n');
                assert(s.subrange(0, 4) != "null"@);
            }
            assert(spec_opt_field(o) + rest =~= spec_quote(v) + rest);
            lemma_eat_quoted_prefix(v, rest);
        },
    }
}

/// The parse of the file text from the account's fields on: the already
/// parsed fields in `partial`, completed with the account, the firmware
/// identity, and the closing brace ending the text.
pub open spec fn spec_parse_at_username(s: Seq<char>, partial: ConfigV) -> Option<ConfigV> {
    match spec_eat_lit(s, ",\"username\":"@) {
        Some(s1) => match spec_eat_quoted(s1) {
            Some((username, s2)) => match spec_eat_lit(s2, ",\"password\":"@) {
                Some(s3) => match spec_eat_quoted(s3) {
                    Some((password, s4)) => match spec_eat_lit(s4, ",\"version\":"@) {
                        Some(s5) => match spec_eat_quoted(s5) {
                            Some((version, s6)) => match spec_eat_lit(s6, ",\"device_type\":"@) {
                                Some(s7) => match spec_eat_quoted(s7) {
                                    Some((device_type, s8)) => match spec_eat_lit(s8, "}"@) {
                                        Some(s9) => if s9.len() == 0 {
                                            Some(
                                                ConfigV {
                                                    username,
                                                    password,
                                                    version,
                                                    device_type,
                                                    ..partial
                                                },
                                            )
                                        } else {
                                            None
                                        },
                                        None => None,
                                    },
                                    None => None,
                                },
                                None => None,
                            },
                            None => None,
                        },
                        None => None,
                    },
                    None => None,
                },
                None => None,
            },
            None => None,
        },
        None => None,
    }
}

/// The parse of the file text from the current page's field on.
pub open spec fn spec_parse_at_page(s: Seq<char>, partial: ConfigV) -> Option<ConfigV> {
    match spec_eat_lit(s, ",\"current_page\":"@) {
        Some(s1) => match spec_eat_u32(s1) {
            Some((idx, s2)) => if idx <= 7 {
                spec_parse_at_username(
                    s2,
                    ConfigV { current_page: ActivePage::spec_page_of_index(idx), ..partial },
                )
            } else {
                None
            },
            None => None,
        },
        None => None,
    }
}

/// The parse of the file text from the counters on.
pub open spec fn spec_parse_at_counters(s: Seq<char>, partial: ConfigV) -> Option<ConfigV> {
    match spec_eat_lit(s, ",\"requery_upgrade_time_minutes\":"@) {
        Some(s1) => match spec_eat_u32(s1) {
            Some((requery, s2)) => match spec_eat_lit(s2, ",\"wifi_max_link_seconds\":"@) {
                Some(s3) => match spec_eat_u32(s3) {
                    Some((max_link, s4)) => match spec_eat_lit(
                        s4,
                        ",\"wifi_reconnect_boot_interval\":"@,
                    ) {
                        Some(s5) => match spec_eat_u32(s5) {
                            Some((reconnect, s6)) => match spec_eat_lit(s6, ",\"boot_times\":"@) {
                                Some(s7) => match spec_eat_u32(s7) {
                                    Some((boots, s8)) => match spec_eat_lit(
                                        s8,
                                        ",\"last_weather_fetch_hour\":"@,
                                    ) {
                                        Some(s9) => match spec_eat_u32(s9) {
                                            Some((hour, s10)) => match spec_eat_lit(
                                                s10,
                                                ",\"weather_cache\":"@,
                                            ) {
                                                Some(s11) => match spec_eat_opt(s11) {
                                                    Some((cache, s12)) => spec_parse_at_page(
                                                        s12,
                                                        ConfigV {
                                                            requery_upgrade_time_minutes: requery,
                                                            wifi_max_link_seconds: max_link,
                                                            wifi_reconnect_boot_interval: reconnect,
                                                            boot_times: boots,
                                                            last_weather_fetch_hour: hour,
                                                            weather_cache: cache,
                                                            ..partial
                                                        },
                                                    ),
                                                    None => None,
                                                },
                                                None => None,
                                            },
                                            None => None,
                                        },
                                        None => None,
                                    },
                                    None => None,
                                },
                                None => None,
                            },
                            None => None,
                        },
                        None => None,
                    },
                    None => None,
                },
                None => None,
            },
            None => None,
        },
        None => None,
    }
}

/// The fields of a value not yet filled in by a parse stage.
pub open spec fn spec_seed_config() -> ConfigV {
    ConfigV {
        wifi_ssid: None,
        wifi_password: None,
        time_zone: Seq::<char>::empty(),
        city: Seq::<char>::empty(),
        requery_upgrade_time_minutes: 0,
        wifi_max_link_seconds: 0,
        wifi_reconnect_boot_interval: 0,
        boot_times: 0,
        last_weather_fetch_hour: 0,
        weather_cache: None,
        current_page: ActivePage::NoPage,
        username: Seq::<char>::empty(),
        password: Seq::<char>::empty(),
        version: Seq::<char>::empty(),
        device_type: Seq::<char>::empty(),
    }
}

/// What parsing a file text yields: the configuration value it spells in
/// the canonical shape, nothing for any other text.
pub open spec fn spec_parse_config(s: Seq<char>) -> Option<ConfigV> {
    match spec_eat_lit(s, "{\"wifi_ssid\":"@) {
        Some(s1) => match spec_eat_opt(s1) {
            Some((ssid, s2)) => match spec_eat_lit(s2, ",\"wifi_password\":"@) {
                Some(s3) => match spec_eat_opt(s3) {
                    Some((password, s4)) => match spec_eat_lit(s4, ",\"time_zone\":"@) {
                        Some(s5) => match spec_eat_quoted(s5) {
                            Some((tz, s6)) => match spec_eat_lit(s6, ",\"city\":"@) {
                                Some(s7) => match spec_eat_quoted(s7) {
                                    Some((city, s8)) => spec_parse_at_counters(
                                        s8,
                                        ConfigV {
                                            wifi_ssid: ssid,
                                            wifi_password: password,
                                            time_zone: tz,
                                            city: city,
                                            ..spec_seed_config()
                                        },
                                    ),
                                    None => None,
                                },
                                None => None,
                            },
                            None => None,
                        },
                        None => None,
                    },
                    None => None,
                },
                None => None,
            },
            None => None,
        },
        None => None,
    }
}

/// Reads a configuration back from its file text: exactly the texts the
/// encoder produces (and texts differing only inside string escapes)
/// parse; anything else yields nothing and the caller falls back to the
/// defaults.
#[verifier::rlimit(100)]
pub fn parse_config(s: &str) -> (r: Option<DeviceConfig>)
    ensures
        r is Some <==> spec_parse_config(s@) is Some,
        r matches Some(rc) ==> (spec_parse_config(s@) matches Some(v) && rc.view_v() == v),
{
    proof {
        reveal_strlit("{\"wifi_ssid\":");
        reveal_strlit(",\"wifi_password\":");
        reveal_strlit(",\"time_zone\":");
        reveal_strlit(",\"city\":");
        reveal_strlit(",\"requery_upgrade_time_minutes\":");
        reveal_strlit(",\"wifi_max_link_seconds\":");
        reveal_strlit(",\"wifi_reconnect_boot_interval\":");
        reveal_strlit(",\"boot_times\":");
        reveal_strlit(",\"last_weather_fetch_hour\":");
        reveal_strlit(",\"weather_cache\":");
        reveal_strlit(",\"current_page\":");
        reveal_strlit(",\"username\":");
        reveal_strlit(",\"password\":");
        reveal_strlit(",\"version\":");
        reveal_strlit(",\"device_type\":");
        reveal_strlit("}");
    }
    let total_len = s.unicode_len();
    proof {
        assert(s@.len() <= usize::MAX);
    }
    let s1 = match eat_lit(s, "{\"wifi_ssid\":") {
        Some(t) => t,
        None => { return None },
    };
    let (wifi_ssid, s2) = match eat_opt_field(s1) {
        Some(t) => t,
        None => { return None },
    };
    let s3 = match eat_lit(s2, ",\"wifi_password\":") {
        Some(t) => t,
        None => { return None },
    };
    let (wifi_password, s4) = match eat_opt_field(s3) {
        Some(t) => t,
        None => { return None },
    };
    let s5 = match eat_lit(s4, ",\"time_zone\":") {
        Some(t) => t,
        None => { return None },
    };
    let (time_zone, s6) = match eat_quoted(s5) {
        Some(t) => t,
        None => { return None },
    };
    let s7 = match eat_lit(s6, ",\"city\":") {
        Some(t) => t,
        None => { return None },
    };
    let (city, s8) = match eat_quoted(s7) {
        Some(t) => t,
        None => { return None },
    };
    let s9 = match eat_lit(s8, ",\"requery_upgrade_time_minutes\":") {
        Some(t) => t,
        None => { return None },
    };
    let (requery_upgrade_time_minutes, s10) = match eat_num(s9) {
        Some(t) => t,
        None => { return None },
    };
    let s11 = match eat_lit(s10, ",\"wifi_max_link_seconds\":") {
        Some(t) => t,
        None => { return None },
    };
    let (wifi_max_link_seconds, s12) = match eat_num(s11) {
        Some(t) => t,
        None => { return None },
    };
    let s13 = match eat_lit(s12, ",\"wifi_reconnect_boot_interval\":") {
        Some(t) => t,
        None => { return None },
    };
    let (wifi_reconnect_boot_interval, s14) = match eat_num(s13) {
        Some(t) => t,
        None => { return None },
    };
    let s15 = match eat_lit(s14, ",\"boot_times\":") {
        Some(t) => t,
        None => { return None },
    };
    let (boot_times, s16) = match eat_num(s15) {
        Some(t) => t,
        None => { return None },
    };
    let s17 = match eat_lit(s16, ",\"last_weather_fetch_hour\":") {
        Some(t) => t,
        None => { return None },
    };
    let (last_weather_fetch_hour, s18) = match eat_num(s17) {
        Some(t) => t,
        None => { return None },
    };
    let s19 = match eat_lit(s18, ",\"weather_cache\":") {
        Some(t) => t,
        None => { return None },
    };
    let (weather_cache, s20) = match eat_opt_field(s19) {
        Some(t) => t,
        None => { return None },
    };
    let s21 = match eat_lit(s20, ",\"current_page\":") {
        Some(t) => t,
        None => { return None },
    };
    let (page_index, s22) = match eat_num(s21) {
        Some(t) => t,
        None => { return None },
    };
    let current_page = match ActivePage::from_index(page_index as usize) {
        Some(p) => p,
        None => { return None },
    };
    let s23 = match eat_lit(s22, ",\"username\":") {
        Some(t) => t,
        None => { return None },
    };
    let (username, s24) = match eat_quoted(s23) {
        Some(t) => t,
        None => { return None },
    };
    let s25 = match eat_lit(s24, ",\"password\":") {
        Some(t) => t,
        None => { return None },
    };
    let (password, s26) = match eat_quoted(s25) {
        Some(t) => t,
        None => { return None },
    };
    let s27 = match eat_lit(s26, ",\"version\":") {
        Some(t) => t,
        None => { return None },
    };
    let (version, s28) = match eat_quoted(s27) {
        Some(t) => t,
        None => { return None },
    };
    let s29 = match eat_lit(s28, ",\"device_type\":") {
        Some(t) => t,
        None => { return None },
    };
    let (device_type, s30) = match eat_quoted(s29) {
        Some(t) => t,
        None => { return None },
    };
    let s31 = match eat_lit(s30, "}") {
        Some(t) => t,
        None => { return None },
    };
    if s31.unicode_len() != 0 {
        return None;
    }
    let rc = DeviceConfig {
        wifi_ssid,
        wifi_password,
        time_zone,
        city,
        requery_upgrade_time_minutes,
        wifi_max_link_seconds,
        wifi_reconnect_boot_interval,
        boot_times,
        last_weather_fetch_hour,
        weather_cache,
        current_page,
        user_info: UserInfo { username, password },
        device_info: DeviceInfo { version, device_type },
    };
    proof {
        assert(spec_parse_config(s@) matches Some(v) && rc.view_v() == v);
    }
    Some(rc)
}

/// Saving and loading are inverses: the file text of any configuration
/// value parses back to that value, field for field.
#[verifier::rlimit(100)]
pub proof fn lemma_config_round_trip(v: ConfigV)
    requires
        spec_config_wf(v),
    ensures
        spec_parse_config(spec_config_json(v)) == Some(v),
{
    reveal_strlit("{\"wifi_ssid\":");
    reveal_strlit(",\"wifi_password\":");
    reveal_strlit(",\"time_zone\":");
    reveal_strlit(",\"city\":");
    reveal_strlit(",\"requery_upgrade_time_minutes\":");
    reveal_strlit(",\"wifi_max_link_seconds\":");
    reveal_strlit(",\"wifi_reconnect_boot_interval\":");
    reveal_strlit(",\"boot_times\":");
    reveal_strlit(",\"last_weather_fetch_hour\":");
    reveal_strlit(",\"weather_cache\":");
    reveal_strlit(",\"current_page\":");
    reveal_strlit(",\"username\":");
    reveal_strlit(",\"password\":");
    reveal_strlit(",\"version\":");
    reveal_strlit(",\"device_type\":");
    reveal_strlit("}");
    let t_counters = spec_json_from_counters(v);
    let t_page = spec_json_from_page(v);
    let t_names = spec_json_from_username(v);

    // Peel the leading fields down to the counters.
    let r0 = spec_opt_field(v.wifi_ssid) + (",\"wifi_password\":"@ + spec_opt_field(
        v.wifi_password,
    ) + (",\"time_zone\":"@ + spec_quote(v.time_zone) + (",\"city\":"@ + spec_quote(v.city)
        + t_counters)));
    assert(spec_config_json(v) =~= "{\"wifi_ssid\":"@ + r0);
    lemma_eat_lit_prefix("{\"wifi_ssid\":"@, r0);
    let r1 = ",\"wifi_password\":"@ + spec_opt_field(v.wifi_password) + (",\"time_zone\":"@
        + spec_quote(v.time_zone) + (",\"city\":"@ + spec_quote(v.city) + t_counters));
    lemma_eat_opt_prefix(v.wifi_ssid, r1);
    let r2 = spec_opt_field(v.wifi_password) + (",\"time_zone\":"@ + spec_quote(v.time_zone) + (
    ",\"city\":"@ + spec_quote(v.city) + t_counters));
    assert(r1 =~= ",\"wifi_password\":"@ + r2);
    lemma_eat_lit_prefix(",\"wifi_password\":"@, r2);
    let r3 = ",\"time_zone\":"@ + spec_quote(v.time_zone) + (",\"city\":"@ + spec_quote(v.city)
        + t_counters);
    lemma_eat_opt_prefix(v.wifi_password, r3);
    let r4 = spec_quote(v.time_zone) + (",\"city\":"@ + spec_quote(v.city) + t_counters);
    assert(r3 =~= ",\"time_zone\":"@ + r4);
    lemma_eat_lit_prefix(",\"time_zone\":"@, r4);
    let r5 = ",\"city\":"@ + spec_quote(v.city) + t_counters;
    lemma_eat_quoted_prefix(v.time_zone, r5);
    let r6 = spec_quote(v.city) + t_counters;
    assert(r5 =~= ",\"city\":"@ + r6);
    lemma_eat_lit_prefix(",\"city\":"@, r6);
    lemma_eat_quoted_prefix(v.city, t_counters);

    // Peel the counters.
    let c0 = spec_dec_digits(v.requery_upgrade_time_minutes) + (",\"wifi_max_link_seconds\":"@
        + spec_dec_digits(v.wifi_max_link_seconds) + (",\"wifi_reconnect_boot_interval\":"@
        + spec_dec_digits(v.wifi_reconnect_boot_interval) + (",\"boot_times\":"@ + spec_dec_digits(
        v.boot_times,
    ) + (",\"last_weather_fetch_hour\":"@ + spec_dec_digits(v.last_weather_fetch_hour) + (
    ",\"weather_cache\":"@ + spec_opt_field(v.weather_cache) + t_page)))));
    assert(t_counters =~= ",\"requery_upgrade_time_minutes\":"@ + c0);
    lemma_eat_lit_prefix(",\"requery_upgrade_time_minutes\":"@, c0);
    let c1 = ",\"wifi_max_link_seconds\":"@ + spec_dec_digits(v.wifi_max_link_seconds) + (
    ",\"wifi_reconnect_boot_interval\":"@ + spec_dec_digits(v.wifi_reconnect_boot_interval) + (
    ",\"boot_times\":"@ + spec_dec_digits(v.boot_times) + (",\"last_weather_fetch_hour\":"@
        + spec_dec_digits(v.last_weather_fetch_hour) + (",\"weather_cache\":"@ + spec_opt_field(
        v.weather_cache,
    ) + t_page))));
    assert(c1[0] == ',');
    lemma_eat_num_prefix(v.requery_upgrade_time_minutes, c1);
    let c2 = spec_dec_digits(v.wifi_max_link_seconds) + (",\"wifi_reconnect_boot_interval\":"@
        + spec_dec_digits(v.wifi_reconnect_boot_interval) + (",\"boot_times\":"@ + spec_dec_digits(
        v.boot_times,
    ) + (",\"last_weather_fetch_hour\":"@ + spec_dec_digits(v.last_weather_fetch_hour) + (
    ",\"weather_cache\":"@ + spec_opt_field(v.weather_cache) + t_page))));
    assert(c1 =~= ",\"wifi_max_link_seconds\":"@ + c2);
    lemma_eat_lit_prefix(",\"wifi_max_link_seconds\":"@, c2);
    let c3 = ",\"wifi_reconnect_boot_interval\":"@ + spec_dec_digits(
        v.wifi_reconnect_boot_interval,
    ) + (",\"boot_times\":"@ + spec_dec_digits(v.boot_times) + (",\"last_weather_fetch_hour\":"@
        + spec_dec_digits(v.last_weather_fetch_hour) + (",\"weather_cache\":"@ + spec_opt_field(
        v.weather_cache,
    ) + t_page)));
    assert(c3[0] == ',');
    lemma_eat_num_prefix(v.wifi_max_link_seconds, c3);
    let c4 = spec_dec_digits(v.wifi_reconnect_boot_interval) + (",\"boot_times\":"@
        + spec_dec_digits(v.boot_times) + (",\"last_weather_fetch_hour\":"@ + spec_dec_digits(
        v.last_weather_fetch_hour,
    ) + (",\"weather_cache\":"@ + spec_opt_field(v.weather_cache) + t_page)));
    assert(c3 =~= ",\"wifi_reconnect_boot_interval\":"@ + c4);
    lemma_eat_lit_prefix(",\"wifi_reconnect_boot_interval\":"@, c4);
    let c5 = ",\"boot_times\":"@ + spec_dec_digits(v.boot_times) + (
    ",\"last_weather_fetch_hour\":"@ + spec_dec_digits(v.last_weather_fetch_hour) + (
    ",\"weather_cache\":"@ + spec_opt_field(v.weather_cache) + t_page));
    assert(c5[0] == ',');
    lemma_eat_num_prefix(v.wifi_reconnect_boot_interval, c5);
    let c6 = spec_dec_digits(v.boot_times) + (",\"last_weather_fetch_hour\":"@ + spec_dec_digits(
        v.last_weather_fetch_hour,
    ) + (",\"weather_cache\":"@ + spec_opt_field(v.weather_cache) + t_page));
    assert(c5 =~= ",\"boot_times\":"@ + c6);
    lemma_eat_lit_prefix(",\"boot_times\":"@, c6);
    let c7 = ",\"last_weather_fetch_hour\":"@ + spec_dec_digits(v.last_weather_fetch_hour) + (
    ",\"weather_cache\":"@ + spec_opt_field(v.weather_cache) + t_page);
    assert(c7[0] == ',');
    lemma_eat_num_prefix(v.boot_times, c7);
    let c8 = spec_dec_digits(v.last_weather_fetch_hour) + (",\"weather_cache\":"@ + spec_opt_field(
        v.weather_cache,
    ) + t_page);
    assert(c7 =~= ",\"last_weather_fetch_hour\":"@ + c8);
    lemma_eat_lit_prefix(",\"last_weather_fetch_hour\":"@, c8);
    let c9 = ",\"weather_cache\":"@ + spec_opt_field(v.weather_cache) + t_page;
    assert(c9[0] == ',');
    lemma_eat_num_prefix(v.last_weather_fetch_hour, c9);
    let c10 = spec_opt_field(v.weather_cache) + t_page;
    assert(c9 =~= ",\"weather_cache\":"@ + c10);
    lemma_eat_lit_prefix(",\"weather_cache\":"@, c10);
    lemma_eat_opt_prefix(v.weather_cache, t_page);

    // Peel the page.
    let p0 = spec_dec_digits(v.current_page.spec_index()) + t_names;
    assert(t_page =~= ",\"current_page\":"@ + p0);
    lemma_eat_lit_prefix(",\"current_page\":"@, p0);
    assert(t_names[0] == ',');
    lemma_eat_num_prefix(v.current_page.spec_index(), t_names);
    assert(ActivePage::spec_page_of_index(v.current_page.spec_index()) == v.current_page);

    // Peel the account and firmware identity.
    let n0 = spec_quote(v.username) + (",\"password\":"@ + spec_quote(v.password) + (
    ",\"version\":"@ + spec_quote(v.version) + (",\"device_type\":"@ + spec_quote(v.device_type)
        + "}"@)));
    assert(t_names =~= ",\"username\":"@ + n0);
    lemma_eat_lit_prefix(",\"username\":"@, n0);
    let n1 = ",\"password\":"@ + spec_quote(v.password) + (",\"version\":"@ + spec_quote(v.version)
        + (",\"device_type\":"@ + spec_quote(v.device_type) + "}"@));
    lemma_eat_quoted_prefix(v.username, n1);
    let n2 = spec_quote(v.password) + (",\"version\":"@ + spec_quote(v.version) + (
    ",\"device_type\":"@ + spec_quote(v.device_type) + "}"@));
    assert(n1 =~= ",\"password\":"@ + n2);
    lemma_eat_lit_prefix(",\"password\":"@, n2);
    let n3 = ",\"version\":"@ + spec_quote(v.version) + (",\"device_type\":"@ + spec_quote(
        v.device_type,
    ) + "}"@);
    lemma_eat_quoted_prefix(v.password, n3);
    let n4 = spec_quote(v.version) + (",\"device_type\":"@ + spec_quote(v.device_type) + "}"@);
    assert(n3 =~= ",\"version\":"@ + n4);
    lemma_eat_lit_prefix(",\"version\":"@, n4);
    let n5 = ",\"device_type\":"@ + spec_quote(v.device_type) + "}"@;
    lemma_eat_quoted_prefix(v.version, n5);
    let n6 = spec_quote(v.device_type) + "}"@;
    assert(n5 =~= ",\"device_type\":"@ + n6);
    lemma_eat_lit_prefix(",\"device_type\":"@, n6);
    lemma_eat_quoted_prefix(v.device_type, "}"@);
    lemma_eat_lit_prefix("}"@, Seq::<char>::empty());
    assert("}"@ + Seq::<char>::empty() =~= "}"@);
}

/// The value the defaults stand for.
pub open spec fn spec_default_config_v() -> ConfigV {
    ConfigV {
        wifi_ssid: None,
        wifi_password: None,
        time_zone: "CST-8"@,
        city: "fuzhou"@,
        requery_upgrade_time_minutes: 1440,
        wifi_max_link_seconds: 30,
        wifi_reconnect_boot_interval: 1,
        boot_times: 0,
        last_weather_fetch_hour: 0,
        weather_cache: None,
        current_page: ActivePage::Home,
        username: Seq::<char>::empty(),
        password: Seq::<char>::empty(),
        version: "2025-06-01 12:00:00"@,
        device_type: "ele_ds_client_rust"@,
    }
}

/// Loads the configuration from the file's text, if the file existed:
/// the parsed configuration, or the defaults (to be re-persisted, as the
/// second component says) when the file is missing or unparsable.
pub fn load_config(text: Option<&str>) -> (r: (DeviceConfig, bool))
    ensures
        ({
            match text {
                Some(t) => {
                    &&& (spec_parse_config(t@) matches Some(v) ==> r.0.view_v() == v && r.1
                        == false)
                    &&& (spec_parse_config(t@) is None ==> r.0.view_v() == spec_default_config_v()
                        && r.1 == true)
                },
                None => r.0.view_v() == spec_default_config_v() && r.1 == true,
            }
        }),
{
    match text {
        Some(t) => match parse_config(t) {
            Some(c) => (c, false),
            None => {
                let d: DeviceConfig = Default::default();
                proof {
                    assert(d.view_v() =~~= spec_default_config_v());
                }
                (d, true)
            },
        },
        None => {
            let d: DeviceConfig = Default::default();
            proof {
                assert(d.view_v() =~~= spec_default_config_v());
            }
            (d, true)
        },
    }
}

} // verus!
