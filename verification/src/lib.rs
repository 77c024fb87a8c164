//! Orchestration core of a battery-powered, WiFi-connected e-paper display:
//! multi-click button classification, screen refresh policy, audio beep
//! scheduling, OTA version sequencing, and power/sleep-duration planning.
//!
//! Hardware buses, network sockets and the file system stay outside this
//! crate; every function here works on plain values and carries a contract.

use vstd::prelude::*;

pub mod audio;
pub mod button;
pub mod client;
pub mod config;
pub mod es8388;
pub mod http_server;
pub mod jsontext;
pub mod key_task;
pub mod ota;
pub mod power;
pub mod screen;
pub mod textfmt;
pub mod ui;
pub mod version;
pub mod weather;

verus! {

/// The UI page currently shown on the e-paper display.
///
/// One copy of the current page lives in the persisted device configuration
/// and one in the screen task's state; they are reconciled at boot.
#[derive(Debug, Clone, Copy, PartialEq, Eq, Structural)]
pub enum ActivePage {
    NoPage,
    Sensor,
    Home,
    Image,
    FullTime,
    Setting,
    FullWeather,
    About,
}

impl ActivePage {
    /// Pages whose content is time- or sensor-dependent and must be redrawn
    /// on every refresh, even without a page change.
    pub open spec fn spec_is_need_refresh(self) -> bool {
        self == ActivePage::Home || self == ActivePage::Sensor
    }

    /// Whether the page belongs to the periodic-refresh set.
    pub fn cur_set_page_is_need_refresh(self) -> (r: bool)
        ensures
            r == self.spec_is_need_refresh(),
    {
        if self == ActivePage::Home || self == ActivePage::Sensor {
            return true;
        }
        false
    }

    /// Numeric index used when the page is persisted.
    pub open spec fn spec_index(self) -> int {
        match self {
            ActivePage::NoPage => 7,
            ActivePage::Sensor => 0,
            ActivePage::Home => 1,
            ActivePage::Image => 2,
            ActivePage::FullTime => 3,
            ActivePage::Setting => 4,
            ActivePage::FullWeather => 5,
            ActivePage::About => 6,
        }
    }

    /// Numeric index used when the page is persisted.
    pub fn page_index(self) -> (r: usize)
        ensures
            r == self.spec_index(),
    {
        match self {
            ActivePage::NoPage => 7,
            ActivePage::Sensor => 0,
            ActivePage::Home => 1,
            ActivePage::Image => 2,
            ActivePage::FullTime => 3,
            ActivePage::Setting => 4,
            ActivePage::FullWeather => 5,
            ActivePage::About => 6,
        }
    }

    /// The page under a numeric index, for indices a page uses.
    pub open spec fn spec_page_of_index(value: int) -> ActivePage {
        if value == 0 {
            ActivePage::Sensor
        } else if value == 1 {
            ActivePage::Home
        } else if value == 2 {
            ActivePage::Image
        } else if value == 3 {
            ActivePage::FullTime
        } else if value == 4 {
            ActivePage::Setting
        } else if value == 5 {
            ActivePage::FullWeather
        } else if value == 6 {
            ActivePage::About
        } else {
            ActivePage::NoPage
        }
    }

    /// The page stored under a numeric index, `None` for an index that no
    /// page uses.
    pub fn from_index(value: usize) -> (r: Option<ActivePage>)
        ensures
            r == (if value <= 7 {
                Some(ActivePage::spec_page_of_index(value as int))
            } else {
                None::<ActivePage>
            }),
            r matches Some(p) ==> p.spec_index() == value,
            r is None <==> value > 7,
    {
        match value {
            0 => Some(ActivePage::Sensor),
            1 => Some(ActivePage::Home),
            2 => Some(ActivePage::Image),
            3 => Some(ActivePage::FullTime),
            4 => Some(ActivePage::Setting),
            5 => Some(ActivePage::FullWeather),
            6 => Some(ActivePage::About),
            7 => Some(ActivePage::NoPage),
            _ => None,
        }
    }
}

} // verus!
