//! Page models and layout arithmetic for the terminal-style UI.
//!
//! Rendering itself (fonts, widgets, the frame buffer) happens outside this
//! crate; what lives here is the data each page shows, which page an event
//! selects, and the integer geometry: the popup box, image centering, and
//! the seven-segment shapes of the large clock digits.

use vstd::prelude::*;
use vstd::string::StringExecFns;
use crate::ActivePage;
use crate::screen::AllSensorData;
use crate::textfmt::spec_dec_digits;
use crate::textfmt::u32_string;

verus! {

/// Status shared by every page's border: network state and battery percent.
#[derive(Debug, Clone, PartialEq, Eq, Structural)]
pub struct UiInfo {
    pub net_state: bool,
    pub battery: u8,
}

impl Default for UiInfo {
    /// Disconnected, empty battery.
    fn default() -> (r: Self)
        ensures
            r.net_state == false,
            r.battery == 0,
    {
        UiInfo { net_state: false, battery: 0 }
    }
}

/// The status-bar title of the page border: the network state and the
/// battery percentage in words.
pub open spec fn spec_status_title(net_state: bool, battery: u8) -> Seq<char> {
    " Net: "@ + (if net_state {
        "Connect"@
    } else {
        "Disconnect"@
    }) + " Battery: "@ + spec_dec_digits(battery as int) + "% "@
}

/// Renders the status-bar title shown in every page's border.
pub fn status_title(info: &UiInfo) -> (r: String)
    ensures
        r@ == spec_status_title(info.net_state, info.battery),
{
    proof {
        reveal_strlit(" Net: ");
        reveal_strlit("Connect");
        reveal_strlit("Disconnect");
        reveal_strlit(" Battery: ");
        reveal_strlit("% ");
    }
    let mut out = String::from_str(" Net: ");
    if info.net_state {
        out.append("Connect");
    } else {
        out.append("Disconnect");
    }
    out.append(" Battery: ");
    let num = u32_string(info.battery as u32);
    out.append(num.as_str());
    out.append("% ");
    out
}

/// A transient message box overlaid on the current page.
#[derive(Debug, Clone)]
pub struct PopupMsg {
    pub title: String,
    pub msg: String,
}

impl PopupMsg {
    /// A popup with the given title and body.
    pub fn new(title: String, msg: String) -> (r: Self)
        ensures
            r.title == title,
            r.msg == msg,
    {
        PopupMsg { title, msg }
    }
}

/// An axis-aligned box in character cells, as the layout works with them.
#[derive(Debug, Clone, Copy, PartialEq, Eq, Structural)]
pub struct Rect {
    pub x: u16,
    pub y: u16,
    pub width: u16,
    pub height: u16,
}

/// The popup's box: the given percentages of the area's width and height
/// (rounded down), centered in the area; the box never leaves the area.
pub fn popup_area(area: Rect, percent_x: u16, percent_y: u16) -> (r: Rect)
    requires
        percent_x <= 100,
        percent_y <= 100,
        area.x + area.width <= u16::MAX,
        area.y + area.height <= u16::MAX,
    ensures
        r.width == area.width * percent_x / 100,
        r.height == area.height * percent_y / 100,
        r.x == area.x + (area.width - r.width) / 2,
        r.y == area.y + (area.height - r.height) / 2,
        area.x <= r.x,
        area.y <= r.y,
        r.x + r.width <= area.x + area.width,
        r.y + r.height <= area.y + area.height,
{
    proof {
        assert(area.width * percent_x <= 65535 * 100 && area.width * percent_x / 100
            <= area.width) by (nonlinear_arith)
            requires
                percent_x <= 100,
                area.width <= 65535,
        ;
        assert(area.height * percent_y <= 65535 * 100 && area.height * percent_y / 100
            <= area.height) by (nonlinear_arith)
            requires
                percent_y <= 100,
                area.height <= 65535,
        ;
    }
    let width = ((area.width as u32 * percent_x as u32) / 100) as u16;
    let height = ((area.height as u32 * percent_y as u32) / 100) as u16;
    let x = area.x + (area.width - width) / 2;
    let y = area.y + (area.height - height) / 2;
    Rect { x, y, width, height }
}

/// Data the sensor page shows.
#[derive(Debug, Clone, PartialEq, Eq, Structural)]
pub struct SensorPage {
    pub sensor_data: AllSensorData,
    pub ui_info: UiInfo,
}

impl Default for SensorPage {
    /// Zero readings, default status bar.
    fn default() -> (r: Self)
        ensures
            r.sensor_data.temperature_centi == 0,
            r.sensor_data.humidity_centi == 0,
            r.ui_info.net_state == false,
            r.ui_info.battery == 0,
    {
        SensorPage { sensor_data: Default::default(), ui_info: Default::default() }
    }
}

/// Data the home page shows: three weather summary lines, the city, and
/// the status bar.
#[derive(Debug, Clone)]
pub struct HomePageInfo {
    pub weather_info: [String; 3],
    pub city: String,
    pub ui_info: UiInfo,
}

impl Default for HomePageInfo {
    /// Empty weather lines and the default city.
    fn default() -> (r: Self)
        ensures
            r.weather_info[0]@ =~= Seq::<char>::empty(),
            r.weather_info[1]@ =~= Seq::<char>::empty(),
            r.weather_info[2]@ =~= Seq::<char>::empty(),
            r.city@ =~= "Fuzhou"@,
            r.ui_info.net_state == false,
            r.ui_info.battery == 0,
    {
        HomePageInfo {
            weather_info: [String::new(), String::new(), String::new()],
            city: String::from_str("Fuzhou"),
            ui_info: Default::default(),
        }
    }
}

/// Data the image page shows: the bitmap to draw and the status bar.
#[derive(Debug, Clone)]
pub struct ImagePageInfo {
    pub image_path: String,
    pub ui_info: UiInfo,
}

impl Default for ImagePageInfo {
    /// The built-in test bitmap.
    fn default() -> (r: Self)
        ensures
            r.image_path@ =~= "/fat/system/tmd.0.bmp"@,
            r.ui_info.net_state == false,
            r.ui_info.battery == 0,
    {
        ImagePageInfo {
            image_path: String::from_str("/fat/system/tmd.0.bmp"),
            ui_info: Default::default(),
        }
    }
}

/// Data the about page shows.
#[derive(Debug, Clone)]
pub struct AboutPage {
    pub ip_addr: String,
    pub connect_wifi: String,
    pub wifi_password: String,
    pub soft_version: String,
    pub ui_info: UiInfo,
}

impl Default for AboutPage {
    /// All fields empty.
    fn default() -> (r: Self)
        ensures
            r.ip_addr@ =~= Seq::<char>::empty(),
            r.connect_wifi@ =~= Seq::<char>::empty(),
            r.wifi_password@ =~= Seq::<char>::empty(),
            r.soft_version@ =~= Seq::<char>::empty(),
            r.ui_info.net_state == false,
            r.ui_info.battery == 0,
    {
        AboutPage {
            ip_addr: String::new(),
            connect_wifi: String::new(),
            wifi_password: String::new(),
            soft_version: String::new(),
            ui_info: Default::default(),
        }
    }
}

/// The content of one renderable page, the tagged form of the per-page
/// render dispatch.
pub enum PageContent {
    Sensor(SensorPage),
    Home(HomePageInfo),
    Image(ImagePageInfo),
}

/// An error of the screen task.
#[derive(Debug, Clone, Copy, PartialEq, Eq, Structural)]
pub enum ScreenError {
    /// The requested page has no renderer.
    UnsupportedPage,
}

/// Pages that can be rendered.
pub open spec fn spec_page_renderable(page: ActivePage) -> bool {
    page == ActivePage::Sensor || page == ActivePage::Home || page == ActivePage::Image
}

/// Picks the content for the requested page: the cached sensor snapshot for
/// the sensor page (zeros when none is cached yet), the weather lines and
/// city for the home page, the default bitmap for the image page; any other
/// page is an error.
pub fn select_page_content(
    page: ActivePage,
    last_sensor_status: Option<AllSensorData>,
    weather_info: [String; 3],
    city: String,
    ui_info: UiInfo,
) -> (r: Result<PageContent, ScreenError>)
    ensures
        r is Ok <==> spec_page_renderable(page),
        r matches Ok(c) ==> match c {
            PageContent::Sensor(s) => {
                &&& page == ActivePage::Sensor
                &&& s.sensor_data == (match last_sensor_status {
                    Some(d) => d,
                    None => AllSensorData { temperature_centi: 0, humidity_centi: 0 },
                })
                &&& s.ui_info == ui_info
            },
            PageContent::Home(h) => {
                &&& page == ActivePage::Home
                &&& h.weather_info == weather_info
                &&& h.city == city
                &&& h.ui_info == ui_info
            },
            PageContent::Image(i) => {
                &&& page == ActivePage::Image
                &&& i.image_path@ =~= "/fat/system/images/test.bmp"@
                &&& i.ui_info == ui_info
            },
        },
        r matches Err(e) ==> e == ScreenError::UnsupportedPage,
{
    match page {
        ActivePage::Sensor => {
            let sensor_data = match last_sensor_status {
                Some(d) => d,
                None => AllSensorData { temperature_centi: 0, humidity_centi: 0 },
            };
            Ok(PageContent::Sensor(SensorPage { sensor_data, ui_info }))
        },
        ActivePage::Home => {
            Ok(PageContent::Home(HomePageInfo { weather_info, city, ui_info }))
        },
        ActivePage::Image => {
            proof {
                reveal_strlit("/fat/system/images/test.bmp");
            }
            Ok(PageContent::Image(ImagePageInfo {
                image_path: String::from_str("/fat/system/images/test.bmp"),
                ui_info,
            }))
        },
        _ => Err(ScreenError::UnsupportedPage),
    }
}

/// The seven segments of a display digit.
#[derive(Debug, Clone, Copy, PartialEq, Eq, Structural)]
pub struct DigitSegments {
    pub top: bool,
    pub mid: bool,
    pub bottom: bool,
    pub left_top: bool,
    pub left_bottom: bool,
    pub right_top: bool,
    pub right_bottom: bool,
}

/// The segments lit for each character of the large clock: the usual
/// seven-segment shapes for `0`..`9`, nothing for any other character
/// (the colon is drawn as two dots, not from segments).
pub open spec fn spec_digit_segments(digit: char) -> DigitSegments {
    let t = true;
    let f = false;
    if digit == '0' {
        DigitSegments {
            top: t,
            mid: f,
            bottom: t,
            left_top: t,
            left_bottom: t,
            right_top: t,
            right_bottom: t,
        }
    } else if digit == '1' {
        DigitSegments {
            top: f,
            mid: f,
            bottom: f,
            left_top: f,
            left_bottom: f,
            right_top: t,
            right_bottom: t,
        }
    } else if digit == '2' {
        DigitSegments {
            top: t,
            mid: t,
            bottom: t,
            left_top: f,
            left_bottom: t,
            right_top: t,
            right_bottom: f,
        }
    } else if digit == '3' {
        DigitSegments {
            top: t,
            mid: t,
            bottom: t,
            left_top: f,
            left_bottom: f,
            right_top: t,
            right_bottom: t,
        }
    } else if digit == '4' {
        DigitSegments {
            top: f,
            mid: t,
            bottom: f,
            left_top: t,
            left_bottom: f,
            right_top: t,
            right_bottom: t,
        }
    } else if digit == '5' {
        DigitSegments {
            top: t,
            mid: t,
            bottom: t,
            left_top: t,
            left_bottom: f,
            right_top: f,
            right_bottom: t,
        }
    } else if digit == '6' {
        DigitSegments {
            top: t,
            mid: t,
            bottom: t,
            left_top: t,
            left_bottom: t,
            right_top: f,
            right_bottom: t,
        }
    } else if digit == '7' {
        DigitSegments {
            top: t,
            mid: f,
            bottom: f,
            left_top: f,
            left_bottom: f,
            right_top: t,
            right_bottom: t,
        }
    } else if digit == '8' {
        DigitSegments {
            top: t,
            mid: t,
            bottom: t,
            left_top: t,
            left_bottom: t,
            right_top: t,
            right_bottom: t,
        }
    } else if digit == '9' {
        DigitSegments {
            top: t,
            mid: t,
            bottom: t,
            left_top: t,
            left_bottom: f,
            right_top: t,
            right_bottom: t,
        }
    } else {
        DigitSegments {
            top: f,
            mid: f,
            bottom: f,
            left_top: f,
            left_bottom: f,
            right_top: f,
            right_bottom: f,
        }
    }
}

/// Which segments of the large clock font a character lights.
pub fn digit_segments(digit: char) -> (r: DigitSegments)
    ensures
        r == spec_digit_segments(digit),
{
    let t = true;
    let f = false;
    match digit {
        '0' => DigitSegments {
            top: t,
            mid: f,
            bottom: t,
            left_top: t,
            left_bottom: t,
            right_top: t,
            right_bottom: t,
        },
        '1' => DigitSegments {
            top: f,
            mid: f,
            bottom: f,
            left_top: f,
            left_bottom: f,
            right_top: t,
            right_bottom: t,
        },
        '2' => DigitSegments {
            top: t,
            mid: t,
            bottom: t,
            left_top: f,
            left_bottom: t,
            right_top: t,
            right_bottom: f,
        },
        '3' => DigitSegments {
            top: t,
            mid: t,
            bottom: t,
            left_top: f,
            left_bottom: f,
            right_top: t,
            right_bottom: t,
        },
        '4' => DigitSegments {
            top: f,
            mid: t,
            bottom: f,
            left_top: t,
            left_bottom: f,
            right_top: t,
            right_bottom: t,
        },
        '5' => DigitSegments {
            top: t,
            mid: t,
            bottom: t,
            left_top: t,
            left_bottom: f,
            right_top: f,
            right_bottom: t,
        },
        '6' => DigitSegments {
            top: t,
            mid: t,
            bottom: t,
            left_top: t,
            left_bottom: t,
            right_top: f,
            right_bottom: t,
        },
        '7' => DigitSegments {
            top: t,
            mid: f,
            bottom: f,
            left_top: f,
            left_bottom: f,
            right_top: t,
            right_bottom: t,
        },
        '8' => DigitSegments {
            top: t,
            mid: t,
            bottom: t,
            left_top: t,
            left_bottom: t,
            right_top: t,
            right_bottom: t,
        },
        '9' => DigitSegments {
            top: t,
            mid: t,
            bottom: t,
            left_top: t,
            left_bottom: f,
            right_top: t,
            right_bottom: t,
        },
        _ => DigitSegments {
            top: f,
            mid: f,
            bottom: f,
            left_top: f,
            left_bottom: f,
            right_top: f,
            right_bottom: f,
        },
    }
}

/// Where an image of the given pixel size sits when centered in a cell
/// area (cells are 6 by 13 pixels), as long as the image fits the area.
pub fn centered_image_position(area: Rect, img_w: u32, img_h: u32) -> (r: (u32, u32))
    requires
        img_w <= area.width as u32 * 6,
        img_h <= area.height as u32 * 13,
    ensures
        r.0 == area.x * 6 + (area.width * 6 - img_w) / 2,
        r.1 == area.y * 13 + (area.height * 13 - img_h) / 2,
{
    let px_x = area.x as u32 * 6;
    let px_y = area.y as u32 * 13;
    let px_w = area.width as u32 * 6;
    let px_h = area.height as u32 * 13;
    (px_x + (px_w - img_w) / 2, px_y + (px_h - img_h) / 2)
}

} // verus!
