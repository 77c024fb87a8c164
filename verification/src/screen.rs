//! The screen task's state machine.
//!
//! The task owns the display and a current-page field. Applying a
//! `ScreenEvent` yields a redraw command for the hardware; the policy is
//! that a refresh of the page already shown touches the hardware only when
//! that page belongs to the periodic-refresh set, a sensor snapshot only
//! updates the cache, and a popup overlays the current page without
//! changing it.

use vstd::prelude::*;
use crate::ActivePage;
use crate::ui::PopupMsg;

verus! {

/// One snapshot of every on-board sensor, in plain integer units:
/// temperature in hundredths of a degree Celsius, relative humidity in
/// hundredths of a percent.
#[derive(Debug, Clone, Copy, PartialEq, Eq, Structural)]
pub struct AllSensorData {
    pub temperature_centi: i32,
    pub humidity_centi: i32,
}

impl Default for AllSensorData {
    /// An all-zero snapshot.
    fn default() -> (r: Self)
        ensures
            r.temperature_centi == 0,
            r.humidity_centi == 0,
    {
        AllSensorData { temperature_centi: 0, humidity_centi: 0 }
    }
}

/// An event on the screen channel.
pub enum ScreenEvent {
    /// Show this page, or refresh it if already shown.
    Refresh(ActivePage),
    /// New sensor readings for the cache; no redraw by itself.
    UpdateSensorsData(AllSensorData),
    /// Overlay a message box on whatever page is shown.
    Popup(PopupMsg),
}

/// What the hardware should do for one event.
pub enum RedrawCommand {
    /// No hardware call at all.
    Skip,
    /// Run the full render sequence for this page, with an optional popup
    /// overlaid.
    Draw(ActivePage, Option<PopupMsg>),
}

impl RedrawCommand {
    /// Whether the command reaches the hardware.
    pub open spec fn is_draw(self) -> bool {
        self is Draw
    }
}

/// The screen task's private state.
pub struct ScreenState {
    /// The page currently on the glass; only `Refresh` events that pass the
    /// redraw policy may change it.
    pub current_page: ActivePage,
    /// The latest sensor snapshot, shown by the sensor page.
    pub last_sensor_status: Option<AllSensorData>,
}

/// The panel dimensions a screen is built with: requested sizes below the
/// panel's physical 128 by 296 pixels are raised to it.
pub fn screen_dimensions(width: u16, height: u16) -> (r: (u16, u16))
    ensures
        r.0 == (if width >= 128 {
            width as int
        } else {
            128int
        }),
        r.1 == (if height >= 296 {
            height as int
        } else {
            296int
        }),
{
    let w = if width >= 128 {
        width
    } else {
        128
    };
    let h = if height >= 296 {
        height
    } else {
        296
    };
    (w, h)
}

/// Whether a refresh of `page` reaches the hardware when `current` is
/// shown: only on a page change or for a periodic-refresh page.
pub open spec fn spec_refresh_draws(current: ActivePage, page: ActivePage) -> bool {
    page != current || page.spec_is_need_refresh()
}

impl ScreenState {
    /// The state a freshly booted screen task starts in: the page the
    /// persisted configuration carried, and no cached sensor data.
    pub fn new(current_page: ActivePage) -> (r: ScreenState)
        ensures
            r.current_page == current_page,
            r.last_sensor_status is None,
    {
        ScreenState { current_page, last_sensor_status: None }
    }

    /// Applies one event: decides whether the hardware is touched and
    /// updates the state. The current page changes only through a `Refresh`
    /// that passes the redraw policy; a popup never changes it.
    pub fn apply_event(&mut self, event: ScreenEvent) -> (r: RedrawCommand)
        ensures
            match event {
                ScreenEvent::Refresh(page) => {
                    &&& r.is_draw() == spec_refresh_draws(old(self).current_page, page)
                    &&& (r.is_draw() ==> final(self).current_page == page && r == RedrawCommand::Draw(
                        page,
                        None::<PopupMsg>,
                    ))
                    &&& (!r.is_draw() ==> final(self).current_page == old(self).current_page)
                    &&& final(self).last_sensor_status == old(self).last_sensor_status
                },
                ScreenEvent::UpdateSensorsData(data) => {
                    &&& r is Skip
                    &&& final(self).current_page == old(self).current_page
                    &&& final(self).last_sensor_status == Some(data)
                },
                ScreenEvent::Popup(msg) => {
                    &&& r == RedrawCommand::Draw(old(self).current_page, Some(msg))
                    &&& final(self).current_page == old(self).current_page
                    &&& final(self).last_sensor_status == old(self).last_sensor_status
                },
            },
    {
        match event {
            ScreenEvent::Refresh(page) => {
                if page == self.current_page && !page.cur_set_page_is_need_refresh() {
                    RedrawCommand::Skip
                } else {
                    self.current_page = page;
                    RedrawCommand::Draw(page, None)
                }
            },
            ScreenEvent::UpdateSensorsData(data) => {
                self.last_sensor_status = Some(data);
                RedrawCommand::Skip
            },
            ScreenEvent::Popup(msg) => {
                RedrawCommand::Draw(self.current_page, Some(msg))
            },
        }
    }
}

/// Two back-to-back refreshes of the same page: the second one reaches the
/// hardware exactly when that page belongs to the periodic-refresh set;
/// otherwise it is a no-op.
pub proof fn lemma_refresh_twice(current: ActivePage, page: ActivePage)
    ensures
        ({
            let first_draws = spec_refresh_draws(current, page);
            let page_after_first = if first_draws {
                page
            } else {
                current
            };
            spec_refresh_draws(page_after_first, page) == page.spec_is_need_refresh()
        }),
{
}

} // verus!
