//! The key task's event mapping.
//!
//! Each completed button gesture maps to a page-navigation request, an
//! administrative action, or nothing, and emits a companion beep. The page
//! mapping is a table from (click count, key index); an entry that maps to
//! no page stands for an administrative action. The single administrative
//! action that works the radio — the network sync on a triple click of the
//! first key — explicitly suppresses the companion beep; every other
//! outcome keeps it.

use vstd::prelude::*;
use vstd::string::StringExecFns;
use crate::ActivePage;
use crate::button::KeyClickedType;
use crate::button::PressedKeyInfo;

verus! {

/// What a key event asks the system to do.
pub enum KeyAction {
    /// Show this page.
    Navigate(ActivePage),
    /// Reconnect WiFi and run the network sync.
    SyncNetwork,
    /// Play the file at this path through the speaker.
    PlayMedia(String),
    /// Nothing; the gesture has no binding.
    NoAction,
}

/// The action and whether the companion beep is sounded.
pub struct KeyOutcome {
    pub action: KeyAction,
    pub beep: bool,
}

/// The number of clicks a classification stands for; zero for none.
pub open spec fn spec_click_count(t: KeyClickedType) -> int {
    match t {
        KeyClickedType::NoClick => 0,
        KeyClickedType::SingleClicked => 1,
        KeyClickedType::DoubleClicked => 2,
        KeyClickedType::TripleClicked => 3,
    }
}

/// The page-mapping table from (click count, key index); entries mapping
/// to no page stand for administrative actions.
pub open spec fn spec_page_for(count: int, idx: int) -> ActivePage {
    if count == 1 && idx == 0 {
        ActivePage::Sensor
    } else if count == 1 && idx == 1 {
        ActivePage::Home
    } else if count == 1 && idx == 2 {
        ActivePage::Image
    } else if count == 3 && idx == 1 {
        ActivePage::About
    } else {
        ActivePage::NoPage
    }
}

/// Administrative fallback for gestures outside the page table: a triple
/// click of the first key reconnects the network, a triple click of the
/// third key plays the test media file, and anything else does nothing.
pub open spec fn spec_admin_is_sync(count: int, idx: int) -> bool {
    count == 3 && idx == 0
}

/// The gesture plays the test media file.
pub open spec fn spec_admin_is_media(count: int, idx: int) -> bool {
    count == 3 && idx == 2
}

/// The companion beep is emitted for every outcome except the network
/// sync, which suppresses it.
pub open spec fn spec_beep_for(count: int, idx: int) -> bool {
    !spec_admin_is_sync(count, idx)
}

/// The file the media gesture plays.
pub fn media_path() -> (r: String)
    ensures
        r@ =~= "/fat/system/media/test.wav"@,
{
    proof {
        reveal_strlit("/fat/system/media/test.wav");
    }
    String::from_str("/fat/system/media/test.wav")
}

/// Maps one completed gesture to its outcome: navigation when the page
/// table binds it, otherwise the administrative fallback; the beep flag
/// follows the action, suppressed only by the network sync.
pub fn map_key_event(info: &PressedKeyInfo) -> (r: KeyOutcome)
    ensures
        ({
            let count = spec_click_count(info.click_type);
            let page = spec_page_for(count, info.idx as int);
            &&& r.beep == spec_beep_for(count, info.idx as int)
            &&& (page != ActivePage::NoPage ==> (r.action matches KeyAction::Navigate(p) && p
                == page))
            &&& (page == ActivePage::NoPage && spec_admin_is_sync(count, info.idx as int)
                ==> r.action is SyncNetwork)
            &&& (page == ActivePage::NoPage && spec_admin_is_media(count, info.idx as int) ==> (
            r.action matches KeyAction::PlayMedia(path) && path@
                =~= "/fat/system/media/test.wav"@))
            &&& (page == ActivePage::NoPage && !spec_admin_is_sync(count, info.idx as int)
                && !spec_admin_is_media(count, info.idx as int) ==> r.action is NoAction)
        }),
{
    let count: u32 = match info.click_type {
        KeyClickedType::NoClick => 0,
        KeyClickedType::SingleClicked => 1,
        KeyClickedType::DoubleClicked => 2,
        KeyClickedType::TripleClicked => 3,
    };
    let page = if count == 1 && info.idx == 0 {
        ActivePage::Sensor
    } else if count == 1 && info.idx == 1 {
        ActivePage::Home
    } else if count == 1 && info.idx == 2 {
        ActivePage::Image
    } else if count == 3 && info.idx == 1 {
        ActivePage::About
    } else {
        ActivePage::NoPage
    };
    if page != ActivePage::NoPage {
        KeyOutcome { action: KeyAction::Navigate(page), beep: true }
    } else if count == 3 && info.idx == 0 {
        KeyOutcome { action: KeyAction::SyncNetwork, beep: false }
    } else if count == 3 && info.idx == 2 {
        KeyOutcome { action: KeyAction::PlayMedia(media_path()), beep: true }
    } else {
        KeyOutcome { action: KeyAction::NoAction, beep: true }
    }
}

/// The beep-suppression flag matches the action taken: for every gesture,
/// the companion beep is suppressed exactly when the action is the
/// network sync.
pub proof fn lemma_beep_matches_action(count: int, idx: int)
    ensures
        spec_beep_for(count, idx) <==> !spec_admin_is_sync(count, idx),
        spec_page_for(count, idx) != ActivePage::NoPage ==> spec_beep_for(count, idx),
{
}

} // verus!
