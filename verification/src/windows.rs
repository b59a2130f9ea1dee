//! Per-window display settings: an application id paired with the driver
//! mode to apply while that window is focused.

use vstd::prelude::*;

use crate::mode::DriverMode;

verus! {

/// The display settings applied while the window with `app_id` is focused.
#[derive(Clone, Debug, PartialEq)]
pub struct EinkWindowSetting {
    pub app_id: String,
    pub settings: DriverMode,
}

/// Checks a settings list before it is saved: returns the index of the
/// first entry with an empty application id, or `None` when every entry
/// carries one.
pub fn validate_window_settings(settings: &Vec<EinkWindowSetting>) -> (r: Option<usize>)
    ensures
        match r {
            Some(i) => i < settings@.len() && settings@[i as int].app_id@.len() == 0 && (forall|
                j: int,
            |
                0 <= j < i ==> settings@[j].app_id@.len() > 0),
            None => forall|j: int| 0 <= j < settings@.len() ==> settings@[j].app_id@.len() > 0,
        },
{
    let n = settings.len();
    let mut i: usize = 0;
    while i < n
        invariant
            i <= n,
            n == settings@.len(),
            forall|j: int| 0 <= j < i ==> settings@[j].app_id@.len() > 0,
        decreases n - i,
    {
        if settings[i].app_id.as_str().is_empty() {
            return Some(i);
        }
        i += 1;
    }
    None
}

} // verus!
