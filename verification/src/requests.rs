//! Named external requests delivered over the fan-out channel, and the
//! routing decisions the display listener makes for them.

use vstd::prelude::*;

verus! {

/// A named request broadcast to the independent listeners.
#[derive(Copy, Clone, Debug, PartialEq, Eq, Hash, Structural)]
pub enum Requests {
    Notifications,
    VirtualKeyboard,
    SettingsMenu,
    ScreenRefresh,
    ScreenSettings,
    SmallScreenSettings,
    GammaLevel,
}

/// What the display listener does for one request.
#[derive(Copy, Clone, Debug, PartialEq, Eq, Structural)]
pub enum EinkAction {
    Refresh,
    Reconcile,
    Ignore,
}

impl Requests {
    /// The display listener's routing: a screen refresh is issued only for
    /// its own trigger; the settings triggers start a reconciliation pass;
    /// every other request is ignored.
    pub fn eink_action(&self) -> (r: EinkAction)
        ensures
            r == EinkAction::Refresh <==> *self == Requests::ScreenRefresh,
            r == EinkAction::Reconcile <==> (*self == Requests::ScreenSettings || *self
                == Requests::SmallScreenSettings),
    {
        match self {
            Requests::ScreenRefresh => EinkAction::Refresh,
            Requests::ScreenSettings => EinkAction::Reconcile,
            Requests::SmallScreenSettings => EinkAction::Reconcile,
            _ => EinkAction::Ignore,
        }
    }
}

/// A command to the gamma controller: force a value, or restore the one
/// active before the last forced change.
#[derive(Copy, Clone, Debug, PartialEq, Eq, Structural)]
pub enum GammaControl {
    Force(u8),
    PreviousValue,
}

/// The gamma level forced while no thresholding branch is active.
pub const DEFAULT_GAMMA: u8 = 10;

} // verus!
