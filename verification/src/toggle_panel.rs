//! The three-switch panel: each button flips an appliance switch and its light.
use vstd::prelude::*;

use crate::control_panel::LedWrite;

verus! {

/// Pins of the three appliance buttons.
pub const TOGGLE_1_PIN: u8 = 11;

pub const TOGGLE_2_PIN: u8 = 12;

pub const TOGGLE_3_PIN: u8 = 13;

/// The switches of the three-switch panel.
#[derive(Debug, Clone, Copy, PartialEq, Eq, Structural)]
pub struct PanelState {
    pub app_1: bool,
    pub app_2: bool,
    pub app_3: bool,
}

impl PanelState {
    /// A panel with every switch off.
    pub fn new() -> (r: PanelState)
        ensures
            r == (PanelState { app_1: false, app_2: false, app_3: false }),
    {
        PanelState { app_1: false, app_2: false, app_3: false }
    }

    /// The panel after a press of the button on `pin`: the button's switch
    /// flips; other pins change nothing.
    pub open spec fn after_toggle(self, pin: u8) -> PanelState {
        PanelState {
            app_1: self.app_1 != (pin == TOGGLE_1_PIN),
            app_2: self.app_2 != (pin == TOGGLE_2_PIN),
            app_3: self.app_3 != (pin == TOGGLE_3_PIN),
        }
    }

    /// Flips the switch of the button on `pin` and gives the light to set.
    pub fn toggle(&mut self, pin: u8) -> (r: Option<LedWrite>)
        ensures
            *final(self) == old(self).after_toggle(pin),
            r == (if pin == TOGGLE_1_PIN {
                Some(LedWrite { led: 0, on: final(self).app_1 })
            } else if pin == TOGGLE_2_PIN {
                Some(LedWrite { led: 1, on: final(self).app_2 })
            } else if pin == TOGGLE_3_PIN {
                Some(LedWrite { led: 2, on: final(self).app_3 })
            } else {
                None
            }),
    {
        if pin == TOGGLE_1_PIN {
            self.app_1 = !self.app_1;
            Some(LedWrite { led: 0, on: self.app_1 })
        } else if pin == TOGGLE_2_PIN {
            self.app_2 = !self.app_2;
            Some(LedWrite { led: 1, on: self.app_2 })
        } else if pin == TOGGLE_3_PIN {
            self.app_3 = !self.app_3;
            Some(LedWrite { led: 2, on: self.app_3 })
        } else {
            None
        }
    }
}

/// Pressing a button twice leaves the panel as it was.
pub proof fn lemma_toggle_twice(p: PanelState, pin: u8)
    ensures
        p.after_toggle(pin).after_toggle(pin) == p,
{
}

/// A button flips its own switch and nothing else; other pins change nothing.
pub proof fn lemma_toggle_flips_only_its_switch(p: PanelState, pin: u8)
    ensures
        p.after_toggle(pin).app_1 == (if pin == TOGGLE_1_PIN {
            !p.app_1
        } else {
            p.app_1
        }),
        p.after_toggle(pin).app_2 == (if pin == TOGGLE_2_PIN {
            !p.app_2
        } else {
            p.app_2
        }),
        p.after_toggle(pin).app_3 == (if pin == TOGGLE_3_PIN {
            !p.app_3
        } else {
            p.app_3
        }),
{
}

} // verus!
