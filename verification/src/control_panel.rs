//! The control panel's state: three appliance switches, the network light and
//! the car's target charge, set with two buttons.
use vstd::prelude::*;

verus! {

/// Pins of the panel's buttons.
pub const APPLIANCE_1_PIN: u8 = 17;

pub const APPLIANCE_2_PIN: u8 = 18;

pub const APPLIANCE_3_PIN: u8 = 27;

pub const EV_TARGET_UP_PIN: u8 = 20;

pub const EV_TARGET_DOWN_PIN: u8 = 21;

/// Bounds and step of the car's target charge, in percent.
pub const EV_TARGET_MAX: u8 = 95;

pub const EV_TARGET_MIN: u8 = 25;

pub const EV_TARGET_STEP: u8 = 5;

/// Energy that the first appliance adds to the expected use, in Wh.
pub const APPLIANCE_1_WH: i64 = 2400;

/// A light of the panel to switch: `led` indexes the lights in the order
/// appliance 1, appliance 2, appliance 3, network.
#[derive(Debug, Clone, Copy, PartialEq, Eq, Structural)]
pub struct LedWrite {
    pub led: usize,
    pub on: bool,
}

/// What the panel shows and holds.
#[derive(Debug, Clone, Copy, PartialEq, Eq, Structural)]
pub struct PanelState {
    pub app_1: bool,
    pub app_2: bool,
    pub app_3: bool,
    pub lan: bool,
    pub ev_target_perc: u8,
}

impl PanelState {
    /// The car's target charge stays within 25 to 95 percent.
    pub open spec fn target_in_range(self) -> bool {
        EV_TARGET_MIN <= self.ev_target_perc <= EV_TARGET_MAX
    }

    /// A panel with every switch and light off and the car's target at 95%.
    pub fn new() -> (r: PanelState)
        ensures
            r == (PanelState {
                app_1: false,
                app_2: false,
                app_3: false,
                lan: false,
                ev_target_perc: 95,
            }),
    {
        PanelState { app_1: false, app_2: false, app_3: false, lan: false, ev_target_perc: 95 }
    }

    /// The panel after a press of the button on `pin`: an appliance button
    /// flips its switch; the car buttons move the target by 5, up to 95 and
    /// down to 25; other pins change nothing.
    pub open spec fn after_pin(self, pin: u8) -> PanelState {
        PanelState {
            app_1: self.app_1 != (pin == APPLIANCE_1_PIN),
            app_2: self.app_2 != (pin == APPLIANCE_2_PIN),
            app_3: self.app_3 != (pin == APPLIANCE_3_PIN),
            lan: self.lan,
            ev_target_perc: if pin == EV_TARGET_UP_PIN {
                if self.ev_target_perc + 5 < 95 {
                    (self.ev_target_perc + 5) as u8
                } else {
                    95
                }
            } else if pin == EV_TARGET_DOWN_PIN {
                if self.ev_target_perc - 5 > 25 {
                    (self.ev_target_perc - 5) as u8
                } else {
                    25
                }
            } else {
                self.ev_target_perc
            },
        }
    }

    /// The light that a press of the button on `pin` sets, on the panel as it
    /// is after the press.
    pub open spec fn led_after_pin(self, pin: u8) -> Option<LedWrite> {
        if pin == APPLIANCE_1_PIN {
            Some(LedWrite { led: 0, on: self.app_1 })
        } else if pin == APPLIANCE_2_PIN {
            Some(LedWrite { led: 1, on: self.app_2 })
        } else if pin == APPLIANCE_3_PIN {
            Some(LedWrite { led: 2, on: self.app_3 })
        } else {
            None
        }
    }

    /// Handles a press of the button on `pin` and gives the light to set.
    pub fn handle_pin(&mut self, pin: u8) -> (r: Option<LedWrite>)
        requires
            pin == EV_TARGET_UP_PIN ==> old(self).ev_target_perc <= 250,
            pin == EV_TARGET_DOWN_PIN ==> old(self).ev_target_perc >= 5,
        ensures
            *final(self) == old(self).after_pin(pin),
            r == final(self).led_after_pin(pin),
    {
        if pin == APPLIANCE_1_PIN {
            self.app_1 = !self.app_1;
            Some(LedWrite { led: 0, on: self.app_1 })
        } else if pin == APPLIANCE_2_PIN {
            self.app_2 = !self.app_2;
            Some(LedWrite { led: 1, on: self.app_2 })
        } else if pin == APPLIANCE_3_PIN {
            self.app_3 = !self.app_3;
            Some(LedWrite { led: 2, on: self.app_3 })
        } else if pin == EV_TARGET_UP_PIN {
            let raised = self.ev_target_perc + EV_TARGET_STEP;
            self.ev_target_perc = if raised < EV_TARGET_MAX {
                raised
            } else {
                EV_TARGET_MAX
            };
            None
        } else if pin == EV_TARGET_DOWN_PIN {
            let lowered = self.ev_target_perc - EV_TARGET_STEP;
            self.ev_target_perc = if lowered > EV_TARGET_MIN {
                lowered
            } else {
                EV_TARGET_MIN
            };
            None
        } else {
            None
        }
    }

    /// Records whether the network is up and gives the light to set.
    pub fn set_lan(&mut self, on: bool) -> (r: LedWrite)
        ensures
            final(self).lan == on,
            final(self).app_1 == old(self).app_1,
            final(self).app_2 == old(self).app_2,
            final(self).app_3 == old(self).app_3,
            final(self).ev_target_perc == old(self).ev_target_perc,
            r == (LedWrite { led: 3, on }),
    {
        self.lan = on;
        LedWrite { led: 3, on }
    }

    /// The house's expected use in Wh: the base load, plus 2400 Wh when the
    /// first appliance is on (the other two add nothing).
    pub fn get_usage_est(&self, base_load_wh: i64) -> (r: i64)
        requires
            base_load_wh <= i64::MAX - APPLIANCE_1_WH,
        ensures
            r == base_load_wh + if self.app_1 {
                APPLIANCE_1_WH
            } else {
                0
            },
    {
        base_load_wh + if self.app_1 {
            APPLIANCE_1_WH
        } else {
            0
        }
    }
}

/// Pressing an appliance button twice leaves the panel as it was.
pub proof fn lemma_appliance_press_twice(p: PanelState, pin: u8)
    requires
        pin == APPLIANCE_1_PIN || pin == APPLIANCE_2_PIN || pin == APPLIANCE_3_PIN,
    ensures
        p.after_pin(pin).after_pin(pin) == p,
{
}

/// From a target within 25 to 95 percent, every press keeps it there, and
/// the car buttons can be pressed again.
pub proof fn lemma_target_stays_in_range(p: PanelState, pin: u8)
    requires
        p.target_in_range(),
    ensures
        p.after_pin(pin).target_in_range(),
        p.ev_target_perc <= 250 && p.ev_target_perc >= 5,
{
}

/// Raising the car's target then lowering it gives the target back, when it
/// was at most 90 percent.
pub proof fn lemma_target_up_then_down(p: PanelState)
    requires
        p.target_in_range(),
        p.ev_target_perc <= 90,
    ensures
        p.after_pin(EV_TARGET_UP_PIN).after_pin(EV_TARGET_DOWN_PIN) == p,
{
}

/// A pin that is no button of the panel changes nothing and sets no light.
pub proof fn lemma_other_pins_ignored(p: PanelState, pin: u8)
    requires
        pin != APPLIANCE_1_PIN && pin != APPLIANCE_2_PIN && pin != APPLIANCE_3_PIN,
        pin != EV_TARGET_UP_PIN && pin != EV_TARGET_DOWN_PIN,
    ensures
        p.after_pin(pin) == p,
        p.after_pin(pin).led_after_pin(pin) is None,
{
}

/// A light set by a press shows the switch that the press flipped.
pub proof fn lemma_light_follows_switch(p: PanelState, pin: u8)
    ensures
        p.after_pin(pin).led_after_pin(pin) matches Some(w) ==> (w.led == 0 && w.on == p.after_pin(
            pin,
        ).app_1 && w.on != p.app_1) || (w.led == 1 && w.on == p.after_pin(pin).app_2 && w.on
            != p.app_2) || (w.led == 2 && w.on == p.after_pin(pin).app_3 && w.on != p.app_3),
{
}

/// An appliance button flips its own switch and nothing else: the other two
/// switches, the network light and the car's target stay as they were.
pub proof fn lemma_appliance_press_flips_only_its_switch(p: PanelState, pin: u8)
    requires
        pin == APPLIANCE_1_PIN || pin == APPLIANCE_2_PIN || pin == APPLIANCE_3_PIN,
    ensures
        p.after_pin(pin).lan == p.lan,
        p.after_pin(pin).ev_target_perc == p.ev_target_perc,
        pin == APPLIANCE_1_PIN ==> p.after_pin(pin).app_1 == !p.app_1 && p.after_pin(pin).app_2
            == p.app_2 && p.after_pin(pin).app_3 == p.app_3,
        pin == APPLIANCE_2_PIN ==> p.after_pin(pin).app_1 == p.app_1 && p.after_pin(pin).app_2
            == !p.app_2 && p.after_pin(pin).app_3 == p.app_3,
        pin == APPLIANCE_3_PIN ==> p.after_pin(pin).app_1 == p.app_1 && p.after_pin(pin).app_2
            == p.app_2 && p.after_pin(pin).app_3 == !p.app_3,
{
}

/// The car buttons move only the target: every switch and the network light
/// stay as they were, and the target moves by at most 5 in the button's
/// direction.
pub proof fn lemma_target_buttons_touch_only_the_target(p: PanelState, pin: u8)
    requires
        pin == EV_TARGET_UP_PIN || pin == EV_TARGET_DOWN_PIN,
        p.target_in_range(),
    ensures
        p.after_pin(pin).app_1 == p.app_1,
        p.after_pin(pin).app_2 == p.app_2,
        p.after_pin(pin).app_3 == p.app_3,
        p.after_pin(pin).lan == p.lan,
        p.after_pin(pin).led_after_pin(pin) is None,
        pin == EV_TARGET_UP_PIN ==> p.ev_target_perc <= p.after_pin(pin).ev_target_perc
            <= p.ev_target_perc + 5,
        pin == EV_TARGET_DOWN_PIN ==> p.ev_target_perc - 5 <= p.after_pin(pin).ev_target_perc
            <= p.ev_target_perc,
{
}

} // verus!
