//! The brightness controller: mode state and strategy dispatch.
//!
//! The controller owns the active [`BrightnessMode`] for the life of the
//! process. Every brightness request is dispatched to exactly one strategy,
//! selected by the mode; toggling the mode first plans a full-brightness
//! reset for the strategy being left, so that no display stays dimmed by a
//! forgotten gamma ramp or hardware level.

use crate::ramp::GammaRampTable;
use crate::strategy::plan_vcp_apply;
use crate::strategy::VcpCommand;
use crate::strategy::VCP_BRIGHTNESS_FEATURE;
use vstd::prelude::*;

verus! {

/// The mutually exclusive brightness strategy modes.
#[derive(Clone, Copy, Debug, PartialEq, Eq, Structural)]
pub enum BrightnessMode {
    Software,
    Hardware,
}

/// The mode that a toggle switches to.
pub open spec fn toggled(mode: BrightnessMode) -> BrightnessMode {
    match mode {
        BrightnessMode::Software => BrightnessMode::Hardware,
        BrightnessMode::Hardware => BrightnessMode::Software,
    }
}

/// Mode switching is idempotent in pairs: toggling twice restores the mode.
pub proof fn lemma_toggle_involutive(mode: BrightnessMode)
    ensures
        toggled(toggled(mode)) == mode,
{
}

/// The one write that a dispatched brightness request plans: a gamma ramp
/// for the software strategy, or a DDC/CI feature write for the hardware
/// strategy. The caller applies it to every display the chosen strategy
/// enumerates at that moment.
pub enum BrightnessCommand {
    Gamma { table: GammaRampTable },
    Vcp { command: VcpCommand },
}

impl BrightnessCommand {
    /// The command invokes the software gamma strategy.
    pub open spec fn is_gamma(self) -> bool {
        self is Gamma
    }

    /// The command invokes the hardware VCP strategy.
    pub open spec fn is_vcp(self) -> bool {
        self is Vcp
    }

    /// The command installs, on every software target, a well-formed ramp
    /// table uniformly scaled by `percent`.
    pub open spec fn applies_gamma_percent(self, percent: int) -> bool {
        &&& self matches BrightnessCommand::Gamma { table }
        &&& table.wf()
        &&& table.scaled_by(percent)
    }

    /// The command writes the hardware brightness feature with `percent`.
    pub open spec fn applies_vcp_percent(self, percent: int) -> bool {
        &&& self matches BrightnessCommand::Vcp { command }
        &&& command.feature_code == VCP_BRIGHTNESS_FEATURE
        &&& command.value == percent
    }
}

/// Owns the active mode and dispatches brightness requests to the strategy
/// that the mode selects.
pub struct BrightnessController {
    pub mode: BrightnessMode,
}

impl BrightnessController {
    /// A controller starting in `mode`.
    pub fn new(mode: BrightnessMode) -> (controller: Self)
        ensures
            controller.mode == mode,
    {
        Self { mode }
    }

    /// Dispatch a brightness request to the strategy selected by the mode:
    /// the software strategy receives the ramp for `brightness / 100`, the
    /// hardware strategy the raw percentage — and never both.
    pub fn set_brightness(&self, brightness: u32) -> (command: BrightnessCommand)
        requires
            brightness <= 100,
        ensures
            command.applies_gamma_percent(brightness as int) <==> self.mode
                == BrightnessMode::Software,
            command.applies_vcp_percent(brightness as int) <==> self.mode
                == BrightnessMode::Hardware,
    {
        match self.mode {
            BrightnessMode::Software => BrightnessCommand::Gamma {
                table: GammaRampTable::build(brightness),
            },
            BrightnessMode::Hardware => BrightnessCommand::Vcp {
                command: plan_vcp_apply(brightness),
            },
        }
    }

    /// Flip the mode and plan the transition side effect: a full-brightness
    /// reset dispatched to the strategy being left, so the displays are not
    /// left dimmed under the abandoned strategy.
    pub fn toggle_mode(&mut self) -> (reset: BrightnessCommand)
        ensures
            final(self).mode == toggled(old(self).mode),
            reset.is_gamma() <==> old(self).mode == BrightnessMode::Software,
            reset.is_vcp() <==> old(self).mode == BrightnessMode::Hardware,
            old(self).mode == BrightnessMode::Software ==> reset.applies_gamma_percent(100),
            old(self).mode == BrightnessMode::Hardware ==> reset.applies_vcp_percent(100),
    {
        match self.mode {
            BrightnessMode::Software => {
                self.mode = BrightnessMode::Hardware;
                BrightnessCommand::Gamma { table: GammaRampTable::build(100) }
            },
            BrightnessMode::Hardware => {
                self.mode = BrightnessMode::Software;
                BrightnessCommand::Vcp { command: plan_vcp_apply(100) }
            },
        }
    }
}

} // verus!
