//! Boot stage bookkeeping.
//!
//! During boot the system passes through several stages, one after the
//! other. In each stage the system state is further developed, and some
//! things must be solved differently: as long as UEFI boot services are
//! available they are used for logging; once they are exited, the system is
//! on its own. The stage lives in an explicit state value owned by the boot
//! path, and each switch checks that the stages are entered in order.

use vstd::prelude::*;

verus! {

/// The stages a boot passes through, in order.
#[derive(Debug, PartialEq, Eq, Structural, Copy, Clone)]
#[allow(non_camel_case_types)]
pub enum BootStage {
    /// Only used as initial value. This is no real stage.
    S0_Initial,
    /// The state right after the multiboot2 handoff.
    S1_MB2Handoff,
    /// The multiboot2 information structure is parsed, a reference to the
    /// UEFI system table is at hand, and UEFI boot services are enabled.
    S2_UEFIBootServices,
    /// UEFI boot services are exited (only runtime services remain); the
    /// system is on its own.
    S3_UEFIRuntimeServices,
}

impl BootStage {
    /// Whether this stage may be entered from `from`: each real stage
    /// follows exactly its predecessor, while entering `S0_Initial` merely
    /// re-runs initial preparations and changes nothing.
    pub open spec fn transition_allowed(self, from: BootStage) -> bool {
        match self {
            BootStage::S0_Initial => true,
            BootStage::S1_MB2Handoff => from == BootStage::S0_Initial,
            BootStage::S2_UEFIBootServices => from == BootStage::S1_MB2Handoff,
            BootStage::S3_UEFIRuntimeServices => from == BootStage::S2_UEFIBootServices,
        }
    }

    /// Runs the preparatory actions for this stage and then records the
    /// switch to it in `current`, which holds the stage the system is in.
    /// Entering a stage out of order is a programming error and is ruled
    /// out up front.
    pub fn enter<T, R>(&self, current: &mut BootStage, prepare_actions: T) -> (res: R) where
        T: Fn() -> R,

        requires
            self.transition_allowed(*old(current)),
            prepare_actions.requires(()),
        ensures
            prepare_actions.ensures((), res),
            *final(current) == (if *self == BootStage::S0_Initial {
                *old(current)
            } else {
                *self
            }),
    {
        let res = prepare_actions();
        self.switch_to_next_state(current);
        res
    }

    /// Records the switch to this stage in `current`.
    fn switch_to_next_state(&self, current: &mut BootStage)
        requires
            self.transition_allowed(*old(current)),
        ensures
            *final(current) == (if *self == BootStage::S0_Initial {
                *old(current)
            } else {
                *self
            }),
    {
        match self {
            BootStage::S0_Initial => {},
            BootStage::S1_MB2Handoff => {
                *current = BootStage::S1_MB2Handoff;
            },
            BootStage::S2_UEFIBootServices => {
                *current = BootStage::S2_UEFIBootServices;
            },
            BootStage::S3_UEFIRuntimeServices => {
                *current = BootStage::S3_UEFIRuntimeServices;
            },
        }
    }
}

/// All structs whose logic depends on the current [`BootStage`] implement
/// this trait; whenever the boot stage is switched, the boot path tells
/// them so.
pub trait BootStageAware {
    /// Tells the object it should change its internal state to cope with
    /// the next boot stage.
    fn next_boot_stage(&mut self, boot_stage: BootStage);

    /// The currently active boot stage, as this object last learned it.
    fn get_boot_stage(&self) -> BootStage;
}

} // verus!
