//! Bringing the FMOD Studio system up: create it, initialise it, then load
//! each bank in the order given. The first step that fails ends the setup.
use vstd::prelude::*;

verus! {

/// FMOD's `FMOD_STUDIO_INIT_NORMAL`: the studio system's default behaviour.
pub const STUDIO_INIT_NORMAL: u32 = 0x0000_0000;

/// FMOD's `FMOD_STUDIO_INIT_LIVEUPDATE`: lets FMOD Studio connect to the game.
pub const STUDIO_INIT_LIVEUPDATE: u32 = 0x0000_0001;

/// FMOD's `FMOD_INIT_3D_RIGHTHANDED`: 3D positions use a right-handed system.
pub const INIT_3D_RIGHTHANDED: u32 = 0x0000_0004;

/// FMOD's `FMOD_STUDIO_LOAD_BANK_NORMAL`: a bank loads before the call returns.
pub const LOAD_BANK_NORMAL: u32 = 0x0000_0000;

/// The number of channels the studio system is initialised with.
pub const MAX_CHANNELS: i32 = 1024;

/// How the studio system is initialised.
#[derive(Clone, Copy, Debug, PartialEq, Eq, Structural)]
pub struct StudioSettings {
    pub max_channels: i32,
    pub studio_flags: u32,
    pub init_flags: u32,
}

/// The studio flags: the normal ones, with live update where it is asked for.
pub open spec fn spec_studio_flags(live_update: bool) -> u32 {
    if live_update {
        STUDIO_INIT_NORMAL | STUDIO_INIT_LIVEUPDATE
    } else {
        STUDIO_INIT_NORMAL
    }
}

impl StudioSettings {
    /// The settings the studio system is initialised with: 1024 channels,
    /// a right-handed 3D system, and live update only where it is asked for.
    pub fn for_live_update(live_update: bool) -> (r: StudioSettings)
        ensures
            r.max_channels == MAX_CHANNELS,
            r.studio_flags == spec_studio_flags(live_update),
            r.init_flags == INIT_3D_RIGHTHANDED,
    {
        let studio_flags: u32 = if live_update {
            STUDIO_INIT_NORMAL | STUDIO_INIT_LIVEUPDATE
        } else {
            STUDIO_INIT_NORMAL
        };
        StudioSettings { max_channels: MAX_CHANNELS, studio_flags, init_flags: INIT_3D_RIGHTHANDED }
    }
}

/// The step of the setup that failed.
#[derive(Clone, Copy, Debug, PartialEq, Eq, Structural)]
pub enum SetupFailure {
    CreateStudio,
    InitializeStudio,
    /// Loading the bank at this position of the list.
    LoadBank(usize),
}

/// Where the setup stands: the step to take next, or how it ended.
#[derive(Clone, Copy, Debug, PartialEq, Eq, Structural)]
pub enum SetupStep {
    CreateStudio,
    InitializeStudio,
    /// Load the bank at this position of the list.
    LoadBank(usize),
    Ready,
    Failed(SetupFailure),
}

/// The step after the studio system is initialised: the first bank, if any.
pub open spec fn spec_first_bank_step(bank_count: nat) -> SetupStep {
    if bank_count == 0 {
        SetupStep::Ready
    } else {
        SetupStep::LoadBank(0)
    }
}

impl SetupStep {
    /// Whether the setup is over, ready or failed.
    pub open spec fn is_done(self) -> bool {
        self is Ready || self is Failed
    }

    /// Where the setup stands after this step succeeded or failed, with
    /// `bank_count` banks to load.
    pub open spec fn spec_after(self, succeeded: bool, bank_count: nat) -> SetupStep {
        match self {
            SetupStep::CreateStudio => if succeeded {
                SetupStep::InitializeStudio
            } else {
                SetupStep::Failed(SetupFailure::CreateStudio)
            },
            SetupStep::InitializeStudio => if succeeded {
                spec_first_bank_step(bank_count)
            } else {
                SetupStep::Failed(SetupFailure::InitializeStudio)
            },
            SetupStep::LoadBank(i) => if !succeeded {
                SetupStep::Failed(SetupFailure::LoadBank(i))
            } else if i + 1 < bank_count {
                SetupStep::LoadBank((i + 1) as usize)
            } else {
                SetupStep::Ready
            },
            _ => self,
        }
    }

    /// The first step of the setup.
    pub fn start() -> (r: SetupStep)
        ensures
            r == SetupStep::CreateStudio,
    {
        SetupStep::CreateStudio
    }

    /// Where the setup stands after this step succeeded or failed, with
    /// `bank_count` banks to load: a failure ends it, naming the step; a
    /// success moves on to the next step, the banks in the order of the
    /// list; a setup that is over stays as it is.
    pub fn after(&self, succeeded: bool, bank_count: usize) -> (r: SetupStep)
        ensures
            r == self.spec_after(succeeded, bank_count as nat),
    {
        match *self {
            SetupStep::CreateStudio => if succeeded {
                SetupStep::InitializeStudio
            } else {
                SetupStep::Failed(SetupFailure::CreateStudio)
            },
            SetupStep::InitializeStudio => if !succeeded {
                SetupStep::Failed(SetupFailure::InitializeStudio)
            } else if bank_count == 0 {
                SetupStep::Ready
            } else {
                SetupStep::LoadBank(0)
            },
            SetupStep::LoadBank(i) => if !succeeded {
                SetupStep::Failed(SetupFailure::LoadBank(i))
            } else if i < bank_count && i + 1 < bank_count {
                SetupStep::LoadBank(i + 1)
            } else {
                SetupStep::Ready
            },
            done => done,
        }
    }
}

/// Where the setup stands after `k` steps in a row that all succeeded.
pub open spec fn setup_after_successes(k: nat, bank_count: nat) -> SetupStep
    decreases k,
{
    if k == 0 {
        SetupStep::CreateStudio
    } else {
        setup_after_successes((k - 1) as nat, bank_count).spec_after(true, bank_count)
    }
}

/// When every step succeeds, the banks are loaded one after the other in the
/// order of the list: the step after creating, initialising and loading the
/// first `j` banks is loading bank `j`.
pub proof fn lemma_banks_load_in_order(bank_count: usize, j: usize)
    requires
        j < bank_count,
    ensures
        setup_after_successes((j + 2) as nat, bank_count as nat) == SetupStep::LoadBank(j),
    decreases j,
{
    if j > 0 {
        lemma_banks_load_in_order(bank_count, (j - 1) as usize);
    } else {
        assert(setup_after_successes(0, bank_count as nat) == SetupStep::CreateStudio);
        assert(setup_after_successes(1, bank_count as nat) == SetupStep::InitializeStudio);
    }
}

/// When every step succeeds, the setup is ready after creating, initialising
/// and one step per bank, and not before.
pub proof fn lemma_setup_ready_after_every_step(bank_count: usize)
    ensures
        setup_after_successes((bank_count + 2) as nat, bank_count as nat) == SetupStep::Ready,
        forall|k: nat| k < bank_count + 2 ==> !(#[trigger] setup_after_successes(k, bank_count as nat)).is_done(),
{
    if bank_count > 0 {
        lemma_banks_load_in_order(bank_count, (bank_count - 1) as usize);
    } else {
        assert(setup_after_successes(0, 0) == SetupStep::CreateStudio);
        assert(setup_after_successes(1, 0) == SetupStep::InitializeStudio);
    }
    assert forall|k: nat| k < bank_count + 2 implies !(#[trigger] setup_after_successes(
        k,
        bank_count as nat,
    )).is_done() by {
        if k >= 2 {
            lemma_banks_load_in_order(bank_count, (k - 2) as usize);
        } else if k == 1 {
            assert(setup_after_successes(0, bank_count as nat) == SetupStep::CreateStudio);
            assert(setup_after_successes(1, bank_count as nat) == SetupStep::InitializeStudio);
        }
    }
}

/// A step that fails ends the setup and names itself; a setup that is over
/// stays as it is, whatever comes after.
pub proof fn lemma_failure_ends_setup(step: SetupStep, succeeded: bool, bank_count: nat)
    ensures
        step.is_done() ==> step.spec_after(succeeded, bank_count) == step,
        step == SetupStep::CreateStudio ==> step.spec_after(false, bank_count)
            == SetupStep::Failed(SetupFailure::CreateStudio),
        step == SetupStep::InitializeStudio ==> step.spec_after(false, bank_count)
            == SetupStep::Failed(SetupFailure::InitializeStudio),
        forall|i: usize|
            step == SetupStep::LoadBank(i) ==> step.spec_after(false, bank_count)
                == SetupStep::Failed(SetupFailure::LoadBank(i)),
{
}

} // verus!
