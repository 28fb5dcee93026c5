use bevy_fmod::studio_setup::{
    SetupFailure, SetupStep, StudioSettings, INIT_3D_RIGHTHANDED, LOAD_BANK_NORMAL, MAX_CHANNELS,
    STUDIO_INIT_LIVEUPDATE, STUDIO_INIT_NORMAL,
};

#[test]
fn flags_have_fmod_values() {
    assert_eq!(STUDIO_INIT_NORMAL, 0x0);
    assert_eq!(STUDIO_INIT_LIVEUPDATE, 0x1);
    assert_eq!(INIT_3D_RIGHTHANDED, 0x4);
    assert_eq!(LOAD_BANK_NORMAL, 0x0);
}

#[test]
fn settings_without_live_update() {
    let s = StudioSettings::for_live_update(false);
    assert_eq!(s, StudioSettings { max_channels: 1024, studio_flags: 0, init_flags: 4 });
}

#[test]
fn settings_with_live_update() {
    let s = StudioSettings::for_live_update(true);
    assert_eq!(s.max_channels, MAX_CHANNELS);
    assert_eq!(s.studio_flags, 1);
    assert_eq!(s.init_flags, 4);
}

#[test]
fn setup_with_three_banks_succeeds_in_order() {
    let mut step = SetupStep::start();
    let mut seen = Vec::new();
    while step != SetupStep::Ready {
        seen.push(step);
        step = step.after(true, 3);
    }
    assert_eq!(
        seen,
        vec![
            SetupStep::CreateStudio,
            SetupStep::InitializeStudio,
            SetupStep::LoadBank(0),
            SetupStep::LoadBank(1),
            SetupStep::LoadBank(2),
        ]
    );
}

#[test]
fn setup_without_banks_is_ready_after_initializing() {
    let step = SetupStep::start().after(true, 0);
    assert_eq!(step, SetupStep::InitializeStudio);
    assert_eq!(step.after(true, 0), SetupStep::Ready);
}

#[test]
fn setup_failures_name_the_step() {
    assert_eq!(
        SetupStep::CreateStudio.after(false, 2),
        SetupStep::Failed(SetupFailure::CreateStudio)
    );
    assert_eq!(
        SetupStep::InitializeStudio.after(false, 2),
        SetupStep::Failed(SetupFailure::InitializeStudio)
    );
    assert_eq!(
        SetupStep::LoadBank(1).after(false, 2),
        SetupStep::Failed(SetupFailure::LoadBank(1))
    );
}

#[test]
fn finished_setup_stays() {
    assert_eq!(SetupStep::Ready.after(false, 2), SetupStep::Ready);
    let failed = SetupStep::Failed(SetupFailure::LoadBank(0));
    assert_eq!(failed.after(true, 2), failed);
}

#[test]
fn last_bank_makes_setup_ready() {
    assert_eq!(SetupStep::LoadBank(1).after(true, 2), SetupStep::Ready);
    assert_eq!(SetupStep::LoadBank(0).after(true, 2), SetupStep::LoadBank(1));
}
