use buckle::cache::InstallError;
use buckle::install::{first_install_step, next_install_step, InstallStep, StepOutcome};

#[test]
fn without_side_artifacts_the_payload_comes_first() {
    assert_eq!(first_install_step(0), InstallStep::DecodeToTemp);
    assert_eq!(next_install_step(0, InstallStep::DecodeToTemp, StepOutcome::Succeeded), InstallStep::MarkExecutable);
}

#[test]
fn every_side_artifact_before_the_payload() {
    assert_eq!(first_install_step(2), InstallStep::WriteVerbatim(0));
    assert_eq!(next_install_step(2, InstallStep::WriteVerbatim(0), StepOutcome::Succeeded), InstallStep::WriteVerbatim(1));
    assert_eq!(next_install_step(2, InstallStep::WriteVerbatim(1), StepOutcome::Succeeded), InstallStep::DecodeToTemp);
}

#[test]
fn failure_mid_decode_never_renames() {
    let s = next_install_step(1, InstallStep::DecodeToTemp, StepOutcome::Failed(InstallError::DecodeFailed));
    assert_eq!(s, InstallStep::Abort(InstallError::DecodeFailed));
    assert_eq!(next_install_step(1, s, StepOutcome::Succeeded), s);
    let d = next_install_step(1, InstallStep::WriteVerbatim(0), StepOutcome::Failed(InstallError::DownloadFailed));
    assert_eq!(d, InstallStep::Abort(InstallError::DownloadFailed));
    let w = next_install_step(1, InstallStep::MarkExecutable, StepOutcome::Failed(InstallError::CacheWriteFailed));
    assert_eq!(w, InstallStep::Abort(InstallError::CacheWriteFailed));
}

#[test]
fn rename_failure_is_surfaced() {
    let s = next_install_step(0, InstallStep::RenameIntoPlace, StepOutcome::Failed(InstallError::CacheWriteFailed));
    assert_eq!(s, InstallStep::Abort(InstallError::CacheWriteFailed));
    assert_eq!(next_install_step(0, InstallStep::RenameIntoPlace, StepOutcome::Succeeded), InstallStep::Done);
    assert_eq!(next_install_step(0, InstallStep::Done, StepOutcome::Failed(InstallError::DownloadFailed)), InstallStep::Done);
}
