//! What each known target application supports for prompt insertion: how its
//! composer is found, which processes may own it, and what evidence of a
//! paste allows the prompt to be submitted.
use super::process_group::ProcessScope;
use crate::text::str_eq;
use vstd::prelude::*;

verus! {

#[derive(Clone, Copy, Debug, PartialEq, Eq)]
pub enum InputCapabilityProfile {
    CodexFirstResponder,
    Accessibility(AccessibilityProfile),
    LegacyCapturedTarget,
}

#[derive(Clone, Copy, Debug, PartialEq, Eq)]
pub struct AccessibilityProfile {
    pub process_scope: ProcessScope,
    pub window_identity: WindowIdentityRequirement,
    pub manual_accessibility: ManualAccessibilityPolicy,
    pub allowed_roles: &'static [&'static str],
    pub forbidden_subroles: &'static [&'static str],
    pub semantic_exclusions: &'static [&'static str],
    pub submit_key: SubmitKeyPolicy,
    pub paste_verification: PasteVerificationPolicy,
    pub permits_coordinate_guess: bool,
    pub permits_web_area_composer: bool,
}

#[derive(Clone, Copy, Debug, PartialEq, Eq, Structural)]
pub enum WindowIdentityRequirement {
    Required,
    BestEffort,
}

#[derive(Clone, Copy, Debug, PartialEq, Eq, Structural)]
pub enum ManualAccessibilityPolicy {
    Never,
    OnlyWhenTreeSparse,
}

#[derive(Clone, Copy, Debug, PartialEq, Eq, Structural)]
pub enum SubmitKeyPolicy {
    Enter,
    CommandEnter,
}

#[derive(Clone, Copy, Debug, PartialEq, Eq, Structural)]
pub enum PasteVerificationPolicy {
    ValueLengthOrHashChange,
    SelectionRangeChange,
    FocusStableAfterProfiledDelay { min_ms: u64, max_ms: u64 },
    PasteOnlyWithoutSubmitEvidence,
}

/// The roles a composer may have.
pub fn editable_roles() -> (r: &'static [&'static str])
    ensures
        r@.len() == 3,
        r@[0]@ == "AXTextArea"@,
        r@[1]@ == "AXTextField"@,
        r@[2]@ == "AXComboBox"@,
{
    &["AXTextArea", "AXTextField", "AXComboBox"]
}

/// The subroles a composer may never have.
pub fn forbidden_subroles() -> (r: &'static [&'static str])
    ensures
        r@.len() == 1,
        r@[0]@ == "AXSearchField"@,
{
    &["AXSearchField"]
}

/// Words that mark a field as a search or filter box.
pub fn semantic_exclusions() -> (r: &'static [&'static str])
    ensures
        r@.len() == 3,
        r@[0]@ == "search"@,
        r@[1]@ == "find"@,
        r@[2]@ == "filter"@,
{
    &["search", "find", "filter"]
}

/// The profile every accessibility target shares, with its own process scope,
/// manual-accessibility policy and paste evidence: exact window required,
/// only text areas, text fields and combo boxes, search fields forbidden,
/// Enter to submit, no coordinate guessing and no web-area composer.
pub open spec fn standard_profile(
    p: AccessibilityProfile,
    scope: ProcessScope,
    manual: ManualAccessibilityPolicy,
    paste: PasteVerificationPolicy,
) -> bool {
    &&& p.process_scope == scope
    &&& p.window_identity == WindowIdentityRequirement::Required
    &&& p.manual_accessibility == manual
    &&& p.allowed_roles@.len() == 3
    &&& p.allowed_roles@[0]@ == "AXTextArea"@
    &&& p.allowed_roles@[1]@ == "AXTextField"@
    &&& p.allowed_roles@[2]@ == "AXComboBox"@
    &&& p.forbidden_subroles@.len() == 1
    &&& p.forbidden_subroles@[0]@ == "AXSearchField"@
    &&& p.semantic_exclusions@.len() == 3
    &&& p.semantic_exclusions@[0]@ == "search"@
    &&& p.semantic_exclusions@[1]@ == "find"@
    &&& p.semantic_exclusions@[2]@ == "filter"@
    &&& p.submit_key == SubmitKeyPolicy::Enter
    &&& p.paste_verification == paste
    &&& !p.permits_coordinate_guess
    &&& !p.permits_web_area_composer
}

/// The paste evidence for a target: `evidence` for the one calibrated
/// version, none for any other or an unknown version.
pub open spec fn calibrated_evidence(
    version: Option<&str>,
    calibrated: Seq<char>,
    evidence: PasteVerificationPolicy,
) -> PasteVerificationPolicy {
    if version matches Some(v) && v@ == calibrated {
        evidence
    } else {
        PasteVerificationPolicy::PasteOnlyWithoutSubmitEvidence
    }
}

/// The capability profile of an application, by bundle identifier and the
/// version that was observed for it.
pub open spec fn profile_for(bundle_id: Seq<char>, version: Option<&str>, r: InputCapabilityProfile) -> bool {
    if bundle_id == "com.openai.codex"@ {
        r == InputCapabilityProfile::CodexFirstResponder
    } else if bundle_id == "com.anthropic.claudefordesktop"@ {
        r matches InputCapabilityProfile::Accessibility(p) && standard_profile(
            p,
            ProcessScope::MainOnly,
            ManualAccessibilityPolicy::OnlyWhenTreeSparse,
            calibrated_evidence(
                version,
                "1.18286.0"@,
                PasteVerificationPolicy::ValueLengthOrHashChange,
            ),
        )
    } else if bundle_id == "com.tencent.xinWeChat"@ {
        r matches InputCapabilityProfile::Accessibility(p) && standard_profile(
            p,
            ProcessScope::MainAndValidatedBrowserApplications,
            ManualAccessibilityPolicy::Never,
            calibrated_evidence(version, "4.1.2"@, PasteVerificationPolicy::SelectionRangeChange),
        )
    } else {
        r == InputCapabilityProfile::LegacyCapturedTarget
    }
}

fn version_is(version: Option<&str>, calibrated: &str) -> (r: bool)
    ensures
        r == (version matches Some(v) && v@ == calibrated@),
{
    match version {
        Some(v) => str_eq(v, calibrated),
        None => false,
    }
}

/// The capability profile of an application.
pub fn input_capability_profile(bundle_id: &str, observed_version: Option<&str>) -> (r: InputCapabilityProfile)
    ensures
        profile_for(bundle_id@, observed_version, r),
{
    if str_eq(bundle_id, "com.openai.codex") {
        InputCapabilityProfile::CodexFirstResponder
    } else if str_eq(bundle_id, "com.anthropic.claudefordesktop") {
        let paste = if version_is(observed_version, "1.18286.0") {
            PasteVerificationPolicy::ValueLengthOrHashChange
        } else {
            PasteVerificationPolicy::PasteOnlyWithoutSubmitEvidence
        };
        InputCapabilityProfile::Accessibility(
            accessibility_profile(
                ProcessScope::MainOnly,
                ManualAccessibilityPolicy::OnlyWhenTreeSparse,
                paste,
            ),
        )
    } else if str_eq(bundle_id, "com.tencent.xinWeChat") {
        let paste = if version_is(observed_version, "4.1.2") {
            PasteVerificationPolicy::SelectionRangeChange
        } else {
            PasteVerificationPolicy::PasteOnlyWithoutSubmitEvidence
        };
        InputCapabilityProfile::Accessibility(
            accessibility_profile(
                ProcessScope::MainAndValidatedBrowserApplications,
                ManualAccessibilityPolicy::Never,
                paste,
            ),
        )
    } else {
        InputCapabilityProfile::LegacyCapturedTarget
    }
}

/// The profile shared by accessibility targets, with the given scope,
/// manual-accessibility policy and paste evidence.
pub fn accessibility_profile(
    process_scope: ProcessScope,
    manual_accessibility: ManualAccessibilityPolicy,
    paste_verification: PasteVerificationPolicy,
) -> (r: AccessibilityProfile)
    ensures
        standard_profile(r, process_scope, manual_accessibility, paste_verification),
{
    AccessibilityProfile {
        process_scope,
        window_identity: WindowIdentityRequirement::Required,
        manual_accessibility,
        allowed_roles: editable_roles(),
        forbidden_subroles: forbidden_subroles(),
        semantic_exclusions: semantic_exclusions(),
        submit_key: SubmitKeyPolicy::Enter,
        paste_verification,
        permits_coordinate_guess: false,
        permits_web_area_composer: false,
    }
}

impl AccessibilityProfile {
    /// Whether the profile has paste evidence, without which a prompt is
    /// pasted but never submitted.
    pub fn permits_submit(self) -> (r: bool)
        ensures
            r == (self.paste_verification != PasteVerificationPolicy::PasteOnlyWithoutSubmitEvidence),
    {
        match self.paste_verification {
            PasteVerificationPolicy::PasteOnlyWithoutSubmitEvidence => false,
            _ => true,
        }
    }
}

/// An application version other than the calibrated one never gets paste
/// evidence, so its prompts are pasted but not submitted.
pub proof fn lemma_uncalibrated_versions_never_submit(
    bundle_id: Seq<char>,
    version: Option<&str>,
    r: InputCapabilityProfile,
)
    requires
        profile_for(bundle_id, version, r),
        r matches InputCapabilityProfile::Accessibility(_),
        !(version matches Some(v) && (v@ == "1.18286.0"@ || v@ == "4.1.2"@)),
    ensures
        r matches InputCapabilityProfile::Accessibility(p)
            && p.paste_verification == PasteVerificationPolicy::PasteOnlyWithoutSubmitEvidence,
{
}

/// Applications other than the known ones keep the compatibility route.
pub proof fn lemma_unknown_apps_use_compatibility_route(
    bundle_id: Seq<char>,
    version: Option<&str>,
    r: InputCapabilityProfile,
)
    requires
        profile_for(bundle_id, version, r),
        bundle_id != "com.openai.codex"@,
        bundle_id != "com.anthropic.claudefordesktop"@,
        bundle_id != "com.tencent.xinWeChat"@,
    ensures
        r == InputCapabilityProfile::LegacyCapturedTarget,
{
}

} // verus!
