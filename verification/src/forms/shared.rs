//! What the forms have in common.

use crate::config::{context_of, same_settings, AppConfig};
use crate::model::BuildVariant;
use crate::text::{blank, is_blank};
use vstd::prelude::*;
use vstd::string::*;

verus! {

/// The job id that a request carries: the one that was typed, where it is to be used and not blank.
pub open spec fn job_choice(use_job_id: bool, job_id: String) -> Option<String> {
    if use_job_id && !blank(job_id@) {
        Some(job_id)
    } else {
        None
    }
}

/// The job id that a request carries.
pub fn choose_job(use_job_id: bool, job_id: &String) -> (r: Option<String>)
    ensures
        r == job_choice(use_job_id, *job_id),
{
    if use_job_id && !is_blank(job_id.as_str()) {
        Some(job_id.clone())
    } else {
        None
    }
}

/// A text that was typed, or else the one that was there before.
pub open spec fn typed_or(typed: String, before: String) -> String {
    if blank(typed@) {
        before
    } else {
        typed
    }
}

/// The configuration with the ids that were typed as the ones used last.
pub open spec fn remembered(cfg: AppConfig, job_id: String, correlation_id: String) -> AppConfig {
    AppConfig {
        last_job_id: typed_or(job_id, cfg.last_job_id),
        last_correlation_id: typed_or(correlation_id, cfg.last_correlation_id),
        ..cfg
    }
}

/// Keeps the ids that were typed as the ones used last.
pub fn remember(cfg: &mut AppConfig, job_id: &String, correlation_id: &String)
    ensures
        *final(cfg) == remembered(*old(cfg), *job_id, *correlation_id),
{
    if !is_blank(job_id.as_str()) {
        cfg.last_job_id = job_id.clone();
    }
    if !is_blank(correlation_id.as_str()) {
        cfg.last_correlation_id = correlation_id.clone();
    }
}

/// The build variant at a place in the list of variants.
pub open spec fn variant_at(index: u32) -> BuildVariant {
    if index == 1 {
        BuildVariant::Release
    } else {
        BuildVariant::Debug
    }
}

/// The build variant at a place in the list of variants.
pub fn variant_of(index: u32) -> (r: BuildVariant)
    ensures
        r == variant_at(index),
{
    if index == 1 {
        BuildVariant::Release
    } else {
        BuildVariant::Debug
    }
}

/// A text, unless it is blank.
pub open spec fn filled(text: String) -> Option<String> {
    if blank(text@) {
        None
    } else {
        Some(text)
    }
}

/// A text, unless it is blank.
pub fn if_filled(text: &String) -> (r: Option<String>)
    ensures
        r == filled(*text),
{
    if is_blank(text.as_str()) {
        None
    } else {
        Some(text.clone())
    }
}

/// A job id is sent along exactly where it is to be used and something is typed; then as it is typed.
pub proof fn law_job_choice(use_job_id: bool, job_id: String)
    ensures
        job_choice(use_job_id, job_id) is Some <==> use_job_id && !blank(job_id@),
        job_choice(use_job_id, job_id) matches Some(id) ==> id == job_id,
{
}

/// What is typed on a form is remembered as what was used last, each in its place; what is left blank
/// leaves what was used before, and nothing else of the configuration changes.
pub proof fn law_remembered(cfg: AppConfig, job_id: String, correlation_id: String)
    ensures
        ({
            let r = remembered(cfg, job_id, correlation_id);
            &&& !blank(job_id@) ==> r.last_job_id == job_id
            &&& blank(job_id@) ==> r.last_job_id == cfg.last_job_id
            &&& !blank(correlation_id@) ==> r.last_correlation_id == correlation_id
            &&& blank(correlation_id@) ==> r.last_correlation_id == cfg.last_correlation_id
            &&& same_settings(r, cfg)
            &&& context_of(r) == context_of(cfg)
            &&& r.last_job_type == cfg.last_job_type && r.last_job_params == cfg.last_job_params
            &&& r.last_job_project_id == cfg.last_job_project_id
            &&& r.last_job_target_id == cfg.last_job_target_id
            &&& r.last_job_toolchain_set_id == cfg.last_job_toolchain_set_id
            &&& r.telemetry_install_id == cfg.telemetry_install_id
        }),
{
}

/// The second variant in the list is the release, and every other place stands for debugging; no
/// place stands for no variant.
pub proof fn law_variants(index: u32)
    ensures
        variant_at(index) == BuildVariant::Release <==> index == 1,
        variant_at(index) == BuildVariant::Debug <==> index != 1,
{
}

/// A field is sent along exactly where something is typed; then as it is typed.
pub proof fn law_filled(text: String, before: String)
    ensures
        filled(text) is Some <==> !blank(text@),
        filled(text) matches Some(t) ==> t == text,
        typed_or(text, before) == if blank(text@) {
            before
        } else {
            text
        },
{
}

} // verus!
