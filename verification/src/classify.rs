//! The model-loading classifier: keyword rules that decide whether a piece of
//! upstream error text, or an observed latency, points at a backend whose
//! model is still loading, and a finer classification of such text.
//!
//! The rules are deliberately biased toward recall: generic backend-distress
//! wording ("timeout", "503", ...) counts as a loading condition, because in
//! this domain transient upstream failures are overwhelmingly caused by a
//! model that is still initializing. Callers preferring to fail fast must not
//! lean on the distress rule.

use vstd::prelude::*;

use crate::text::chars_vec;
use crate::text::contains_lit;
use crate::text::contains_seq;
use crate::text::lemma_contains_within;
use crate::text::lower_of;
use crate::text::lowercase;

verus! {

/// The lowered text holds one of the explicit loading phrases.
pub open spec fn has_explicit_loading_phrase(l: Seq<char>) -> bool {
    ||| contains_seq(l, "loading model"@)
    ||| contains_seq(l, "model loading"@)
    ||| contains_seq(l, "model is loading"@)
    ||| contains_seq(l, "loading the model"@)
    ||| contains_seq(l, "model not loaded"@)
    ||| contains_seq(l, "not loaded"@)
    ||| contains_seq(l, "model unavailable"@)
    ||| contains_seq(l, "model not available"@)
    ||| contains_seq(l, "model not found"@)
    ||| contains_seq(l, "no model"@)
    ||| contains_seq(l, "invalid model"@)
    ||| contains_seq(l, "unknown model"@)
    ||| contains_seq(l, "failed to load"@)
    ||| contains_seq(l, "loading failed"@)
    ||| contains_seq(l, "model error"@)
    ||| contains_seq(l, "is not embedding"@)
    ||| contains_seq(l, "model initialization"@)
    ||| contains_seq(l, "initializing model"@)
    ||| contains_seq(l, "warming up model"@)
    ||| contains_seq(l, "model startup"@)
    ||| contains_seq(l, "preparing model"@)
    ||| contains_seq(l, "model not ready"@)
}

/// The lowered text holds a word of failure or absence.
pub open spec fn has_negative_word(l: Seq<char>) -> bool {
    ||| contains_seq(l, "no"@)
    ||| contains_seq(l, "not"@)
    ||| contains_seq(l, "missing"@)
    ||| contains_seq(l, "invalid"@)
    ||| contains_seq(l, "unknown"@)
    ||| contains_seq(l, "failed"@)
    ||| contains_seq(l, "unavailable"@)
    ||| contains_seq(l, "unreachable"@)
}

/// The lowered text refers to a model or to loading it.
pub open spec fn has_model_ref_word(l: Seq<char>) -> bool {
    ||| contains_seq(l, "model"@)
    ||| contains_seq(l, "load"@)
    ||| contains_seq(l, "available"@)
    ||| contains_seq(l, "ready"@)
    ||| contains_seq(l, "initialize"@)
}

/// The lowered text holds generic backend-distress wording.
pub open spec fn has_distress_phrase(l: Seq<char>) -> bool {
    ||| contains_seq(l, "service unavailable"@)
    ||| contains_seq(l, "server error"@)
    ||| contains_seq(l, "internal error"@)
    ||| contains_seq(l, "timeout"@)
    ||| contains_seq(l, "connection"@)
    ||| contains_seq(l, "503"@)
    ||| contains_seq(l, "500"@)
}

/// The text rule over an already lower-cased message: an explicit phrase, or
/// a negative word next to a model reference, or backend distress.
pub open spec fn is_loading_text(l: Seq<char>) -> bool {
    ||| has_explicit_loading_phrase(l)
    ||| (has_negative_word(l) && has_model_ref_word(l))
    ||| has_distress_phrase(l)
}

/// Any lowered text that holds an explicit loading phrase satisfies the text
/// rule: the explicit list is checked first and alone suffices.
pub proof fn lemma_explicit_phrase_detected(l: Seq<char>)
    requires
        has_explicit_loading_phrase(l),
    ensures
        is_loading_text(l),
{
}

/// A lowered text with no negative word, no model-reference word and no
/// distress phrase never satisfies the text rule: every explicit loading
/// phrase carries a negative or model-reference word inside itself, so such a
/// text cannot hold one either.
pub proof fn lemma_no_signal_not_detected(l: Seq<char>)
    requires
        !has_negative_word(l),
        !has_model_ref_word(l),
        !has_distress_phrase(l),
    ensures
        !is_loading_text(l),
{
    reveal_strlit("loading model");
    reveal_strlit("model loading");
    reveal_strlit("model is loading");
    reveal_strlit("loading the model");
    reveal_strlit("model not loaded");
    reveal_strlit("not loaded");
    reveal_strlit("model unavailable");
    reveal_strlit("model not available");
    reveal_strlit("model not found");
    reveal_strlit("no model");
    reveal_strlit("invalid model");
    reveal_strlit("unknown model");
    reveal_strlit("failed to load");
    reveal_strlit("loading failed");
    reveal_strlit("model error");
    reveal_strlit("is not embedding");
    reveal_strlit("model initialization");
    reveal_strlit("initializing model");
    reveal_strlit("warming up model");
    reveal_strlit("model startup");
    reveal_strlit("preparing model");
    reveal_strlit("model not ready");
    reveal_strlit("model");
    reveal_strlit("load");
    reveal_strlit("no");
    reveal_strlit("not");
    reveal_strlit("invalid");
    reveal_strlit("unknown");
    reveal_strlit("failed");
    if contains_seq(l, "loading model"@) {
        assert(("loading model"@).subrange(0, 4) =~= "load"@);
        lemma_contains_within(l, "loading model"@, "load"@, 0);
    }
    if contains_seq(l, "model loading"@) {
        assert(("model loading"@).subrange(0, 5) =~= "model"@);
        lemma_contains_within(l, "model loading"@, "model"@, 0);
    }
    if contains_seq(l, "model is loading"@) {
        assert(("model is loading"@).subrange(0, 5) =~= "model"@);
        lemma_contains_within(l, "model is loading"@, "model"@, 0);
    }
    if contains_seq(l, "loading the model"@) {
        assert(("loading the model"@).subrange(0, 4) =~= "load"@);
        lemma_contains_within(l, "loading the model"@, "load"@, 0);
    }
    if contains_seq(l, "model not loaded"@) {
        assert(("model not loaded"@).subrange(0, 5) =~= "model"@);
        lemma_contains_within(l, "model not loaded"@, "model"@, 0);
    }
    if contains_seq(l, "not loaded"@) {
        assert(("not loaded"@).subrange(0, 3) =~= "not"@);
        lemma_contains_within(l, "not loaded"@, "not"@, 0);
    }
    if contains_seq(l, "model unavailable"@) {
        assert(("model unavailable"@).subrange(0, 5) =~= "model"@);
        lemma_contains_within(l, "model unavailable"@, "model"@, 0);
    }
    if contains_seq(l, "model not available"@) {
        assert(("model not available"@).subrange(0, 5) =~= "model"@);
        lemma_contains_within(l, "model not available"@, "model"@, 0);
    }
    if contains_seq(l, "model not found"@) {
        assert(("model not found"@).subrange(0, 5) =~= "model"@);
        lemma_contains_within(l, "model not found"@, "model"@, 0);
    }
    if contains_seq(l, "no model"@) {
        assert(("no model"@).subrange(0, 2) =~= "no"@);
        lemma_contains_within(l, "no model"@, "no"@, 0);
    }
    if contains_seq(l, "invalid model"@) {
        assert(("invalid model"@).subrange(0, 7) =~= "invalid"@);
        lemma_contains_within(l, "invalid model"@, "invalid"@, 0);
    }
    if contains_seq(l, "unknown model"@) {
        assert(("unknown model"@).subrange(0, 7) =~= "unknown"@);
        lemma_contains_within(l, "unknown model"@, "unknown"@, 0);
    }
    if contains_seq(l, "failed to load"@) {
        assert(("failed to load"@).subrange(0, 6) =~= "failed"@);
        lemma_contains_within(l, "failed to load"@, "failed"@, 0);
    }
    if contains_seq(l, "loading failed"@) {
        assert(("loading failed"@).subrange(0, 4) =~= "load"@);
        lemma_contains_within(l, "loading failed"@, "load"@, 0);
    }
    if contains_seq(l, "model error"@) {
        assert(("model error"@).subrange(0, 5) =~= "model"@);
        lemma_contains_within(l, "model error"@, "model"@, 0);
    }
    if contains_seq(l, "is not embedding"@) {
        assert(("is not embedding"@).subrange(3, 6) =~= "not"@);
        lemma_contains_within(l, "is not embedding"@, "not"@, 3);
    }
    if contains_seq(l, "model initialization"@) {
        assert(("model initialization"@).subrange(0, 5) =~= "model"@);
        lemma_contains_within(l, "model initialization"@, "model"@, 0);
    }
    if contains_seq(l, "initializing model"@) {
        assert(("initializing model"@).subrange(13, 18) =~= "model"@);
        lemma_contains_within(l, "initializing model"@, "model"@, 13);
    }
    if contains_seq(l, "warming up model"@) {
        assert(("warming up model"@).subrange(11, 16) =~= "model"@);
        lemma_contains_within(l, "warming up model"@, "model"@, 11);
    }
    if contains_seq(l, "model startup"@) {
        assert(("model startup"@).subrange(0, 5) =~= "model"@);
        lemma_contains_within(l, "model startup"@, "model"@, 0);
    }
    if contains_seq(l, "preparing model"@) {
        assert(("preparing model"@).subrange(10, 15) =~= "model"@);
        lemma_contains_within(l, "preparing model"@, "model"@, 10);
    }
    if contains_seq(l, "model not ready"@) {
        assert(("model not ready"@).subrange(0, 5) =~= "model"@);
        lemma_contains_within(l, "model not ready"@, "model"@, 0);
    }
}

/// The text rule on lower-cased input. Public so that the verdict on a given
/// lowered text can be checked directly against `is_loading_text`.
pub fn is_model_loading_error_text(lower: &str) -> (r: bool)
    ensures
        r == is_loading_text(lower@),
{
    let l = chars_vec(lower);
    let explicit = contains_lit(&l, "loading model") || contains_lit(&l, "model loading")
        || contains_lit(&l, "model is loading") || contains_lit(&l, "loading the model")
        || contains_lit(&l, "model not loaded") || contains_lit(&l, "not loaded")
        || contains_lit(&l, "model unavailable") || contains_lit(&l, "model not available")
        || contains_lit(&l, "model not found") || contains_lit(&l, "no model") || contains_lit(
        &l,
        "invalid model",
    ) || contains_lit(&l, "unknown model") || contains_lit(&l, "failed to load") || contains_lit(
        &l,
        "loading failed",
    ) || contains_lit(&l, "model error") || contains_lit(&l, "is not embedding") || contains_lit(
        &l,
        "model initialization",
    ) || contains_lit(&l, "initializing model") || contains_lit(&l, "warming up model")
        || contains_lit(&l, "model startup") || contains_lit(&l, "preparing model")
        || contains_lit(&l, "model not ready");
    if explicit {
        return true;
    }
    let has_negative = contains_lit(&l, "no") || contains_lit(&l, "not") || contains_lit(
        &l,
        "missing",
    ) || contains_lit(&l, "invalid") || contains_lit(&l, "unknown") || contains_lit(&l, "failed")
        || contains_lit(&l, "unavailable") || contains_lit(&l, "unreachable");
    let has_model_ref = contains_lit(&l, "model") || contains_lit(&l, "load") || contains_lit(
        &l,
        "available",
    ) || contains_lit(&l, "ready") || contains_lit(&l, "initialize");
    let has_distress = contains_lit(&l, "service unavailable") || contains_lit(&l, "server error")
        || contains_lit(&l, "internal error") || contains_lit(&l, "timeout") || contains_lit(
        &l,
        "connection",
    ) || contains_lit(&l, "503") || contains_lit(&l, "500");
    (has_negative && has_model_ref) || has_distress
}

/// Whether a free-text error message looks like a model-loading condition:
/// the message is lower-cased and the text rule is applied.
pub fn is_model_loading_error(message: &str) -> (r: bool)
    ensures
        r == is_loading_text(lower_of(message@)),
{
    let lower = lowercase(message);
    is_model_loading_error_text(lower.as_str())
}

/// The timing rule: a request that ran strictly longer than the threshold is
/// presumed to have hit a loading condition.
pub fn is_probable_model_loading_by_timing(elapsed_ms: u128, threshold_ms: u128) -> (r: bool)
    ensures
        r == (elapsed_ms > threshold_ms),
{
    elapsed_ms > threshold_ms
}

/// The finer classification of a loading-related message.
#[derive(Clone, Copy, Debug, PartialEq, Eq, Structural)]
pub enum ModelLoadingErrorType {
    ModelNotFound,
    ModelNotLoaded,
    ModelLoading,
    ModelFailed,
    ServiceUnavailable,
    Unknown,
}

/// The subtype of a lowered message, testing the phrase groups in a fixed
/// priority order; the first matching group wins.
pub open spec fn classify_text(l: Seq<char>) -> ModelLoadingErrorType {
    if contains_seq(l, "not found"@) || contains_seq(l, "unknown model"@) || contains_seq(
        l,
        "invalid model"@,
    ) {
        ModelLoadingErrorType::ModelNotFound
    } else if contains_seq(l, "not loaded"@) || contains_seq(l, "model unavailable"@) {
        ModelLoadingErrorType::ModelNotLoaded
    } else if contains_seq(l, "loading"@) || contains_seq(l, "initializing"@) || contains_seq(
        l,
        "warming up"@,
    ) {
        ModelLoadingErrorType::ModelLoading
    } else if contains_seq(l, "failed to load"@) || contains_seq(l, "loading failed"@) {
        ModelLoadingErrorType::ModelFailed
    } else if contains_seq(l, "service unavailable"@) || contains_seq(l, "503"@) || contains_seq(
        l,
        "timeout"@,
    ) {
        ModelLoadingErrorType::ServiceUnavailable
    } else {
        ModelLoadingErrorType::Unknown
    }
}

/// The subtype classifier on lower-cased input.
pub fn classify_model_loading_error_text(lower: &str) -> (r: ModelLoadingErrorType)
    ensures
        r == classify_text(lower@),
{
    let l = chars_vec(lower);
    if contains_lit(&l, "not found") || contains_lit(&l, "unknown model") || contains_lit(
        &l,
        "invalid model",
    ) {
        ModelLoadingErrorType::ModelNotFound
    } else if contains_lit(&l, "not loaded") || contains_lit(&l, "model unavailable") {
        ModelLoadingErrorType::ModelNotLoaded
    } else if contains_lit(&l, "loading") || contains_lit(&l, "initializing") || contains_lit(
        &l,
        "warming up",
    ) {
        ModelLoadingErrorType::ModelLoading
    } else if contains_lit(&l, "failed to load") || contains_lit(&l, "loading failed") {
        ModelLoadingErrorType::ModelFailed
    } else if contains_lit(&l, "service unavailable") || contains_lit(&l, "503") || contains_lit(
        &l,
        "timeout",
    ) {
        ModelLoadingErrorType::ServiceUnavailable
    } else {
        ModelLoadingErrorType::Unknown
    }
}

/// Classifies a free-text error message into a loading-error subtype: the
/// message is lower-cased and the phrase groups are tested in priority order.
pub fn classify_model_loading_error(message: &str) -> (r: ModelLoadingErrorType)
    ensures
        r == classify_text(lower_of(message@)),
{
    let lower = lowercase(message);
    classify_model_loading_error_text(lower.as_str())
}

} // verus!
