//! Prompt assembly: a pure function from a transcript snapshot to the
//! structured request sent to the generation model.
//!
//! The system instruction text is loaded once at process start and passed
//! in unchanged. The safety policy and the generation parameters are fixed
//! constants; the request's history is exactly the snapshot passed in,
//! unmodified and unfiltered. Fractional parameters (temperature, top-p)
//! are held in tenths, so the whole request is made of plain values.

use vstd::prelude::*;

use crate::transcript::{Turn, TurnView};

verus! {

/// One safety policy entry: a harm category and the blocking threshold.
pub struct SafetySetting {
    pub category: String,
    pub threshold: String,
}

#[verifier::ext_equal]
pub struct SafetySettingView {
    pub category: Seq<char>,
    pub threshold: Seq<char>,
}

impl View for SafetySetting {
    type V = SafetySettingView;

    open spec fn view(&self) -> SafetySettingView {
        SafetySettingView { category: self.category@, threshold: self.threshold@ }
    }
}

impl DeepView for SafetySetting {
    type V = SafetySettingView;

    open spec fn deep_view(&self) -> SafetySettingView {
        self.view()
    }
}

/// Sampling parameters for one generation call. `temperature_tenths` and
/// `top_p_tenths` hold ten times the fractional value they stand for, so
/// 10 means 1.0 and 8 means 0.8.
pub struct GenerationConfig {
    pub stop_sequences: Vec<String>,
    pub temperature_tenths: u32,
    pub max_output_tokens: u32,
    pub top_p_tenths: u32,
    pub top_k: u32,
}

#[verifier::ext_equal]
pub struct GenerationConfigView {
    pub stop_sequences: Seq<Seq<char>>,
    pub temperature_tenths: u32,
    pub max_output_tokens: u32,
    pub top_p_tenths: u32,
    pub top_k: u32,
}

impl View for GenerationConfig {
    type V = GenerationConfigView;

    open spec fn view(&self) -> GenerationConfigView {
        GenerationConfigView {
            stop_sequences: self.stop_sequences.deep_view(),
            temperature_tenths: self.temperature_tenths,
            max_output_tokens: self.max_output_tokens,
            top_p_tenths: self.top_p_tenths,
            top_k: self.top_k,
        }
    }
}

/// The structured payload of one generation call: fixed system
/// instructions, the full transcript snapshot as history, the safety
/// policy and the sampling parameters. A value object, built fresh per
/// call and never mutated.
pub struct GenerationRequest {
    pub system_instructions: String,
    pub history: Vec<Turn>,
    pub safety_settings: Vec<SafetySetting>,
    pub generation_config: GenerationConfig,
}

#[verifier::ext_equal]
pub struct GenerationRequestView {
    pub system_instructions: Seq<char>,
    pub history: Seq<TurnView>,
    pub safety_settings: Seq<SafetySettingView>,
    pub generation_config: GenerationConfigView,
}

impl View for GenerationRequest {
    type V = GenerationRequestView;

    open spec fn view(&self) -> GenerationRequestView {
        GenerationRequestView {
            system_instructions: self.system_instructions@,
            history: self.history.deep_view(),
            safety_settings: self.safety_settings.deep_view(),
            generation_config: self.generation_config@,
        }
    }
}

/// The single fixed safety entry: dangerous content, blocked only at high
/// severity.
pub open spec fn fixed_safety_view() -> Seq<SafetySettingView> {
    seq![
        SafetySettingView {
            category: "HARM_CATEGORY_DANGEROUS_CONTENT"@,
            threshold: "BLOCK_ONLY_HIGH"@,
        },
    ]
}

/// The fixed sampling parameters: temperature 1.0, at most 800 output
/// tokens, top-p 0.8, top-k 10, and the single stop sequence `"Title"`.
pub open spec fn fixed_config_view() -> GenerationConfigView {
    GenerationConfigView {
        stop_sequences: seq!["Title"@],
        temperature_tenths: 10,
        max_output_tokens: 800,
        top_p_tenths: 8,
        top_k: 10,
    }
}

/// The request that prompt building returns for the given system
/// instructions and transcript snapshot: the history is exactly the
/// snapshot, and everything else is a fixed constant.
pub open spec fn build_prompt_view(sys: Seq<char>, hist: Seq<TurnView>) -> GenerationRequestView {
    GenerationRequestView {
        system_instructions: sys,
        history: hist,
        safety_settings: fixed_safety_view(),
        generation_config: fixed_config_view(),
    }
}

/// The fixed sampling parameters as an owned value.
pub fn fixed_generation_config() -> (c: GenerationConfig)
    ensures
        c@ == fixed_config_view(),
{
    let mut stops: Vec<String> = Vec::new();
    stops.push(String::from_str("Title"));
    let c = GenerationConfig {
        stop_sequences: stops,
        temperature_tenths: 10,
        max_output_tokens: 800,
        top_p_tenths: 8,
        top_k: 10,
    };
    proof {
        assert(c@.stop_sequences =~~= seq!["Title"@]);
        assert(c@ =~~= fixed_config_view());
    }
    c
}

/// Pure prompt assembly: wraps the snapshot, unmodified, together with
/// the fixed system instructions, safety policy and sampling parameters.
pub fn build_prompt(system_instructions: &str, snapshot: Vec<Turn>) -> (r: GenerationRequest)
    ensures
        r@ == build_prompt_view(system_instructions@, snapshot.deep_view()),
{
    let mut safety: Vec<SafetySetting> = Vec::new();
    safety.push(
        SafetySetting {
            category: String::from_str("HARM_CATEGORY_DANGEROUS_CONTENT"),
            threshold: String::from_str("BLOCK_ONLY_HIGH"),
        },
    );
    let r = GenerationRequest {
        system_instructions: String::from_str(system_instructions),
        history: snapshot,
        safety_settings: safety,
        generation_config: fixed_generation_config(),
    };
    proof {
        assert(r@.safety_settings =~~= fixed_safety_view());
        assert(r@ =~~= build_prompt_view(system_instructions@, r.history.deep_view()));
    }
    r
}

/// Prompt building is referentially transparent: two requests built from
/// the same system instructions and the same transcript snapshot are
/// structurally identical.
pub proof fn lemma_prompt_builder_deterministic(
    sys: Seq<char>,
    hist: Seq<TurnView>,
    r1: GenerationRequestView,
    r2: GenerationRequestView,
)
    requires
        r1 == build_prompt_view(sys, hist),
        r2 == build_prompt_view(sys, hist),
    ensures
        r1 == r2,
{
}

} // verus!
