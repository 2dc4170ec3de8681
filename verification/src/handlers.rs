//! The two interaction pipelines, split around the network call.
//!
//! Each handler is: read or mutate the transcript, build the prompt, call
//! the model, extract the fragment, append the result. The network call
//! cannot stand here, so each pipeline is two verified halves. The first
//! half mutates the transcript and returns the request to send; the
//! second half takes whatever the call produced and either records the
//! model's turn and returns the fragment, or returns the upstream error
//! and leaves the transcript as it was. The caller performs the call
//! between the halves, holding no lock on the store meanwhile.

use vstd::prelude::*;

use crate::client::{first_candidate, no_candidates_cause, UpstreamError};
use crate::extract::{extract_fragment, extract_spec};
use crate::prompt::{build_prompt, build_prompt_view, GenerationRequest};
use crate::transcript::{Role, TranscriptStore, Turn, TurnView};

verus! {

/// The fixed text of the user turn that opens every session.
pub open spec fn session_start_text() -> Seq<char> {
    "Start by responding with a random webpage of your choice. Ensure the styling is a nice, dark theme."@
}

/// First half of session start: clears the transcript, appends the fixed
/// opening user turn, and builds the prompt from the resulting snapshot.
pub fn session_start_request(store: &mut TranscriptStore, system_instructions: &str) -> (req:
    GenerationRequest)
    ensures
        final(store)@ == seq![TurnView { role: Role::User, text: session_start_text() }],
        req@ == build_prompt_view(system_instructions@, final(store)@),
{
    store.reset();
    store.append(
        Turn {
            role: Role::User,
            text: String::from_str(
                "Start by responding with a random webpage of your choice. Ensure the styling is a nice, dark theme.",
            ),
        },
    );
    proof {
        assert(store@ =~~= seq![TurnView { role: Role::User, text: session_start_text() }]);
    }
    let snapshot = store.snapshot();
    build_prompt(system_instructions, snapshot)
}

/// First half of an element interaction: appends a user turn whose text
/// is the raw element identifier — the entire semantic signal the model
/// receives about what was clicked — and builds the prompt from the
/// updated snapshot.
pub fn interaction_request(
    store: &mut TranscriptStore,
    system_instructions: &str,
    element_id: &str,
) -> (req: GenerationRequest)
    ensures
        final(store)@ == old(store)@.push(TurnView { role: Role::User, text: element_id@ }),
        req@ == build_prompt_view(system_instructions@, final(store)@),
{
    store.append(Turn { role: Role::User, text: String::from_str(element_id) });
    let snapshot = store.snapshot();
    build_prompt(system_instructions, snapshot)
}

/// Extracts the fragment from the raw text of a model reply and appends
/// it to the transcript as the model's turn.
pub fn record_model_reply(store: &mut TranscriptStore, raw: &str) -> (fragment: String)
    ensures
        fragment@ == extract_spec(raw@),
        final(store)@ == old(store)@.push(TurnView { role: Role::Model, text: extract_spec(raw@) }),
{
    let fragment = extract_fragment(raw);
    store.append(Turn { role: Role::Model, text: fragment.clone() });
    fragment
}

/// Second half of both pipelines. On a successful call, the first
/// candidate's text has its code fence stripped, the fragment is appended
/// as the model's turn, and the fragment is returned; a reply without
/// candidates is rejected as malformed. On a failed call the error is
/// returned unchanged. On every failure the transcript is left exactly as
/// it was — the model turn is never appended.
pub fn complete_exchange(
    store: &mut TranscriptStore,
    outcome: Result<Vec<String>, UpstreamError>,
) -> (r: Result<String, UpstreamError>)
    ensures
        match outcome {
            Ok(candidates) => {
                if candidates.deep_view().len() > 0 {
                    r matches Ok(fragment) && fragment@ == extract_spec(candidates.deep_view()[0])
                        && final(store)@ == old(store)@.push(
                        TurnView {
                            role: Role::Model,
                            text: extract_spec(candidates.deep_view()[0]),
                        },
                    )
                } else {
                    r matches Err(e) && e matches UpstreamError::Malformed(cause) && cause@
                        == no_candidates_cause() && final(store)@ == old(store)@
                }
            },
            Err(e) => r == Result::<String, UpstreamError>::Err(e) && final(store)@ == old(
                store,
            )@,
        },
{
    match outcome {
        Ok(candidates) => {
            match first_candidate(&candidates) {
                Ok(text) => Ok(record_model_reply(store, text.as_str())),
                Err(e) => Err(e),
            }
        },
        Err(e) => Err(e),
    }
}

/// A completed exchange grows the transcript by exactly two turns: the
/// user's, then the model's, with every prior turn preserved in place. A
/// failed exchange grows it by exactly one — the user turn appended
/// before the call. Since every mutation of a shared store happens under
/// mutual exclusion, interleaved exchanges each contribute their own
/// turns and none are lost or duplicated.
pub proof fn lemma_exchange_growth(h: Seq<TurnView>, user: TurnView, model: TurnView)
    ensures
        h.push(user).push(model).len() == h.len() + 2,
        h.push(user).len() == h.len() + 1,
        h.push(user).push(model).subrange(0, h.len() as int) == h,
        h.push(user).push(model)[h.len() as int] == user,
        h.push(user).push(model)[h.len() as int + 1] == model,
{
    assert(h.push(user).push(model).subrange(0, h.len() as int) =~= h);
}

} // verus!
