//! What holds of every request's path through the tiers.
//!
//! The first part follows single paths, step by step: the exact hit, the semantic
//! hit, the miss with its write-backs, the bypass, the two failures. The second part
//! speaks of every series of events at once: no outside call is made twice, a bypass
//! never reads a cache, and nothing follows the answer.

use vstd::prelude::*;
use crate::cache::{CACHE_TTL_SECONDS, cache_key};
use crate::client::FailureView;
use crate::metrics::RecordCall;
use crate::models::{RequestView, ResponseView};
use crate::options::{RequestOptions, is_creative, write_back_ttl};
use crate::pipeline::{
    ActionView, EventView, LookupView, PipelineView, Source, StageView, Transition, next, start,
    tokens_of,
};
use crate::semantic::{EMBEDDING_DIMENSION, SIMILARITY_THRESHOLD_BITS, prompt_of};

verus! {

/// The state of a request at a given stage.
pub open spec fn state_at(request: RequestView, options: RequestOptions, stage: StageView) -> PipelineView {
    PipelineView {
        key: cache_key(request),
        bypass: options.bypass_cache,
        ttl: write_back_ttl(options.custom_ttl, request.temperature),
        stage,
    }
}

/// The step that every miss of the exact tier ends in: the embedding is asked for.
pub open spec fn embedding_step(request: RequestView, options: RequestOptions) -> Transition {
    Transition {
        state: state_at(request, options, StageView::Embedding { request }),
        action: ActionView::Embed { text: prompt_of(request.messages) },
        record: None,
    }
}

/// The step that sends the request to the provider, with the embedding that is
/// kept for the write-back, if one was obtained.
pub open spec fn upstream_step(
    request: RequestView,
    options: RequestOptions,
    embedding: Option<Seq<u32>>,
) -> Transition {
    Transition {
        state: state_at(request, options, StageView::Upstream { kept: embedding }),
        action: ActionView::CallUpstream { request },
        record: None,
    }
}

/// Without a bypass, a request starts with one read of the exact tier under its key.
pub proof fn law_first_read_is_exact(request: RequestView, options: RequestOptions)
    requires
        !options.bypass_cache,
    ensures
        start(request, options).action == (ActionView::LookupExact { key: cache_key(request) }),
        start(request, options).state == state_at(
            request,
            options,
            StageView::ExactLookup { request },
        ),
        start(request, options).record is None,
{
}

/// An entry of the exact tier that decodes is the answer: after the read and the
/// decoding the request is answered from the exact tier and counted as one exact hit.
/// No embedding, no search and no call to the provider lie on this path.
pub proof fn law_exact_hit_answers_at_once(
    request: RequestView,
    options: RequestOptions,
    blob: Seq<char>,
    response: ResponseView,
)
    requires
        !options.bypass_cache,
    ensures
        ({
            let read = next(
                start(request, options).state,
                EventView::ExactLookup(LookupView::Found(blob)),
            );
            let decoded = next(read.state, EventView::Decoded(Some(response)));
            &&& read.action == (ActionView::Decode { blob })
            &&& read.record is None
            &&& decoded.action == (ActionView::Respond { response, source: Source::ExactCache })
            &&& decoded.record == Some(RecordCall::ExactHit)
            &&& decoded.state.stage is Finished
        }),
{
}

/// The exact tier misses when it holds no entry, when it cannot be asked, and when
/// its entry cannot be decoded. Each miss counts nothing and leads to the same step:
/// the embedding of the request's messages is asked for.
pub proof fn law_exact_miss_leads_to_embedding(
    request: RequestView,
    options: RequestOptions,
    blob: Seq<char>,
)
    requires
        !options.bypass_cache,
    ensures
        next(start(request, options).state, EventView::ExactLookup(LookupView::NotFound))
            == embedding_step(request, options),
        next(start(request, options).state, EventView::ExactLookup(LookupView::Failed))
            == embedding_step(request, options),
        next(
            next(
                start(request, options).state,
                EventView::ExactLookup(LookupView::Found(blob)),
            ).state,
            EventView::Decoded(None),
        ) == embedding_step(request, options),
{
}

/// With a bypass, a request starts at the embedding: the exact tier is not read.
pub proof fn law_bypass_starts_with_embedding(request: RequestView, options: RequestOptions)
    requires
        options.bypass_cache,
    ensures
        start(request, options) == embedding_step(request, options),
{
}

/// Without a bypass, an embedding of 384 components is used for one search of the
/// semantic tier, at the threshold 0.90.
pub proof fn law_embedding_leads_to_search(
    request: RequestView,
    options: RequestOptions,
    components: Seq<u32>,
)
    requires
        !options.bypass_cache,
        components.len() == EMBEDDING_DIMENSION,
    ensures
        next(embedding_step(request, options).state, EventView::Embedded(Some(components)))
            == (Transition {
            state: state_at(
                request,
                options,
                StageView::SimilarLookup { request, embedding: components },
            ),
            action: ActionView::SearchSimilar {
                embedding: components,
                threshold_bits: SIMILARITY_THRESHOLD_BITS,
            },
            record: None,
        }),
{
}

/// Where no embedding can be had (the service failed, or answered with another number
/// of components than 384), the semantic tier is left out: the provider is called
/// next, and no embedding is kept for the write-back.
pub proof fn law_embedding_failure_skips_semantic_tier(
    request: RequestView,
    options: RequestOptions,
    components: Option<Seq<u32>>,
)
    requires
        components is Some ==> components->0.len() != EMBEDDING_DIMENSION,
    ensures
        next(embedding_step(request, options).state, EventView::Embedded(components))
            == upstream_step(request, options, None),
{
}

/// With a bypass, the semantic tier is not searched: an embedding that was obtained
/// is kept for the write-back and the provider is called next.
pub proof fn law_bypass_skips_search(
    request: RequestView,
    options: RequestOptions,
    components: Seq<u32>,
)
    requires
        options.bypass_cache,
        components.len() == EMBEDDING_DIMENSION,
    ensures
        next(embedding_step(request, options).state, EventView::Embedded(Some(components)))
            == upstream_step(request, options, Some(components)),
{
}

/// The state in which the semantic tier is being searched with `embedding`.
pub open spec fn searching(
    request: RequestView,
    options: RequestOptions,
    embedding: Seq<u32>,
) -> PipelineView {
    state_at(request, options, StageView::SimilarLookup { request, embedding })
}

/// An entry of the semantic tier that decodes is the answer. It is counted as one
/// semantic hit that saved the tokens of the answer; the entry is written through to
/// the exact tier as it was found, under the request's key and with the default
/// lifetime; then the request is answered. The provider is not called, and whether
/// the write succeeded changes nothing.
pub proof fn law_semantic_hit_is_promoted(
    request: RequestView,
    options: RequestOptions,
    embedding: Seq<u32>,
    blob: Seq<char>,
    response: ResponseView,
    written: bool,
)
    ensures
        ({
            let found = next(
                searching(request, options, embedding),
                EventView::SimilarLookup(LookupView::Found(blob)),
            );
            let decoded = next(found.state, EventView::Decoded(Some(response)));
            let promoted = next(decoded.state, EventView::Written(written));
            &&& found.action == (ActionView::Decode { blob })
            &&& found.record is None
            &&& decoded.action == (ActionView::StoreExact {
                key: cache_key(request),
                value: blob,
                ttl_seconds: CACHE_TTL_SECONDS,
            })
            &&& decoded.record == Some(RecordCall::SemanticHit(tokens_of(response)))
            &&& promoted.action == (ActionView::Respond {
                response,
                source: Source::SemanticCache,
            })
            &&& promoted.record is None
            &&& promoted.state.stage is Finished
        }),
{
}

/// The semantic tier misses when it holds no point near enough, when it cannot be
/// asked, and when what it holds cannot be decoded. Each miss counts nothing and
/// leads to the same step: the provider is called, and the embedding of the search is
/// the one kept for the write-back.
pub proof fn law_semantic_miss_leads_to_upstream(
    request: RequestView,
    options: RequestOptions,
    embedding: Seq<u32>,
    blob: Seq<char>,
)
    ensures
        next(
            searching(request, options, embedding),
            EventView::SimilarLookup(LookupView::NotFound),
        ) == upstream_step(request, options, Some(embedding)),
        next(
            searching(request, options, embedding),
            EventView::SimilarLookup(LookupView::Failed),
        ) == upstream_step(request, options, Some(embedding)),
        next(
            next(
                searching(request, options, embedding),
                EventView::SimilarLookup(LookupView::Found(blob)),
            ).state,
            EventView::Decoded(None),
        ) == upstream_step(request, options, Some(embedding)),
{
}

/// After the provider has answered, the answer is serialized once and written back:
/// to the exact tier under the request's key, with the caller's lifetime if one was
/// asked for, else 3600 seconds for a temperature above 0.7 and 86400 seconds otherwise;
/// then, where an embedding was kept, to the semantic tier with that embedding. Only
/// then is the request counted, as one miss that used the tokens of the answer, and
/// answered. Whether the writes succeeded changes nothing.
pub proof fn law_miss_writes_back_then_counts(
    request: RequestView,
    options: RequestOptions,
    embedding: Option<Seq<u32>>,
    response: ResponseView,
    blob: Seq<char>,
    exact_written: bool,
    similar_written: bool,
)
    ensures
        ({
            let answered = next(
                upstream_step(request, options, embedding).state,
                EventView::Upstream(Ok(response)),
            );
            let encoded = next(answered.state, EventView::Encoded(Ok(blob)));
            let stored = next(encoded.state, EventView::Written(exact_written));
            let last = next(stored.state, EventView::Written(similar_written));
            let ttl = write_back_ttl(options.custom_ttl, request.temperature);
            let answer = ActionView::Respond { response, source: Source::Upstream };
            let miss = Some(RecordCall::Miss(tokens_of(response)));
            &&& answered.action == (ActionView::Encode { response })
            &&& answered.record is None
            &&& encoded.action == (ActionView::StoreExact {
                key: cache_key(request),
                value: blob,
                ttl_seconds: ttl,
            })
            &&& encoded.record is None
            &&& options.custom_ttl is Some ==> ttl == options.custom_ttl->0
            &&& options.custom_ttl is None && is_creative(request.temperature) ==> ttl == 3600
            &&& options.custom_ttl is None && !is_creative(request.temperature) ==> ttl == 86400
            &&& match embedding {
                Some(e) => {
                    &&& stored.action == (ActionView::StoreSimilar {
                        key: cache_key(request),
                        embedding: e,
                        value: blob,
                    })
                    &&& stored.record is None
                    &&& last.action == answer
                    &&& last.record == miss
                    &&& last.state.stage is Finished
                },
                None => {
                    &&& stored.action == answer
                    &&& stored.record == miss
                    &&& stored.state.stage is Finished
                },
            }
        }),
{
}

/// A call to the provider that fails fails the request with the cause. Nothing is
/// written and nothing is counted.
pub proof fn law_upstream_failure_surfaces(
    request: RequestView,
    options: RequestOptions,
    embedding: Option<Seq<u32>>,
    cause: Seq<char>,
)
    ensures
        ({
            let failed = next(
                upstream_step(request, options, embedding).state,
                EventView::Upstream(Err(cause)),
            );
            &&& failed.action == (ActionView::Fail { failure: FailureView::Upstream(cause) })
            &&& failed.record is None
            &&& failed.state.stage is Finished
        }),
{
}

/// An answer that cannot be serialized fails the request with the cause. Nothing is
/// written and nothing is counted.
pub proof fn law_serialization_failure_surfaces(
    request: RequestView,
    options: RequestOptions,
    embedding: Option<Seq<u32>>,
    response: ResponseView,
    cause: Seq<char>,
)
    ensures
        ({
            let answered = next(
                upstream_step(request, options, embedding).state,
                EventView::Upstream(Ok(response)),
            );
            let failed = next(answered.state, EventView::Encoded(Err(cause)));
            &&& failed.action == (ActionView::Fail { failure: FailureView::Serialization(cause) })
            &&& failed.record is None
            &&& failed.state.stage is Finished
        }),
{
}

/// The kinds of action, without what they carry.
pub enum ActionKind {
    LookupExact,
    Decode,
    Embed,
    SearchSimilar,
    StoreExact,
    CallUpstream,
    Encode,
    StoreSimilar,
    Respond,
    Fail,
}

/// The kind of an action.
pub open spec fn kind_of(action: ActionView) -> ActionKind {
    match action {
        ActionView::LookupExact { .. } => ActionKind::LookupExact,
        ActionView::Decode { .. } => ActionKind::Decode,
        ActionView::Embed { .. } => ActionKind::Embed,
        ActionView::SearchSimilar { .. } => ActionKind::SearchSimilar,
        ActionView::StoreExact { .. } => ActionKind::StoreExact,
        ActionView::CallUpstream { .. } => ActionKind::CallUpstream,
        ActionView::Encode { .. } => ActionKind::Encode,
        ActionView::StoreSimilar { .. } => ActionKind::StoreSimilar,
        ActionView::Respond { .. } => ActionKind::Respond,
        ActionView::Fail { .. } => ActionKind::Fail,
    }
}

/// The steps that a series of events brings about from a state, first event first.
pub open spec fn steps_from(s: PipelineView, events: Seq<EventView>) -> Seq<Transition>
    decreases events.len(),
{
    if events.len() == 0 {
        Seq::empty()
    } else {
        let first = next(s, events[0]);
        seq![first] + steps_from(first.state, events.drop_first())
    }
}

/// All steps of a request: its first, then those that the events bring about.
pub open spec fn run(
    request: RequestView,
    options: RequestOptions,
    events: Seq<EventView>,
) -> Seq<Transition> {
    seq![start(request, options)] + steps_from(start(request, options).state, events)
}

/// How many of the steps hand out an action of the given kind.
pub open spec fn actions_of_kind(steps: Seq<Transition>, kind: ActionKind) -> nat
    decreases steps.len(),
{
    if steps.len() == 0 {
        0
    } else {
        actions_of_kind(steps.drop_first(), kind) + if kind_of(steps[0].action) == kind {
            1nat
        } else {
            0nat
        }
    }
}

/// How many of the steps count the request.
pub open spec fn records_in(steps: Seq<Transition>) -> nat
    decreases steps.len(),
{
    if steps.len() == 0 {
        0
    } else {
        records_in(steps.drop_first()) + if steps[0].record is Some {
            1nat
        } else {
            0nat
        }
    }
}

/// How many actions of a kind can still follow in a state.
pub open spec fn still_allowed(s: PipelineView, kind: ActionKind) -> nat {
    let before_embedding = s.stage is ExactLookup || s.stage is ExactDecode;
    let before_search = before_embedding || (s.stage is Embedding && !s.bypass);
    let before_upstream = before_embedding || s.stage is Embedding || s.stage is SimilarLookup
        || s.stage is SimilarDecode;
    let before_encoding = before_upstream || s.stage is Upstream;
    let before_exact_write = before_encoding || s.stage is Encoding;
    let before_similar_write = before_exact_write || s.stage is ExactWrite;
    match kind {
        ActionKind::LookupExact => 0,
        ActionKind::Decode => if s.stage is ExactLookup {
            2
        } else if before_search || s.stage is SimilarLookup {
            1
        } else {
            0
        },
        ActionKind::Embed => if before_embedding {
            1
        } else {
            0
        },
        ActionKind::SearchSimilar => if before_search {
            1
        } else {
            0
        },
        ActionKind::CallUpstream => if before_upstream {
            1
        } else {
            0
        },
        ActionKind::Encode => if before_encoding {
            1
        } else {
            0
        },
        ActionKind::StoreExact => if before_exact_write {
            1
        } else {
            0
        },
        ActionKind::StoreSimilar => if before_similar_write {
            1
        } else {
            0
        },
        ActionKind::Respond => if s.stage is Finished {
            0
        } else {
            1
        },
        ActionKind::Fail => 0,
    }
}

/// How many times the request can still be counted in a state.
pub open spec fn records_allowed(s: PipelineView) -> nat {
    if s.stage is Finished || s.stage is Promotion {
        0
    } else {
        1
    }
}

proof fn lemma_steps_within_allowance(s: PipelineView, events: Seq<EventView>, kind: ActionKind)
    requires
        kind != ActionKind::Fail,
    ensures
        actions_of_kind(steps_from(s, events), kind) <= still_allowed(s, kind),
        records_in(steps_from(s, events)) <= records_allowed(s),
    decreases events.len(),
{
    if events.len() > 0 {
        let first = next(s, events[0]);
        let steps = steps_from(s, events);
        let rest = steps_from(first.state, events.drop_first());
        assert(steps[0] == first);
        assert(steps.drop_first() == rest);
        lemma_steps_within_allowance(first.state, events.drop_first(), kind);
        assert(first.state.bypass == s.bypass);
    }
}

/// Whatever events a request is handed, in whatever order: the exact tier is read at
/// most once, the embedding service is asked at most once, the semantic tier is
/// searched at most once, the provider is called at most once, the answer is
/// serialized at most once, each tier is written at most once, the request is
/// answered at most once and counted at most once.
pub proof fn law_no_call_is_made_twice(
    request: RequestView,
    options: RequestOptions,
    events: Seq<EventView>,
)
    ensures
        actions_of_kind(run(request, options, events), ActionKind::LookupExact) <= 1,
        actions_of_kind(run(request, options, events), ActionKind::Embed) <= 1,
        actions_of_kind(run(request, options, events), ActionKind::SearchSimilar) <= 1,
        actions_of_kind(run(request, options, events), ActionKind::CallUpstream) <= 1,
        actions_of_kind(run(request, options, events), ActionKind::Encode) <= 1,
        actions_of_kind(run(request, options, events), ActionKind::StoreExact) <= 1,
        actions_of_kind(run(request, options, events), ActionKind::StoreSimilar) <= 1,
        actions_of_kind(run(request, options, events), ActionKind::Respond) <= 1,
        records_in(run(request, options, events)) <= 1,
{
    let first = start(request, options);
    let steps = run(request, options, events);
    assert(steps[0] == first);
    assert(steps.drop_first() == steps_from(first.state, events));
    lemma_steps_within_allowance(first.state, events, ActionKind::LookupExact);
    lemma_steps_within_allowance(first.state, events, ActionKind::Embed);
    lemma_steps_within_allowance(first.state, events, ActionKind::SearchSimilar);
    lemma_steps_within_allowance(first.state, events, ActionKind::CallUpstream);
    lemma_steps_within_allowance(first.state, events, ActionKind::Encode);
    lemma_steps_within_allowance(first.state, events, ActionKind::StoreExact);
    lemma_steps_within_allowance(first.state, events, ActionKind::StoreSimilar);
    lemma_steps_within_allowance(first.state, events, ActionKind::Respond);
}

/// With a bypass, whatever events the request is handed: the exact tier is never
/// read, the semantic tier is never searched, and no cached entry is decoded.
pub proof fn law_bypass_never_reads(
    request: RequestView,
    options: RequestOptions,
    events: Seq<EventView>,
)
    requires
        options.bypass_cache,
    ensures
        actions_of_kind(run(request, options, events), ActionKind::LookupExact) == 0,
        actions_of_kind(run(request, options, events), ActionKind::SearchSimilar) == 0,
        actions_of_kind(run(request, options, events), ActionKind::Decode) == 0,
{
    let first = start(request, options);
    let steps = run(request, options, events);
    assert(steps[0] == first);
    assert(steps.drop_first() == steps_from(first.state, events));
    lemma_steps_within_allowance(first.state, events, ActionKind::LookupExact);
    lemma_steps_within_allowance(first.state, events, ActionKind::SearchSimilar);
    lemma_steps_within_allowance(first.state, events, ActionKind::Decode);
}

/// Once a request was answered or has failed, every further event is refused:
/// nothing is asked for, nothing is counted.
pub proof fn law_nothing_follows_the_end(s: PipelineView, events: Seq<EventView>, i: int)
    requires
        s.stage is Finished,
        0 <= i < events.len(),
    ensures
        steps_from(s, events).len() == events.len(),
        steps_from(s, events)[i].action == (ActionView::Fail {
            failure: FailureView::UnexpectedEvent,
        }),
        steps_from(s, events)[i].record is None,
        steps_from(s, events)[i].state == s,
    decreases events.len(),
{
    let first = next(s, events[0]);
    let rest = steps_from(first.state, events.drop_first());
    assert(steps_from(s, events) == seq![first] + rest);
    assert(first.state == s);
    if events.len() > 1 {
        if i > 0 {
            law_nothing_follows_the_end(s, events.drop_first(), i - 1);
        } else {
            law_nothing_follows_the_end(s, events.drop_first(), 0);
        }
    } else {
        assert(rest.len() == 0);
    }
}

} // verus!
