//! The path of one request through the two cache tiers and the provider.
//!
//! The pipeline decides; it performs nothing. It hands out one [`Action`] at a time
//! (a cache read, an embedding, a call to the provider, a cache write, the answer),
//! the caller performs it and hands back the [`Event`] that came of it. Which action
//! follows which event is the function [`next`]; [`Pipeline::begin`] and
//! [`Pipeline::step`] compute it.
//!
//! Tiers are probed cheapest first: exact, then semantic, then the provider. A cache
//! that fails or holds what cannot be decoded counts as a miss. The embedding that
//! was obtained for the semantic probe is the one that is stored after a miss.

use vstd::prelude::*;
use crate::cache::{CACHE_TTL_SECONDS, cache_key, generate_cache_key};
use crate::client::{Failure, FailureView};
use crate::metrics::{Metrics, MetricsSnapshot, RecordCall};
use crate::models::{LLMRequest, LLMResponse, RequestView, ResponseView};
use crate::options::{RequestOptions, choose_ttl, write_back_ttl};
use crate::semantic::{
    Embedding, SIMILARITY_THRESHOLD_BITS, prompt_of, prompt_text, usable_components,
};

verus! {

/// What a read of a cache tier came to.
#[derive(Debug, PartialEq, Eq)]
pub enum Lookup {
    /// An entry was found; this is its serialized answer.
    Found(String),
    /// The tier holds no entry.
    NotFound,
    /// The tier could not be asked.
    Failed,
}

/// A lookup as plain mathematical values.
pub ghost enum LookupView {
    Found(Seq<char>),
    NotFound,
    Failed,
}

impl View for Lookup {
    type V = LookupView;

    open spec fn view(&self) -> LookupView {
        match self {
            Lookup::Found(blob) => LookupView::Found(blob@),
            Lookup::NotFound => LookupView::NotFound,
            Lookup::Failed => LookupView::Failed,
        }
    }
}

/// Where an answer came from.
#[derive(Debug, Clone, Copy, PartialEq, Eq, Structural)]
pub enum Source {
    ExactCache,
    SemanticCache,
    Upstream,
}

/// What came of the action that the pipeline handed out last.
#[derive(Debug, PartialEq, Eq)]
pub enum Event {
    /// The exact tier was read.
    ExactLookup(Lookup),
    /// A serialized answer was decoded; `None` when it could not be.
    Decoded(Option<LLMResponse>),
    /// The embedding service answered with these components; `None` when it failed.
    Embedded(Option<Vec<u32>>),
    /// The semantic tier was searched.
    SimilarLookup(Lookup),
    /// A cache write ended; `true` when the entry was written.
    Written(bool),
    /// The provider answered, or the call failed for the cause given.
    Upstream(Result<LLMResponse, String>),
    /// An answer was serialized, or could not be for the cause given.
    Encoded(Result<String, String>),
}

/// An event as plain mathematical values.
pub ghost enum EventView {
    ExactLookup(LookupView),
    Decoded(Option<ResponseView>),
    Embedded(Option<Seq<u32>>),
    SimilarLookup(LookupView),
    Written(bool),
    Upstream(Result<ResponseView, Seq<char>>),
    Encoded(Result<Seq<char>, Seq<char>>),
}

impl View for Event {
    type V = EventView;

    open spec fn view(&self) -> EventView {
        match self {
            Event::ExactLookup(lookup) => EventView::ExactLookup(lookup@),
            Event::Decoded(response) => EventView::Decoded(
                match response {
                    Some(r) => Some(r@),
                    None => None,
                },
            ),
            Event::Embedded(components) => EventView::Embedded(
                match components {
                    Some(c) => Some(c@),
                    None => None,
                },
            ),
            Event::SimilarLookup(lookup) => EventView::SimilarLookup(lookup@),
            Event::Written(ok) => EventView::Written(*ok),
            Event::Upstream(answer) => EventView::Upstream(
                match answer {
                    Ok(r) => Ok(r@),
                    Err(cause) => Err(cause@),
                },
            ),
            Event::Encoded(blob) => EventView::Encoded(
                match blob {
                    Ok(b) => Ok(b@),
                    Err(cause) => Err(cause@),
                },
            ),
        }
    }
}

/// What the caller is to do next.
#[derive(Debug, PartialEq, Eq)]
pub enum Action {
    /// Read the exact tier under `key`; answer with [`Event::ExactLookup`].
    LookupExact { key: String },
    /// Decode a serialized answer; answer with [`Event::Decoded`].
    Decode { blob: String },
    /// Ask the embedding service for the embedding of `text`; answer with
    /// [`Event::Embedded`].
    Embed { text: String },
    /// Search the semantic tier for the nearest point at or above the threshold; answer
    /// with [`Event::SimilarLookup`].
    SearchSimilar { embedding: Embedding, threshold_bits: u32 },
    /// Write `value` to the exact tier under `key`, to live `ttl_seconds`; answer with
    /// [`Event::Written`].
    StoreExact { key: String, value: String, ttl_seconds: u64 },
    /// Send the request to the provider; answer with [`Event::Upstream`].
    CallUpstream { request: LLMRequest },
    /// Serialize an answer; answer with [`Event::Encoded`].
    Encode { response: LLMResponse },
    /// Store a new point in the semantic tier; answer with [`Event::Written`].
    StoreSimilar { key: String, embedding: Embedding, value: String },
    /// Answer the request. Nothing follows.
    Respond { response: LLMResponse, source: Source },
    /// Fail the request. Nothing follows.
    Fail { failure: Failure },
}

/// An action as plain mathematical values.
pub ghost enum ActionView {
    LookupExact { key: Seq<char> },
    Decode { blob: Seq<char> },
    Embed { text: Seq<char> },
    SearchSimilar { embedding: Seq<u32>, threshold_bits: u32 },
    StoreExact { key: Seq<char>, value: Seq<char>, ttl_seconds: u64 },
    CallUpstream { request: RequestView },
    Encode { response: ResponseView },
    StoreSimilar { key: Seq<char>, embedding: Seq<u32>, value: Seq<char> },
    Respond { response: ResponseView, source: Source },
    Fail { failure: FailureView },
}

impl View for Action {
    type V = ActionView;

    open spec fn view(&self) -> ActionView {
        match self {
            Action::LookupExact { key } => ActionView::LookupExact { key: key@ },
            Action::Decode { blob } => ActionView::Decode { blob: blob@ },
            Action::Embed { text } => ActionView::Embed { text: text@ },
            Action::SearchSimilar { embedding, threshold_bits } => ActionView::SearchSimilar {
                embedding: embedding@,
                threshold_bits: *threshold_bits,
            },
            Action::StoreExact { key, value, ttl_seconds } => ActionView::StoreExact {
                key: key@,
                value: value@,
                ttl_seconds: *ttl_seconds,
            },
            Action::CallUpstream { request } => ActionView::CallUpstream { request: request@ },
            Action::Encode { response } => ActionView::Encode { response: response@ },
            Action::StoreSimilar { key, embedding, value } => ActionView::StoreSimilar {
                key: key@,
                embedding: embedding@,
                value: value@,
            },
            Action::Respond { response, source } => ActionView::Respond {
                response: response@,
                source: *source,
            },
            Action::Fail { failure } => ActionView::Fail { failure: failure@ },
        }
    }
}

/// Where a request stands: the event it waits for, and what it carries along.
pub ghost enum StageView {
    /// The exact tier is being read.
    ExactLookup { request: RequestView },
    /// The entry of the exact tier is being decoded.
    ExactDecode { request: RequestView },
    /// The embedding is being computed.
    Embedding { request: RequestView },
    /// The semantic tier is being searched.
    SimilarLookup { request: RequestView, embedding: Seq<u32> },
    /// The entry of the semantic tier is being decoded.
    SimilarDecode { request: RequestView, embedding: Seq<u32>, blob: Seq<char> },
    /// A semantic hit is being written through to the exact tier.
    Promotion { response: ResponseView },
    /// The provider is being called.
    Upstream { kept: Option<Seq<u32>> },
    /// The provider's answer is being serialized.
    Encoding { response: ResponseView, kept: Option<Seq<u32>> },
    /// The answer is being written to the exact tier.
    ExactWrite { response: ResponseView, blob: Seq<char>, kept: Option<Seq<u32>> },
    /// The answer is being written to the semantic tier.
    SimilarWrite { response: ResponseView },
    /// The request was answered or has failed.
    Finished,
}

/// The state of a pipeline as plain mathematical values.
pub ghost struct PipelineView {
    /// The exact-match key of the request.
    pub key: Seq<char>,
    /// Whether the cache reads are skipped.
    pub bypass: bool,
    /// The lifetime of the exact-tier entry that a miss writes back.
    pub ttl: u64,
    pub stage: StageView,
}

/// One step of a pipeline: where it goes, what it asks for, and what it counts.
pub ghost struct Transition {
    pub state: PipelineView,
    pub action: ActionView,
    pub record: Option<RecordCall>,
}

impl PipelineView {
    /// A step that counts nothing.
    pub open spec fn goes(self, stage: StageView, action: ActionView) -> Transition {
        Transition { state: PipelineView { stage, ..self }, action, record: None }
    }

    /// The step into the embedding of the request's messages.
    pub open spec fn embeds(self, request: RequestView) -> Transition {
        self.goes(
            StageView::Embedding { request },
            ActionView::Embed { text: prompt_of(request.messages) },
        )
    }

    /// The step that sends the request to the provider.
    pub open spec fn calls_upstream(
        self,
        request: RequestView,
        embedding: Option<Seq<u32>>,
    ) -> Transition {
        self.goes(StageView::Upstream { kept: embedding }, ActionView::CallUpstream { request })
    }

    /// The last step: the answer goes out and the request is counted.
    pub open spec fn responds(
        self,
        response: ResponseView,
        source: Source,
        call: RecordCall,
    ) -> Transition {
        Transition {
            state: PipelineView { stage: StageView::Finished, ..self },
            action: ActionView::Respond { response, source },
            record: Some(call),
        }
    }

    /// The last step of a request that cannot be answered. Nothing is counted.
    pub open spec fn fails(self, failure: FailureView) -> Transition {
        self.goes(StageView::Finished, ActionView::Fail { failure })
    }

    /// The step on an event that the stage does not wait for: the request fails.
    pub open spec fn refuses(self) -> Transition {
        self.fails(FailureView::UnexpectedEvent)
    }
}

/// The tokens of an answer, as the counters take them.
pub open spec fn tokens_of(response: ResponseView) -> u64 {
    response.usage.total_tokens as u64
}

/// The first step of a request: the exact tier is read under the request's key,
/// unless the reads are bypassed; then the embedding comes first.
pub open spec fn start(request: RequestView, options: RequestOptions) -> Transition {
    let state = PipelineView {
        key: cache_key(request),
        bypass: options.bypass_cache,
        ttl: write_back_ttl(options.custom_ttl, request.temperature),
        stage: StageView::Finished,
    };
    if options.bypass_cache {
        state.embeds(request)
    } else {
        state.goes(StageView::ExactLookup { request }, ActionView::LookupExact { key: state.key })
    }
}

/// The step that an event brings about in a state.
///
/// Each stage waits for one kind of event. A read that finds nothing, a read that
/// fails and an entry that cannot be decoded all count as a miss of their tier. Any
/// other event than the one a stage waits for is refused.
pub open spec fn next(s: PipelineView, e: EventView) -> Transition {
    match s.stage {
        StageView::ExactLookup { request } => match e {
            EventView::ExactLookup(LookupView::Found(blob)) => s.goes(
                StageView::ExactDecode { request },
                ActionView::Decode { blob },
            ),
            EventView::ExactLookup(_) => s.embeds(request),
            _ => s.refuses(),
        },
        StageView::ExactDecode { request } => match e {
            EventView::Decoded(Some(response)) => s.responds(
                response,
                Source::ExactCache,
                RecordCall::ExactHit,
            ),
            EventView::Decoded(None) => s.embeds(request),
            _ => s.refuses(),
        },
        StageView::Embedding { request } => match e {
            EventView::Embedded(components) => match usable_components(components) {
                Some(embedding) => if s.bypass {
                    s.calls_upstream(request, Some(embedding))
                } else {
                    s.goes(
                        StageView::SimilarLookup { request, embedding },
                        ActionView::SearchSimilar {
                            embedding,
                            threshold_bits: SIMILARITY_THRESHOLD_BITS,
                        },
                    )
                },
                None => s.calls_upstream(request, None),
            },
            _ => s.refuses(),
        },
        StageView::SimilarLookup { request, embedding } => match e {
            EventView::SimilarLookup(LookupView::Found(blob)) => s.goes(
                StageView::SimilarDecode { request, embedding, blob },
                ActionView::Decode { blob },
            ),
            EventView::SimilarLookup(_) => s.calls_upstream(request, Some(embedding)),
            _ => s.refuses(),
        },
        StageView::SimilarDecode { request, embedding, blob } => match e {
            EventView::Decoded(Some(response)) => Transition {
                state: PipelineView { stage: StageView::Promotion { response }, ..s },
                action: ActionView::StoreExact {
                    key: s.key,
                    value: blob,
                    ttl_seconds: CACHE_TTL_SECONDS,
                },
                record: Some(RecordCall::SemanticHit(tokens_of(response))),
            },
            EventView::Decoded(None) => s.calls_upstream(request, Some(embedding)),
            _ => s.refuses(),
        },
        StageView::Promotion { response } => match e {
            EventView::Written(_) => s.goes(
                StageView::Finished,
                ActionView::Respond { response, source: Source::SemanticCache },
            ),
            _ => s.refuses(),
        },
        StageView::Upstream { kept } => match e {
            EventView::Upstream(Ok(response)) => s.goes(
                StageView::Encoding { response, kept },
                ActionView::Encode { response },
            ),
            EventView::Upstream(Err(cause)) => s.fails(FailureView::Upstream(cause)),
            _ => s.refuses(),
        },
        StageView::Encoding { response, kept } => match e {
            EventView::Encoded(Ok(blob)) => s.goes(
                StageView::ExactWrite { response, blob, kept },
                ActionView::StoreExact { key: s.key, value: blob, ttl_seconds: s.ttl },
            ),
            EventView::Encoded(Err(cause)) => s.fails(FailureView::Serialization(cause)),
            _ => s.refuses(),
        },
        StageView::ExactWrite { response, blob, kept } => match e {
            EventView::Written(_) => match kept {
                Some(embedding) => s.goes(
                    StageView::SimilarWrite { response },
                    ActionView::StoreSimilar { key: s.key, embedding, value: blob },
                ),
                None => s.responds(
                    response,
                    Source::Upstream,
                    RecordCall::Miss(tokens_of(response)),
                ),
            },
            _ => s.refuses(),
        },
        StageView::SimilarWrite { response } => match e {
            EventView::Written(_) => s.responds(
                response,
                Source::Upstream,
                RecordCall::Miss(tokens_of(response)),
            ),
            _ => s.refuses(),
        },
        StageView::Finished => s.refuses(),
    }
}

/// The counters after a step.
pub open spec fn recorded(before: MetricsSnapshot, record: Option<RecordCall>) -> MetricsSnapshot {
    match record {
        Some(call) => before.with_call(call),
        None => before,
    }
}

enum Stage {
    ExactLookup { request: LLMRequest },
    ExactDecode { request: LLMRequest },
    Embedding { request: LLMRequest },
    SimilarLookup { request: LLMRequest, embedding: Embedding },
    SimilarDecode { request: LLMRequest, embedding: Embedding, blob: String },
    Promotion { response: LLMResponse },
    Upstream { kept: Option<Embedding> },
    Encoding { response: LLMResponse, kept: Option<Embedding> },
    ExactWrite { response: LLMResponse, blob: String, kept: Option<Embedding> },
    SimilarWrite { response: LLMResponse },
    Finished,
}

spec fn embedding_view(embedding: Option<Embedding>) -> Option<Seq<u32>> {
    match embedding {
        Some(e) => Some(e@),
        None => None,
    }
}

impl View for Stage {
    type V = StageView;

    closed spec fn view(&self) -> StageView {
        match self {
            Stage::ExactLookup { request } => StageView::ExactLookup { request: request@ },
            Stage::ExactDecode { request } => StageView::ExactDecode { request: request@ },
            Stage::Embedding { request } => StageView::Embedding { request: request@ },
            Stage::SimilarLookup { request, embedding } => StageView::SimilarLookup {
                request: request@,
                embedding: embedding@,
            },
            Stage::SimilarDecode { request, embedding, blob } => StageView::SimilarDecode {
                request: request@,
                embedding: embedding@,
                blob: blob@,
            },
            Stage::Promotion { response } => StageView::Promotion { response: response@ },
            Stage::Upstream { kept } => StageView::Upstream {
                kept: embedding_view(*kept),
            },
            Stage::Encoding { response, kept } => StageView::Encoding {
                response: response@,
                kept: embedding_view(*kept),
            },
            Stage::ExactWrite { response, blob, kept } => StageView::ExactWrite {
                response: response@,
                blob: blob@,
                kept: embedding_view(*kept),
            },
            Stage::SimilarWrite { response } => StageView::SimilarWrite { response: response@ },
            Stage::Finished => StageView::Finished,
        }
    }
}

/// One request on its way through the tiers.
pub struct Pipeline {
    key: String,
    bypass: bool,
    ttl: u64,
    stage: Stage,
}

impl View for Pipeline {
    type V = PipelineView;

    closed spec fn view(&self) -> PipelineView {
        PipelineView { key: self.key@, bypass: self.bypass, ttl: self.ttl, stage: self.stage@ }
    }
}

impl Pipeline {
    /// Takes a request in and says what to do first.
    pub fn begin(request: LLMRequest, options: RequestOptions) -> (out: (Pipeline, Action))
        ensures
            out.0@ == start(request@, options).state,
            out.1@ == start(request@, options).action,
    {
        let key = generate_cache_key(&request);
        let ttl = choose_ttl(options.custom_ttl, &request.temperature);
        if options.bypass_cache {
            let text = prompt_text(&request);
            (
                Pipeline { key, bypass: true, ttl, stage: Stage::Embedding { request } },
                Action::Embed { text },
            )
        } else {
            let action = Action::LookupExact { key: key.clone() };
            (Pipeline { key, bypass: false, ttl, stage: Stage::ExactLookup { request } }, action)
        }
    }

    /// True once the request was answered or has failed.
    pub fn is_finished(&self) -> (finished: bool)
        ensures
            finished == (self@.stage is Finished),
    {
        match &self.stage {
            Stage::Finished => true,
            _ => false,
        }
    }

    /// The exact-match key of the request.
    pub fn key(&self) -> (key: &String)
        ensures
            key@ == self@.key,
    {
        &self.key
    }

    fn at(self, stage: Stage) -> (moved: Pipeline)
        ensures
            moved@ == (PipelineView { stage: stage@, ..self@ }),
    {
        Pipeline { key: self.key, bypass: self.bypass, ttl: self.ttl, stage }
    }

    fn embed(self, request: LLMRequest) -> (out: (Pipeline, Action))
        ensures
            out.0@ == self@.embeds(request@).state,
            out.1@ == self@.embeds(request@).action,
    {
        let text = prompt_text(&request);
        (self.at(Stage::Embedding { request }), Action::Embed { text })
    }

    fn call_upstream(self, request: LLMRequest, kept: Option<Embedding>) -> (out: (
        Pipeline,
        Action,
    ))
        ensures
            out.0@ == self@.calls_upstream(request@, embedding_view(kept)).state,
            out.1@ == self@.calls_upstream(request@, embedding_view(kept)).action,
    {
        (self.at(Stage::Upstream { kept }), Action::CallUpstream { request })
    }

    fn finish(self, action: Action) -> (out: (Pipeline, Action))
        ensures
            out.0@ == (PipelineView { stage: StageView::Finished, ..self@ }),
            out.1 == action,
    {
        (self.at(Stage::Finished), action)
    }

    /// Takes in what came of the last action, counts the request where this step
    /// settles how it was served, and says what to do next.
    ///
    /// An event that does not answer the pending action fails the request.
    pub fn step(self, event: Event, metrics: &mut Metrics) -> (out: (Pipeline, Action))
        ensures
            out.0@ == next(self@, event@).state,
            out.1@ == next(self@, event@).action,
            final(metrics)@ == recorded(old(metrics)@, next(self@, event@).record),
    {
        let Pipeline { key, bypass, ttl, stage } = self;
        let rest = Pipeline { key, bypass, ttl, stage: Stage::Finished };
        match (stage, event) {
            (Stage::ExactLookup { request }, Event::ExactLookup(Lookup::Found(blob))) => {
                (rest.at(Stage::ExactDecode { request }), Action::Decode { blob })
            },
            (Stage::ExactLookup { request }, Event::ExactLookup(_)) => rest.embed(request),
            (Stage::ExactDecode { request }, Event::Decoded(Some(response))) => {
                metrics.record_exact_hit();
                rest.finish(Action::Respond { response, source: Source::ExactCache })
            },
            (Stage::ExactDecode { request }, Event::Decoded(None)) => rest.embed(request),
            (Stage::Embedding { request }, Event::Embedded(components)) => {
                let embedding = match components {
                    Some(c) => Embedding::from_components(c),
                    None => None,
                };
                match embedding {
                    Some(embedding) => {
                        if rest.bypass {
                            rest.call_upstream(request, Some(embedding))
                        } else {
                            let probe = embedding.clone();
                            (
                                rest.at(Stage::SimilarLookup { request, embedding }),
                                Action::SearchSimilar {
                                    embedding: probe,
                                    threshold_bits: SIMILARITY_THRESHOLD_BITS,
                                },
                            )
                        }
                    },
                    None => rest.call_upstream(request, None),
                }
            },
            (
                Stage::SimilarLookup { request, embedding },
                Event::SimilarLookup(Lookup::Found(blob)),
            ) => {
                let copy = blob.clone();
                (
                    rest.at(Stage::SimilarDecode { request, embedding, blob }),
                    Action::Decode { blob: copy },
                )
            },
            (Stage::SimilarLookup { request, embedding }, Event::SimilarLookup(_)) => {
                rest.call_upstream(request, Some(embedding))
            },
            (
                Stage::SimilarDecode { request, embedding, blob },
                Event::Decoded(Some(response)),
            ) => {
                metrics.record_semantic_hit(response.total_tokens());
                let action = Action::StoreExact {
                    key: rest.key.clone(),
                    value: blob,
                    ttl_seconds: CACHE_TTL_SECONDS,
                };
                (rest.at(Stage::Promotion { response }), action)
            },
            (Stage::SimilarDecode { request, embedding, blob }, Event::Decoded(None)) => {
                rest.call_upstream(request, Some(embedding))
            },
            (Stage::Promotion { response }, Event::Written(_)) => {
                rest.finish(Action::Respond { response, source: Source::SemanticCache })
            },
            (Stage::Upstream { kept }, Event::Upstream(Ok(response))) => {
                let copy = response.clone();
                (
                    rest.at(Stage::Encoding { response, kept }),
                    Action::Encode { response: copy },
                )
            },
            (Stage::Upstream { kept }, Event::Upstream(Err(cause))) => {
                rest.finish(Action::Fail { failure: Failure::Upstream(cause) })
            },
            (Stage::Encoding { response, kept }, Event::Encoded(Ok(blob))) => {
                let action = Action::StoreExact {
                    key: rest.key.clone(),
                    value: blob.clone(),
                    ttl_seconds: rest.ttl,
                };
                (rest.at(Stage::ExactWrite { response, blob, kept }), action)
            },
            (Stage::Encoding { response, kept }, Event::Encoded(Err(cause))) => {
                rest.finish(Action::Fail { failure: Failure::Serialization(cause) })
            },
            (
                Stage::ExactWrite { response, blob, kept: Some(embedding) },
                Event::Written(_),
            ) => {
                let action = Action::StoreSimilar { key: rest.key.clone(), embedding, value: blob };
                (rest.at(Stage::SimilarWrite { response }), action)
            },
            (Stage::ExactWrite { response, blob, kept: None }, Event::Written(_)) => {
                metrics.record_miss(response.total_tokens());
                rest.finish(Action::Respond { response, source: Source::Upstream })
            },
            (Stage::SimilarWrite { response }, Event::Written(_)) => {
                metrics.record_miss(response.total_tokens());
                rest.finish(Action::Respond { response, source: Source::Upstream })
            },
            _ => rest.finish(Action::Fail { failure: Failure::UnexpectedEvent }),
        }
    }
}

} // verus!
