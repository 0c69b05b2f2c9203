//! What tokens cost: a fixed price list per model, and the cost figures that are
//! derived from the counters.
//!
//! Prices are whole numbers of thousandths of a dollar per million tokens, which is
//! the same as billionths of a dollar per token. A cost is the number of tokens
//! times the mean of the input and the output price; it is held in trillionths of a
//! dollar, so that the halving loses nothing. Costs are estimates, not bills.

use vstd::prelude::*;
use vstd::string::StringExecFns;
use crate::metrics::MetricsSnapshot;
use crate::text::same_text;

verus! {

/// The model whose prices stand in for a model that the list does not hold, and for
/// the cost figures of the counters.
pub const DEFAULT_MODEL: &'static str = "llama-3.3-70b-versatile";

/// Trillionths of a dollar in one dollar.
pub const PICODOLLARS_PER_DOLLAR: u128 = 1_000_000_000_000;

/// The prices of one model, in thousandths of a dollar per million tokens.
#[derive(Debug, Clone, Copy, PartialEq, Eq, Structural)]
pub struct ModelPricing {
    pub input: u32,
    pub output: u32,
}

/// The price list.
pub open spec fn listed_pricing(model: Seq<char>) -> Option<ModelPricing> {
    if model == "llama-3.3-70b-versatile"@ {
        Some(ModelPricing { input: 590, output: 790 })
    } else if model == "llama-3.1-8b-instant"@ {
        Some(ModelPricing { input: 50, output: 80 })
    } else if model == "llama-4-scout"@ {
        Some(ModelPricing { input: 110, output: 340 })
    } else if model == "llama-4-maverick"@ {
        Some(ModelPricing { input: 200, output: 600 })
    } else if model == "qwen3-32b"@ {
        Some(ModelPricing { input: 290, output: 590 })
    } else if model == "kimi-k2-0905-1t"@ {
        Some(ModelPricing { input: 1000, output: 3000 })
    } else if model == "gpt-oss-20b"@ {
        Some(ModelPricing { input: 75, output: 300 })
    } else if model == "gpt-oss-safeguard-20b"@ {
        Some(ModelPricing { input: 75, output: 300 })
    } else if model == "gpt-oss-120b"@ {
        Some(ModelPricing { input: 150, output: 600 })
    } else {
        None
    }
}

/// The prices that apply to a model: its own where the list holds it, else those of
/// the default model.
pub open spec fn pricing_of(model: Seq<char>) -> ModelPricing {
    match listed_pricing(model) {
        Some(p) => p,
        None => ModelPricing { input: 590, output: 790 },
    }
}

/// The cost of `tokens` tokens at the mean of the two prices, in trillionths of a dollar.
pub open spec fn cost_of(pricing: ModelPricing, tokens: int) -> int {
    tokens * (pricing.input + pricing.output) * 500
}

/// Looks a model up in the price list; `None` for a model that is not listed.
pub fn get_listed_pricing(model: &str) -> (pricing: Option<ModelPricing>)
    ensures
        pricing == listed_pricing(model@),
{
    if same_text(model, "llama-3.3-70b-versatile") {
        Some(ModelPricing { input: 590, output: 790 })
    } else if same_text(model, "llama-3.1-8b-instant") {
        Some(ModelPricing { input: 50, output: 80 })
    } else if same_text(model, "llama-4-scout") {
        Some(ModelPricing { input: 110, output: 340 })
    } else if same_text(model, "llama-4-maverick") {
        Some(ModelPricing { input: 200, output: 600 })
    } else if same_text(model, "qwen3-32b") {
        Some(ModelPricing { input: 290, output: 590 })
    } else if same_text(model, "kimi-k2-0905-1t") {
        Some(ModelPricing { input: 1000, output: 3000 })
    } else if same_text(model, "gpt-oss-20b") {
        Some(ModelPricing { input: 75, output: 300 })
    } else if same_text(model, "gpt-oss-safeguard-20b") {
        Some(ModelPricing { input: 75, output: 300 })
    } else if same_text(model, "gpt-oss-120b") {
        Some(ModelPricing { input: 150, output: 600 })
    } else {
        None
    }
}

/// The prices that apply to a model, and whether they are the model's own. Where
/// `listed` is false the prices are those of the default model, and the caller may warn.
pub fn get_groq_model_pricing(model: &str) -> (out: (ModelPricing, bool))
    ensures
        out.0 == pricing_of(model@),
        out.1 == listed_pricing(model@) is Some,
{
    match get_listed_pricing(model) {
        Some(pricing) => (pricing, true),
        None => (ModelPricing { input: 590, output: 790 }, false),
    }
}

/// The cost of `tokens` tokens at given prices, in trillionths of a dollar.
pub fn cost_at(pricing: ModelPricing, tokens: u64) -> (cost: u128)
    ensures
        cost == cost_of(pricing, tokens as int),
{
    let per_token: u128 = (pricing.input as u128 + pricing.output as u128) * 500;
    assert(tokens * per_token <= u64::MAX * (2 * u32::MAX * 500)) by (nonlinear_arith)
        requires
            tokens <= u64::MAX,
            per_token <= 2 * u32::MAX * 500,
    ;
    assert(tokens * (pricing.input + pricing.output) * 500 == tokens * per_token)
        by (nonlinear_arith)
        requires
            per_token == (pricing.input + pricing.output) * 500,
    ;
    tokens as u128 * per_token
}

/// The estimated cost of `tokens` tokens of a model, in trillionths of a dollar; a
/// model that is not listed is charged as the default model.
pub fn calculate_cost(model: &str, tokens: u64) -> (cost: u128)
    ensures
        cost == cost_of(pricing_of(model@), tokens as int),
{
    let (pricing, _listed) = get_groq_model_pricing(model);
    cost_at(pricing, tokens)
}

/// The figures that are derived from the counters, at the prices of the default model.
#[derive(Debug, Clone, Copy, PartialEq, Eq, Structural)]
pub struct CostReport {
    /// The prices that the costs were computed with.
    pub pricing: ModelPricing,
    /// Requests served from either tier.
    pub total_hits: u128,
    /// Hit rate in hundredths of a percent.
    pub hit_rate_basis_points: u128,
    /// Tokens that would have been used without any cache.
    pub tokens_without_cache: u128,
    /// Cost of the tokens saved, in trillionths of a dollar.
    pub cost_saved: u128,
    /// Cost of the tokens used, in trillionths of a dollar.
    pub cost_spent: u128,
    /// Cost of all tokens, saved and used, in trillionths of a dollar.
    pub cost_without_cache: u128,
    /// The saved share of the cost without cache, in hundredths of a percent, rounded
    /// down; 0 where nothing would have been spent.
    pub savings_basis_points: u128,
}

/// The saved share of a cost, in hundredths of a percent, rounded down.
pub open spec fn savings_rate(saved: int, without_cache: int) -> int {
    if without_cache > 0 {
        saved * 10000 / without_cache
    } else {
        0
    }
}

/// The cost figures of a reading of the counters.
pub open spec fn cost_figures(s: MetricsSnapshot) -> CostReport {
    let pricing = pricing_of(DEFAULT_MODEL@);
    let saved = cost_of(pricing, s.tokens_saved as int);
    let spent = cost_of(pricing, s.tokens_used as int);
    CostReport {
        pricing,
        total_hits: s.hits() as u128,
        hit_rate_basis_points: s.hit_rate() as u128,
        tokens_without_cache: (s.tokens_saved + s.tokens_used) as u128,
        cost_saved: saved as u128,
        cost_spent: spent as u128,
        cost_without_cache: (saved + spent) as u128,
        savings_basis_points: savings_rate(saved, saved + spent) as u128,
    }
}

/// Computes the cost figures of a reading of the counters.
pub fn cost_report(snapshot: &MetricsSnapshot) -> (report: CostReport)
    ensures
        report == cost_figures(*snapshot),
        report.cost_without_cache == report.cost_saved + report.cost_spent,
        report.savings_basis_points <= 10000,
{
    let (pricing, _listed) = get_groq_model_pricing(DEFAULT_MODEL);
    let cost_saved: u128 = cost_at(pricing, snapshot.tokens_saved);
    let cost_spent: u128 = cost_at(pricing, snapshot.tokens_used);
    assert(cost_saved <= 0xffff_ffff_ffff_ffff * 1380 * 500 && cost_spent
        <= 0xffff_ffff_ffff_ffff * 1380 * 500) by (nonlinear_arith)
        requires
            cost_saved == snapshot.tokens_saved * 1380 * 500,
            cost_spent == snapshot.tokens_used * 1380 * 500,
            snapshot.tokens_saved <= 0xffff_ffff_ffff_ffff,
            snapshot.tokens_used <= 0xffff_ffff_ffff_ffff,
    ;
    let cost_without_cache: u128 = cost_saved + cost_spent;
    let savings_basis_points: u128 = if cost_without_cache > 0 {
        let rate: u128 = cost_saved * 10000 / cost_without_cache;
        assert(rate <= 10000) by (nonlinear_arith)
            requires
                rate == cost_saved * 10000 / (cost_without_cache as int),
                cost_saved <= cost_without_cache,
                cost_without_cache > 0,
        ;
        rate
    } else {
        0
    };
    let hit_rate_basis_points: u128 = snapshot.hit_rate_basis_points();
    CostReport {
        pricing,
        total_hits: snapshot.total_hits(),
        hit_rate_basis_points,
        tokens_without_cache: snapshot.tokens_without_cache(),
        cost_saved,
        cost_spent,
        cost_without_cache,
        savings_basis_points,
    }
}

/// The names of the models that the price list holds, in the order of the list.
pub open spec fn listed_models() -> Seq<Seq<char>> {
    seq![
        "llama-3.3-70b-versatile"@,
        "llama-3.1-8b-instant"@,
        "llama-4-scout"@,
        "llama-4-maverick"@,
        "qwen3-32b"@,
        "kimi-k2-0905-1t"@,
        "gpt-oss-20b"@,
        "gpt-oss-safeguard-20b"@,
        "gpt-oss-120b"@,
    ]
}

/// The models that the price list holds, in the order of the list.
pub fn supported_models() -> (models: Vec<String>)
    ensures
        models@.len() == listed_models().len(),
        forall|i: int| 0 <= i < models@.len() ==> (#[trigger] models@[i])@ == listed_models()[i],
        forall|i: int| 0 <= i < models@.len() ==> listed_pricing((#[trigger] models@[i])@) is Some,
{
    let mut models: Vec<String> = Vec::new();
    models.push(String::from_str("llama-3.3-70b-versatile"));
    models.push(String::from_str("llama-3.1-8b-instant"));
    models.push(String::from_str("llama-4-scout"));
    models.push(String::from_str("llama-4-maverick"));
    models.push(String::from_str("qwen3-32b"));
    models.push(String::from_str("kimi-k2-0905-1t"));
    models.push(String::from_str("gpt-oss-20b"));
    models.push(String::from_str("gpt-oss-safeguard-20b"));
    models.push(String::from_str("gpt-oss-120b"));
    models
}

} // verus!
