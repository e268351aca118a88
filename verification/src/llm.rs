//! The decisions around the model services: which provider an audit uses,
//! where requests go, which Gemini model is picked, how busy replies are
//! retried, and what text a reply carries.
use vstd::prelude::*;
use crate::json::{
    bytes_of, items_or_empty, json_at, json_idx, json_items, json_str, parse_json, parsed_json,
    report_of, report_of_output, str_or, Json, Report,
};
use crate::scanners::report_doc;
use crate::text::{
    decimal, decimal_string, has_infix, is_blank, str_contains, str_eq, str_is_blank,
    strip_all_prefix, strip_all_suffix_char, trim_end_matches_char, trim_start_matches,
};
use crate::findings::text_or;

verus! {

/// The model service an audit's review goes to.
#[derive(Debug, Clone)]
pub enum Provider {
    Ollama { endpoint: String, model: String },
    Gemini { api_key: String, model: String },
}

/// The local Ollama daemon's address.
pub open spec fn ollama_endpoint() -> Seq<char> {
    "http://127.0.0.1:11434"@
}

/// A provider as (whether it is Gemini, its key or endpoint, its model).
pub open spec fn provider_view(p: Provider) -> (bool, Seq<char>, Seq<char>) {
    match p {
        Provider::Gemini { api_key, model } => (true, api_key@, model@),
        Provider::Ollama { endpoint, model } => (false, endpoint@, model@),
    }
}

/// The providers a review tries, in order, for the `--provider` choice:
/// `gemini` uses Gemini alone; `hybrid` uses Gemini and falls back to the
/// local Ollama daemon, going to Ollama at once when no key is configured;
/// any other choice uses the local daemon alone.
pub open spec fn review_plan(
    choice: Seq<char>,
    model: Seq<char>,
    ollama_model: Seq<char>,
    api_key: Seq<char>,
) -> Seq<(bool, Seq<char>, Seq<char>)> {
    let gemini = (true, api_key, model);
    let ollama = (false, ollama_endpoint(), ollama_model);
    if choice == "gemini"@ {
        seq![gemini]
    } else if choice == "hybrid"@ {
        if is_blank(api_key) {
            seq![ollama]
        } else {
            seq![gemini, ollama]
        }
    } else {
        seq![ollama]
    }
}

impl Provider {
    /// The providers a review tries in turn, until one answers, for the
    /// `--provider` choice, the Gemini model, the Ollama model and the
    /// resolved Gemini key.
    pub fn review_plan(choice: &str, model: String, ollama_model: String, api_key: String) -> (r: Vec<
        Provider,
    >)
        ensures
            r@.map_values(|p: Provider| provider_view(p)) == review_plan(
                choice@,
                model@,
                ollama_model@,
                api_key@,
            ),
    {
        proof {
            reveal_strlit("http://127.0.0.1:11434");
        }
        let mut r: Vec<Provider> = Vec::new();
        if str_eq(choice, "gemini") {
            r.push(Provider::Gemini { api_key, model });
        } else if str_eq(choice, "hybrid") {
            if !str_is_blank(api_key.as_str()) {
                r.push(Provider::Gemini { api_key, model });
            }
            r.push(
                Provider::Ollama {
                    endpoint: String::from_str("http://127.0.0.1:11434"),
                    model: ollama_model,
                },
            );
        } else {
            r.push(
                Provider::Ollama {
                    endpoint: String::from_str("http://127.0.0.1:11434"),
                    model: ollama_model,
                },
            );
        }
        assert(r@.map_values(|p: Provider| provider_view(p)) =~= review_plan(
            choice@,
            model@,
            ollama_model@,
            api_key@,
        ));
        r
    }
}

/// Whether the `--provider` choice may use Gemini, and so needs the key.
pub open spec fn uses_gemini_key(choice: Seq<char>) -> bool {
    choice == "gemini"@ || choice == "hybrid"@
}

/// Whether the provider choice `choice` needs the Gemini key looked up.
pub fn provider_uses_key(choice: &str) -> (r: bool)
    ensures
        r == uses_gemini_key(choice@),
{
    str_eq(choice, "gemini") || str_eq(choice, "hybrid")
}

/// Walking a review plan: each provider is tried once, in plan order,
/// until one answers; the error of the last failure is kept.
#[derive(Debug)]
pub struct ReviewFallback {
    next: usize,
    last_error: Option<String>,
}

/// The error when no provider answered: the last failure's, or a notice
/// that the plan was empty.
pub open spec fn fallback_error(last: Option<Seq<char>>) -> Seq<char> {
    match last {
        Some(e) => e,
        None => "no provider configured"@,
    }
}

impl ReviewFallback {
    /// The position in the plan of the next provider to try.
    pub closed spec fn spec_next(&self) -> usize {
        self.next
    }

    /// The error of the last failed provider.
    pub closed spec fn spec_last_error(&self) -> Option<Seq<char>> {
        match self.last_error {
            Some(e) => Some(e@),
            None => None,
        }
    }

    /// Nothing tried yet.
    pub fn new() -> (r: ReviewFallback)
        ensures
            r.spec_next() == 0,
            r.spec_last_error() is None,
    {
        ReviewFallback { next: 0, last_error: None }
    }

    /// The position of the next provider of a plan of `plan_len` providers
    /// to try, or `None` once every one has been tried.
    pub fn next_provider(&mut self, plan_len: usize) -> (r: Option<usize>)
        ensures
            old(self).spec_next() < plan_len ==> r == Some(old(self).spec_next())
                && final(self).spec_next() == old(self).spec_next() + 1,
            old(self).spec_next() >= plan_len ==> r is None && final(self).spec_next()
                == old(self).spec_next(),
            final(self).spec_last_error() == old(self).spec_last_error(),
    {
        if self.next < plan_len {
            let i = self.next;
            self.next = self.next + 1;
            Some(i)
        } else {
            None
        }
    }

    /// Records that the provider just tried failed with `error`.
    pub fn record_failure(&mut self, error: String)
        ensures
            final(self).spec_next() == old(self).spec_next(),
            final(self).spec_last_error() == Some(error@),
    {
        self.last_error = Some(error);
    }

    /// The error reported when no provider answered.
    pub fn final_error(&self) -> (r: String)
        ensures
            r@ == fallback_error(self.spec_last_error()),
    {
        match &self.last_error {
            Some(e) => e.clone(),
            None => String::from_str("no provider configured"),
        }
    }
}

/// The chat endpoint of an Ollama daemon: its address without trailing
/// slashes, then `/api/chat`.
pub open spec fn ollama_chat_url(endpoint: Seq<char>) -> Seq<char> {
    strip_all_suffix_char(endpoint, '/') + "/api/chat"@
}

/// The chat endpoint of the Ollama daemon at `endpoint`.
pub fn build_ollama_chat_url(endpoint: &str) -> (r: String)
    ensures
        r@ == ollama_chat_url(endpoint@),
{
    let mut r = trim_end_matches_char(endpoint, '/');
    r.append("/api/chat");
    r
}

/// The text of an Ollama chat reply: `message.content`, or a notice that
/// there is none.
pub open spec fn ollama_reply_text(reply: Json) -> Seq<char> {
    str_or(json_at(json_at(reply, "message"@), "content"@), "No response content"@)
}

/// The text of the Ollama chat reply `reply`.
pub fn read_ollama_reply(reply: &Json) -> (r: String)
    ensures
        r@ == ollama_reply_text(*reply),
{
    text_or(reply.at("message").at("content"), "No response content")
}

/// The text of the Ollama chat reply whose body is `body`; `None` when the
/// body is no JSON.
pub fn read_ollama_reply_body(body: &[u8]) -> (r: Option<String>)
    ensures
        match parsed_json(body@) {
            Some(j) => r is Some && r->0@ == ollama_reply_text(j),
            None => r is None,
        },
{
    match parse_json(body) {
        Some(j) => Some(read_ollama_reply(&j)),
        None => None,
    }
}

/// The error given when a Gemini review has no API key.
pub open spec fn missing_key_message() -> Seq<char> {
    "Gemini API key is required. Set GEMINI_API_KEY in .env, export it, or pass --api-key <KEY>"@
}

/// A Gemini review needs a key that is not blank.
pub fn check_gemini_key(api_key: &str) -> (r: Result<(), String>)
    ensures
        match r {
            Ok(()) => !is_blank(api_key@),
            Err(m) => is_blank(api_key@) && m@ == missing_key_message(),
        },
{
    if str_is_blank(api_key) {
        Err(
            String::from_str(
                "Gemini API key is required. Set GEMINI_API_KEY in .env, export it, or pass --api-key <KEY>",
            ),
        )
    } else {
        Ok(())
    }
}

/// Whether the requested Gemini model is a default placeholder, for which
/// the cheapest available model is looked up instead.
pub open spec fn needs_model_discovery(model: Seq<char>) -> bool {
    ||| model.len() == 0
    ||| model == "qwen2.5-coder:1.5b"@
    ||| model == "auto"@
    ||| model == "gemini-2.5-flash"@
    ||| model == "gemini-3.6-flash"@
}

/// Whether the Gemini model `model` is to be discovered.
pub fn gemini_model_needs_discovery(model: &str) -> (r: bool)
    ensures
        r == needs_model_discovery(model@),
{
    proof {
        reveal_strlit("");
    }
    model.unicode_len() == 0 || str_eq(model, "qwen2.5-coder:1.5b") || str_eq(model, "auto")
        || str_eq(model, "gemini-2.5-flash") || str_eq(model, "gemini-3.6-flash")
}

/// The model used when discovery finds nothing.
pub open spec fn fallback_gemini_model() -> Seq<char> {
    "gemini-2.5-flash"@
}

/// The name of a listed model without its `models/` prefixes.
pub open spec fn listed_model_name(m: Json) -> Option<Seq<char>> {
    match json_str(json_at(m, "name"@)) {
        Some(n) => Some(strip_all_prefix(n, "models/"@)),
        None => None,
    }
}

/// Whether a listed method list holds `generateContent`.
pub open spec fn has_generate(methods: Seq<Json>) -> bool {
    exists|i: int| 0 <= i < methods.len() && json_str(#[trigger] methods[i]) == Some(
        "generateContent"@,
    )
}

/// A listed model is a candidate when it has a name and a list of
/// supported methods, supports `generateContent`, and is no embedding, AQA
/// or Imagen model.
pub open spec fn candidate_name(m: Json) -> Option<Seq<char>> {
    match (listed_model_name(m), json_items(json_at(m, "supportedGenerationMethods"@))) {
        (Some(n), Some(methods)) => if has_generate(methods) && !has_infix(n, "embedding"@)
            && !has_infix(n, "aqa"@) && !has_infix(n, "imagen"@) {
            Some(n)
        } else {
            None
        },
        _ => None,
    }
}

/// The candidate names among the listed models, in listing order.
pub open spec fn candidates(models: Seq<Json>) -> Seq<Seq<char>>
    decreases models.len(),
{
    if models.len() == 0 {
        seq![]
    } else {
        match candidate_name(models.last()) {
            Some(n) => candidates(models.drop_last()).push(n),
            None => candidates(models.drop_last()),
        }
    }
}

/// The `supportedGenerationMethods` a listed model declares.
pub open spec fn generation_methods(m: Json) -> Seq<Json> {
    items_or_empty(Some(json_at(m, "supportedGenerationMethods"@)))
}

/// Whether the listed model `m` declares the method `generateContent`.
pub open spec fn serves_generate_content(m: Json) -> bool {
    exists|j: int|
        0 <= j < generation_methods(m).len() && json_str(#[trigger] generation_methods(m)[j])
            == Some("generateContent"@)
}

/// Whether `name` is the name, without its `models/` prefixes, of the
/// `m`-th listed model, and that model declares `generateContent`.
pub open spec fn listed_generate_model(models: Seq<Json>, m: int, name: Seq<char>) -> bool {
    &&& 0 <= m < models.len()
    &&& serves_generate_content(models[m])
    &&& json_str(json_at(models[m], "name"@)) is Some
    &&& name == strip_all_prefix(json_str(json_at(models[m], "name"@))->0, "models/"@)
}

/// Every candidate of a model listing serves `generateContent`: the `k`-th
/// candidate is the name, without its `models/` prefixes, of a listed
/// model whose `supportedGenerationMethods` hold the string
/// `generateContent`.
pub proof fn lemma_candidates_serve_generate_content(models: Seq<Json>, k: int)
    requires
        0 <= k < candidates(models).len(),
    ensures
        exists|m: int| listed_generate_model(models, m, candidates(models)[k]),
    decreases models.len(),
{
    let pre = models.drop_last();
    let n = models.len() - 1;
    if k < candidates(pre).len() {
        lemma_candidates_serve_generate_content(pre, k);
        assert(candidates(models)[k] == candidates(pre)[k]);
        let m = choose|m: int| listed_generate_model(pre, m, candidates(pre)[k]);
        assert(models[m] == pre[m]);
        assert(listed_generate_model(models, m, candidates(models)[k]));
    } else {
        let last = models[n];
        let methods = json_items(json_at(last, "supportedGenerationMethods"@))->0;
        let j = choose|j: int|
            0 <= j < methods.len() && json_str(#[trigger] methods[j]) == Some("generateContent"@);
        assert(generation_methods(last) == methods);
        assert(json_str(generation_methods(last)[j]) == Some("generateContent"@));
        assert(listed_generate_model(models, n, candidates(models)[k]));
    }
}

/// The cost rank of a model name: flash-lite before flash before pro
/// before the rest.
pub open spec fn model_rank(n: Seq<char>) -> int {
    if has_infix(n, "flash-lite"@) {
        1
    } else if has_infix(n, "flash"@) {
        2
    } else if has_infix(n, "pro"@) {
        3
    } else {
        4
    }
}

/// Whether `i` is the first position of least rank in `names` (what a
/// stable sort by rank puts first).
pub open spec fn is_first_cheapest(names: Seq<Seq<char>>, i: int) -> bool {
    &&& 0 <= i < names.len()
    &&& forall|j: int| 0 <= j < names.len() ==> model_rank(names[i]) <= model_rank(#[trigger] names[j])
    &&& forall|j: int| 0 <= j < i ==> model_rank(names[i]) < model_rank(#[trigger] names[j])
}

/// The pick goes by price tier: when some name is a flash-lite model the
/// first cheapest is one; when some name is a flash model it is a
/// flash-lite or flash model; when some name is a pro model it is a
/// flash-lite, flash or pro model.
pub proof fn lemma_cheapest_tier_is_picked(names: Seq<Seq<char>>, i: int, j: int)
    requires
        is_first_cheapest(names, i),
        0 <= j < names.len(),
    ensures
        has_infix(names[j], "flash-lite"@) ==> has_infix(names[i], "flash-lite"@),
        has_infix(names[j], "flash"@) ==> has_infix(names[i], "flash-lite"@) || has_infix(
            names[i],
            "flash"@,
        ),
        has_infix(names[j], "pro"@) ==> has_infix(names[i], "flash-lite"@) || has_infix(
            names[i],
            "flash"@,
        ) || has_infix(names[i], "pro"@),
{
    assert(model_rank(names[i]) <= model_rank(names[j]));
}

/// Every candidate is a text generation model: no embedding, AQA or
/// Imagen model is ever picked.
pub proof fn lemma_candidates_are_text_models(models: Seq<Json>)
    ensures
        forall|k: int|
            0 <= k < candidates(models).len() ==> {
                let c = #[trigger] candidates(models)[k];
                !has_infix(c, "embedding"@) && !has_infix(c, "aqa"@) && !has_infix(c, "imagen"@)
            },
    decreases models.len(),
{
    if models.len() > 0 {
        let pre = candidates(models.drop_last());
        lemma_candidates_are_text_models(models.drop_last());
        match candidate_name(models.last()) {
            Some(n) => {
                assert forall|k: int| 0 <= k < pre.push(n).len() implies {
                    let c = #[trigger] pre.push(n)[k];
                    !has_infix(c, "embedding"@) && !has_infix(c, "aqa"@) && !has_infix(c, "imagen"@)
                } by {
                    if k < pre.len() {
                        assert(pre.push(n)[k] == pre[k]);
                    }
                }
            },
            None => {},
        }
    }
}

/// The models a model listing reply lists (`models` of the body).
pub open spec fn listing_models(listing: Report) -> Seq<Json> {
    match report_doc(listing) {
        Some(body) => items_or_empty(Some(json_at(body, "models"@))),
        None => seq![],
    }
}

/// The candidates of a model listing reply (`models` of the body).
pub open spec fn listing_candidates(listing: Report) -> Seq<Seq<char>> {
    match report_doc(listing) {
        Some(body) => candidates(items_or_empty(Some(json_at(body, "models"@)))),
        None => seq![],
    }
}

fn rank_of(n: &str) -> (r: u8)
    ensures
        r as int == model_rank(n@),
{
    if str_contains(n, "flash-lite") {
        1
    } else if str_contains(n, "flash") {
        2
    } else if str_contains(n, "pro") {
        3
    } else {
        4
    }
}

fn methods_have_generate(methods: &Vec<Json>) -> (r: bool)
    ensures
        r == has_generate(methods@),
{
    let mut i: usize = 0;
    while i < methods.len()
        invariant
            i <= methods.len(),
            forall|j: int| 0 <= j < i ==> json_str(#[trigger] methods@[j]) != Some("generateContent"@),
        decreases methods.len() - i,
    {
        match methods[i].as_str() {
            Some(s) => if str_eq(s, "generateContent") {
                return true;
            },
            None => {},
        }
        i = i + 1;
    }
    false
}

/// The candidate name of the listed model `m`.
pub fn model_candidate(m: &Json) -> (r: Option<String>)
    ensures
        match r {
            Some(n) => candidate_name(*m) == Some(n@),
            None => candidate_name(*m) is None,
        },
{
    let name = match m.at("name").as_str() {
        Some(s) => trim_start_matches(s, "models/"),
        None => return None,
    };
    let methods = match m.at("supportedGenerationMethods").as_array() {
        Some(v) => v,
        None => return None,
    };
    if methods_have_generate(methods) && !str_contains(name.as_str(), "embedding")
        && !str_contains(name.as_str(), "aqa") && !str_contains(name.as_str(), "imagen") {
        Some(name)
    } else {
        None
    }
}

/// The Gemini model to review with, from the reply to the model listing:
/// the first of the cheapest candidates, or `gemini-2.5-flash` when the
/// listing failed or offers none.
pub fn select_gemini_model(listing: &Report) -> (r: String)
    ensures
        listing_candidates(*listing).len() == 0 ==> r@ == fallback_gemini_model(),
        listing_candidates(*listing).len() > 0 ==> exists|i: int|
            is_first_cheapest(listing_candidates(*listing), i) && r@ == listing_candidates(
                *listing,
            )[i],
        !has_infix(r@, "embedding"@) && !has_infix(r@, "aqa"@) && !has_infix(r@, "imagen"@),
        r@ == fallback_gemini_model() || exists|m: int|
            listed_generate_model(listing_models(*listing), m, r@),
{
    let models: &[Json] = match listing {
        Report::Parsed(body) => match body.at("models").as_array() {
            Some(v) => v.as_slice(),
            None => &[],
        },
        _ => &[],
    };
    let ghost all = models@;
    assert(listing_candidates(*listing) == candidates(all));
    proof {
        lemma_candidates_are_text_models(all);
    }
    let mut names: Vec<String> = Vec::new();
    let mut i: usize = 0;
    while i < models.len()
        invariant
            i <= models.len(),
            all == models@,
            crate::text::views(names@) == candidates(all.take(i as int)),
        decreases models.len() - i,
    {
        assert(all.take(i + 1).drop_last() =~= all.take(i as int));
        assert(all.take(i + 1).last() == all[i as int]);
        match model_candidate(&models[i]) {
            Some(n) => {
                let ghost before = names@;
                names.push(n);
                assert(crate::text::views(names@) =~= crate::text::views(before).push(
                    names@.last()@,
                ));
            },
            None => {},
        }
        i = i + 1;
    }
    assert(all.take(models.len() as int) =~= all);
    let ghost cands = candidates(all);
    if names.len() == 0 {
        proof {
            reveal_strlit("gemini-2.5-flash");
            reveal_strlit("embedding");
            reveal_strlit("aqa");
            reveal_strlit("imagen");
            let f = "gemini-2.5-flash"@;
            assert forall|i: int| !crate::text::occurs_at(f, "embedding"@, i) by {
                if crate::text::occurs_at(f, "embedding"@, i) {
                    assert(f.subrange(i, i + 9)[0] == 'e');
                    assert(f.subrange(i, i + 9)[1] == 'm');
                    assert(f.subrange(i, i + 9)[2] == 'b');
                }
            }
            assert forall|i: int| !crate::text::occurs_at(f, "aqa"@, i) by {
                if crate::text::occurs_at(f, "aqa"@, i) {
                    assert(f.subrange(i, i + 3)[0] == 'a');
                    assert(f.subrange(i, i + 3)[1] == 'q');
                }
            }
            assert forall|i: int| !crate::text::occurs_at(f, "imagen"@, i) by {
                if crate::text::occurs_at(f, "imagen"@, i) {
                    assert(f.subrange(i, i + 6)[0] == 'i');
                    assert(f.subrange(i, i + 6)[1] == 'm');
                }
            }
        }
        return String::from_str("gemini-2.5-flash");
    }
    let mut best: usize = 0;
    let mut best_rank = rank_of(names[0].as_str());
    let mut k: usize = 1;
    while k < names.len()
        invariant
            1 <= k <= names.len(),
            crate::text::views(names@) == cands,
            best < k,
            best_rank as int == model_rank(cands[best as int]),
            forall|j: int| 0 <= j < k ==> model_rank(cands[best as int]) <= model_rank(#[trigger] cands[j]),
            forall|j: int| 0 <= j < best ==> model_rank(cands[best as int]) < model_rank(#[trigger] cands[j]),
        decreases names.len() - k,
    {
        let rk = rank_of(names[k].as_str());
        assert(names@[k as int]@ == cands[k as int]);
        if rk < best_rank {
            best = k;
            best_rank = rk;
        }
        k = k + 1;
    }
    assert(names@[best as int]@ == cands[best as int]);
    assert(is_first_cheapest(cands, best as int));
    assert(cands[best as int] == candidates(all)[best as int]);
    proof {
        assert(all == listing_models(*listing));
        lemma_candidates_serve_generate_content(all, best as int);
    }
    names[best].clone()
}

/// The Gemini model to review with, from the body of the reply to the model
/// listing (`None` when the request failed or was refused): as
/// `select_gemini_model` picks it from the report the body makes.
pub fn select_gemini_model_from(listing: Option<&[u8]>) -> (r: String)
    ensures
        listing_candidates(report_of(bytes_of(listing))).len() == 0 ==> r@
            == fallback_gemini_model(),
        listing_candidates(report_of(bytes_of(listing))).len() > 0 ==> exists|i: int|
            is_first_cheapest(listing_candidates(report_of(bytes_of(listing))), i) && r@
                == listing_candidates(report_of(bytes_of(listing)))[i],
        !has_infix(r@, "embedding"@) && !has_infix(r@, "aqa"@) && !has_infix(r@, "imagen"@),
        r@ == fallback_gemini_model() || exists|m: int|
            listed_generate_model(listing_models(report_of(bytes_of(listing))), m, r@),
{
    select_gemini_model(&report_of_output(listing))
}

/// The generation endpoint of the Gemini model `model`.
pub open spec fn gemini_generate_url(model: Seq<char>) -> Seq<char> {
    "https://generativelanguage.googleapis.com/v1beta/models/"@ + model + ":generateContent"@
}

/// The generation endpoint of the Gemini model `model`.
pub fn build_gemini_generate_url(model: &str) -> (r: String)
    ensures
        r@ == gemini_generate_url(model@),
{
    let mut r = String::from_str("https://generativelanguage.googleapis.com/v1beta/models/");
    r.append(model);
    r.append(":generateContent");
    r
}

/// The text of a Gemini reply: the first part of the first candidate's
/// content, or a notice that there is none.
pub open spec fn gemini_reply_text(reply: Json) -> Seq<char> {
    str_or(
        json_at(
            json_idx(json_at(json_at(json_idx(json_at(reply, "candidates"@), 0), "content"@), "parts"@), 0),
            "text"@,
        ),
        "No content returned from Gemini."@,
    )
}

/// The text of the Gemini reply `reply`.
pub fn read_gemini_reply(reply: &Json) -> (r: String)
    ensures
        r@ == gemini_reply_text(*reply),
{
    text_or(
        reply.at("candidates").at_index(0).at("content").at("parts").at_index(0).at("text"),
        "No content returned from Gemini.",
    )
}

/// The text of the Gemini reply whose body is `body`; `None` when the body
/// is no JSON.
pub fn read_gemini_reply_body(body: &[u8]) -> (r: Option<String>)
    ensures
        match parsed_json(body@) {
            Some(j) => r is Some && r->0@ == gemini_reply_text(j),
            None => r is None,
        },
{
    match parse_json(body) {
        Some(j) => Some(read_gemini_reply(&j)),
        None => None,
    }
}

/// A successful HTTP status (2xx).
pub open spec fn is_success_status(code: u16) -> bool {
    200 <= code <= 299
}

/// Whether the HTTP status `code` is a success.
pub fn status_is_success(code: u16) -> (r: bool)
    ensures
        r == is_success_status(code),
{
    200 <= code && code <= 299
}

/// How many times a Gemini request is sent at most.
pub const GEMINI_MAX_ATTEMPTS: u32 = 3;

/// What follows a Gemini reply that is no success: wait and send again, or
/// give up with an error.
#[derive(Debug)]
pub enum GeminiStep {
    Retry { wait_secs: u64 },
    Fail(String),
}

/// The retry state of a Gemini review: the attempts made so far and the
/// error of the last busy reply.
#[derive(Debug)]
pub struct GeminiRetry {
    attempts: u32,
    last_err: String,
}

/// The error kept for a busy reply (`429` or `503`).
pub open spec fn busy_message(attempt: u32, status: Seq<char>, err_text: Seq<char>) -> Seq<char> {
    "(Attempt "@ + decimal(attempt as nat) + "/3) API Busy ("@ + status + "): "@ + err_text
}

/// The error for a reply that is neither a success nor busy.
pub open spec fn api_error_message(status: Seq<char>, err_text: Seq<char>) -> Seq<char> {
    "Gemini API Error ("@ + status + "): "@ + err_text
}

/// The error once every attempt met a busy service.
pub open spec fn exhausted_message(last_err: Seq<char>) -> Seq<char> {
    "Gemini API Error after 3 retries: "@ + last_err
}

impl GeminiRetry {
    /// Attempts made so far.
    pub closed spec fn spec_attempts(&self) -> u32 {
        self.attempts
    }

    /// The error of the last busy reply.
    pub closed spec fn spec_last_err(&self) -> Seq<char> {
        self.last_err@
    }

    /// No more than the allowed attempts are ever made.
    pub closed spec fn wf(&self) -> bool {
        self.attempts <= GEMINI_MAX_ATTEMPTS
    }

    /// No attempt made yet.
    pub fn new() -> (r: GeminiRetry)
        ensures
            r.spec_attempts() == 0,
            r.spec_last_err().len() == 0,
            r.wf(),
    {
        GeminiRetry { attempts: 0, last_err: String::new() }
    }

    /// Attempts made so far.
    pub fn attempts(&self) -> (r: u32)
        ensures
            r == self.spec_attempts(),
    {
        self.attempts
    }

    /// Starts the next attempt, if one is left; says whether it did.
    pub fn begin_attempt(&mut self) -> (started: bool)
        requires
            old(self).wf(),
        ensures
            final(self).wf(),
            started == (old(self).spec_attempts() < GEMINI_MAX_ATTEMPTS),
            started ==> final(self).spec_attempts() == old(self).spec_attempts() + 1,
            !started ==> final(self).spec_attempts() == GEMINI_MAX_ATTEMPTS,
            final(self).spec_last_err() == old(self).spec_last_err(),
    {
        if self.attempts < GEMINI_MAX_ATTEMPTS {
            self.attempts = self.attempts + 1;
            true
        } else {
            false
        }
    }

    /// The step after a reply with the non-success status `code`, shown as
    /// `status` with the body `err_text`: a busy service (`429`, `503`) is
    /// tried again after `2 × attempts` seconds, any other status fails.
    pub fn on_failure(&mut self, code: u16, status: &str, err_text: &str) -> (step: GeminiStep)
        requires
            old(self).wf(),
        ensures
            final(self).wf(),
            final(self).spec_attempts() == old(self).spec_attempts(),
            match step {
                GeminiStep::Retry { wait_secs } => (code == 503 || code == 429) && wait_secs == 2
                    * old(self).spec_attempts() && final(self).spec_last_err() == busy_message(
                    old(self).spec_attempts(),
                    status@,
                    err_text@,
                ),
                GeminiStep::Fail(m) => !(code == 503 || code == 429) && m@ == api_error_message(
                    status@,
                    err_text@,
                ) && final(self).spec_last_err() == old(self).spec_last_err(),
            },
    {
        if code == 503 || code == 429 {
            let mut m = String::from_str("(Attempt ");
            let n = decimal_string(self.attempts as u64);
            m.append(n.as_str());
            m.append("/3) API Busy (");
            m.append(status);
            m.append("): ");
            m.append(err_text);
            self.last_err = m;
            GeminiStep::Retry { wait_secs: 2 * (self.attempts as u64) }
        } else {
            let mut m = String::from_str("Gemini API Error (");
            m.append(status);
            m.append("): ");
            m.append(err_text);
            GeminiStep::Fail(m)
        }
    }

    /// The error once no attempt is left.
    pub fn exhausted_error(&self) -> (r: String)
        ensures
            r@ == exhausted_message(self.spec_last_err()),
    {
        let mut r = String::from_str("Gemini API Error after 3 retries: ");
        r.append(self.last_err.as_str());
        r
    }
}

} // verus!
