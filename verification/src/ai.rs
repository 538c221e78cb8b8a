//! Translation and summaries through an AI API (DeepLX or an OpenAI-style chat
//! API): the requests made of a configuration and an article's blocks, the
//! batching of blocks by their token estimates, the reading of the replies,
//! and the retries of a failed translation.
use vstd::prelude::*;
use crate::api_config::ApiConfig;
use crate::article::ArticleBlock;
use crate::fever::{lowercased, to_lowercase};
use crate::jobs::ai_settings;
use crate::json::{
    json_str_field, json_object_of, json_object_text, json_string_entries, json_string_map, json_u64_at,
    json_u64_field,
};
use crate::num::{dec_spec, parse_usize, parse_usize_spec, u64_to_dec};
use crate::text::{
    chars_eq, contains_exec, contains_spec, ends_with_exec, ends_with_spec, extend_chars,
    extend_str, from_chars, join_chars, join_spec, lines, lines_spec, replace_char,
    replace_char_spec, to_chars, trim_chars, trim_end_matches, trim_end_matches_spec, trim_spec,
    trim_start_matches, trim_start_matches_spec,
};

verus! {

/// The most tokens one OpenAI batch is meant to hold.
pub const TOKEN_LIMIT: usize = 4096;

/// The OpenAI base address used for summaries when none is configured.
pub open spec fn default_openai_base() -> Seq<char> {
    "https://api.openai.com/v1/"@
}

/// Why a request could not be made or its reply not used.
pub enum AiError {
    /// The configuration's API type is neither `deeplx` nor `openai`.
    UnsupportedApiType(String),
    /// Summaries are made by OpenAI-style APIs only.
    SummaryNeedsOpenAi,
    /// The configuration has no base address.
    MissingBaseUrl,
    /// The configuration has no API key.
    MissingApiKey,
    /// DeepLX answered with a code other than 200.
    DeepLxCode { code: i32, data: String },
    /// The chat API returned no choice.
    NoChoices,
    /// The reply is not a JSON object of strings; the reply as it came.
    InvalidJson(String),
    /// The number of translations differs from the number of blocks.
    CountMismatch { expected: usize, got: usize },
}

/// The two kinds of translation API.
#[derive(PartialEq, Eq, Structural)]
pub enum Translator {
    DeepLx,
    OpenAi,
}

/// What follows a failed translation attempt.
#[derive(PartialEq, Eq, Structural)]
pub enum RetryStep {
    /// Wait this many milliseconds, then try again.
    Retry(u64),
    /// Stop: the attempts are used up.
    GiveUp,
}

/// An AI service: a configuration and the model and language it works with.
pub struct AiService {
    pub target_lang: String,
    pub model: String,
    pub config: ApiConfig,
}

/// The translator of an API type.
pub open spec fn translator_spec(api_type: Seq<char>) -> Option<Translator> {
    if api_type == "deeplx"@ {
        Some(Translator::DeepLx)
    } else if api_type == "openai"@ {
        Some(Translator::OpenAi)
    } else {
        None
    }
}

/// How many attempts a translation gets: one more than the retries when
/// retrying is on, one otherwise.
pub open spec fn max_attempts_spec(c: ApiConfig) -> int {
    if c.retry_enabled {
        c.retry_count + 1
    } else {
        1
    }
}

impl AiService {
    /// A service for a configuration.
    pub fn new(target_lang: String, model: String, config: ApiConfig) -> (s: AiService)
        ensures
            s.target_lang == target_lang,
            s.model == model,
            s.config == config,
    {
        AiService { target_lang, model, config }
    }

    /// The service of a configuration, with the model and target language its
    /// settings name (`gpt-3.5-turbo` and `Chinese` unless set).
    pub fn from_config(config: ApiConfig) -> (s: AiService)
        ensures
            s.config == config,
            s.model@ == match json_str_field(config.settings@, "model"@) {
                Some(m) => m,
                None => "gpt-3.5-turbo"@,
            },
            s.target_lang@ == match json_str_field(config.settings@, "target_lang"@) {
                Some(t) => t,
                None => "Chinese"@,
            },
    {
        let (model, lang) = ai_settings(config.settings.as_str());
        AiService::new(lang, model, config)
    }

    /// The timeout of the service's requests, in seconds.
    pub fn timeout_secs(&self) -> (t: u64)
        ensures
            t == self.config.timeout_seconds as u64,
    {
        self.config.timeout_seconds as u64
    }

    /// How many attempts a translation gets.
    pub fn max_attempts(&self) -> (n: i32)
        requires
            self.config.retry_enabled ==> self.config.retry_count < i32::MAX,
        ensures
            n == max_attempts_spec(self.config),
    {
        if self.config.retry_enabled {
            self.config.retry_count + 1
        } else {
            1
        }
    }

    /// The translator the configuration names.
    pub fn translator(&self) -> (r: Result<Translator, AiError>)
        ensures
            match translator_spec(self.config.api_type@) {
                Some(t) => r == Ok::<Translator, AiError>(t),
                None => r matches Err(AiError::UnsupportedApiType(t)) && t@ == self.config.api_type@,
            },
    {
        let t = to_chars(self.config.api_type.as_str());
        if chars_eq(&t, &to_chars("deeplx")) {
            Ok(Translator::DeepLx)
        } else if chars_eq(&t, &to_chars("openai")) {
            Ok(Translator::OpenAi)
        } else {
            Err(AiError::UnsupportedApiType(from_chars(&t)))
        }
    }

    /// What follows the failure of attempt number `attempts` (counted from 1):
    /// a retry after the configured interval while attempts remain.
    pub fn after_failed_attempt(&self, attempts: i32) -> (s: RetryStep)
        requires
            self.config.retry_enabled ==> self.config.retry_count < i32::MAX,
        ensures
            attempts >= max_attempts_spec(self.config) ==> s == RetryStep::GiveUp,
            attempts < max_attempts_spec(self.config) ==> s == RetryStep::Retry(
                self.config.retry_interval_ms as u64,
            ),
    {
        if attempts >= self.max_attempts() {
            RetryStep::GiveUp
        } else {
            RetryStep::Retry(self.config.retry_interval_ms as u64)
        }
    }
}

// ---------------------------------------------------------------------------
// Addresses and languages
// ---------------------------------------------------------------------------

/// `base` with `suffix` appended after a `/`, unless `base` ends in `/`.
pub open spec fn join_slash(base: Seq<char>, suffix: Seq<char>) -> Seq<char> {
    if ends_with_spec(base, "/"@) {
        base + suffix
    } else {
        base + "/"@ + suffix
    }
}

/// The chat-completions address of a base address.
pub open spec fn completions_url_spec(base: Seq<char>) -> Seq<char> {
    if ends_with_spec(base, "/chat/completions"@) {
        base
    } else {
        join_slash(base, "chat/completions"@)
    }
}

/// The DeepLX translation address of a base address.
pub open spec fn deeplx_url_spec(base: Seq<char>) -> Seq<char> {
    if contains_spec(base, "/translate"@) {
        base
    } else {
        join_slash(base, "translate"@)
    }
}

fn join_slash_exec(base: &[char], suffix: &str) -> (r: Vec<char>)
    ensures
        r@ == join_slash(base@, suffix@),
{
    let mut v: Vec<char> = Vec::new();
    extend_chars(&mut v, base);
    if !ends_with_exec(base, &to_chars("/")) {
        extend_str(&mut v, "/");
    }
    extend_str(&mut v, suffix);
    v
}

/// The chat-completions address of a base address: the base itself when it
/// ends in `/chat/completions`, else the base with `chat/completions` added
/// after a `/`.
pub fn completions_url(base: &str) -> (r: String)
    ensures
        r@ == completions_url_spec(base@),
{
    let b = to_chars(base);
    if ends_with_exec(&b, &to_chars("/chat/completions")) {
        from_chars(&b)
    } else {
        from_chars(&join_slash_exec(&b, "chat/completions"))
    }
}

/// The DeepLX address of a base address: the base itself when it holds
/// `/translate`, else the base with `translate` added after a `/`.
pub fn deeplx_url(base: &str) -> (r: String)
    ensures
        r@ == deeplx_url_spec(base@),
{
    let b = to_chars(base);
    if contains_exec(&b, &to_chars("/translate")) {
        from_chars(&b)
    } else {
        from_chars(&join_slash_exec(&b, "translate"))
    }
}

/// The DeepLX language code of a target language named in lower case.
pub open spec fn deeplx_code_of_lower(l: Seq<char>) -> Seq<char> {
    if l == "chinese"@ || l == "zh"@ {
        "ZH"@
    } else if l == "english"@ || l == "en"@ {
        "EN"@
    } else if l == "japanese"@ || l == "ja"@ {
        "JA"@
    } else if l == "french"@ || l == "fr"@ {
        "FR"@
    } else {
        "ZH"@
    }
}

fn is_one_of(v: &[char], a: &str, b: &str) -> (r: bool)
    ensures
        r == (v@ == a@ || v@ == b@),
{
    chars_eq(v, &to_chars(a)) || chars_eq(v, &to_chars(b))
}

/// The DeepLX code of a target language, matched without regard to case:
/// Chinese (`ZH`) unless it names English, Japanese or French.
pub fn deeplx_target_code(target_lang: &str) -> (r: String)
    ensures
        r@ == deeplx_code_of_lower(lowercased(target_lang@)),
{
    let l = to_chars(to_lowercase(target_lang).as_str());
    if is_one_of(&l, "chinese", "zh") {
        String::from_str("ZH")
    } else if is_one_of(&l, "english", "en") {
        String::from_str("EN")
    } else if is_one_of(&l, "japanese", "ja") {
        String::from_str("JA")
    } else if is_one_of(&l, "french", "fr") {
        String::from_str("FR")
    } else {
        String::from_str("ZH")
    }
}

// ---------------------------------------------------------------------------
// DeepLX
// ---------------------------------------------------------------------------

/// A DeepLX request: where it goes and the body's fields.
pub struct DeepLxRequest {
    pub url: String,
    pub text: String,
    pub source_lang: String,
    pub target_lang: String,
}

/// The raw texts of blocks, each with its line breaks turned into spaces,
/// one per line.
pub open spec fn combined_text_spec(blocks: Seq<ArticleBlock>) -> Seq<char> {
    join_spec(blocks.map_values(|b: ArticleBlock| replace_char_spec(b.raw_text@, '\n', " "@)), "\n"@)
}

/// The texts of blocks sent to DeepLX in one request, one per line.
pub fn combined_text(blocks: &[ArticleBlock]) -> (r: String)
    ensures
        r@ == combined_text_spec(blocks@),
{
    let mut parts: Vec<Vec<char>> = Vec::new();
    let mut i: usize = 0;
    let space = to_chars(" ");
    while i < blocks.len()
        invariant
            i <= blocks.len(),
            space@ == " "@,
            parts@.map_values(|p: Vec<char>| p@) == blocks@.take(i as int).map_values(
                |b: ArticleBlock| replace_char_spec(b.raw_text@, '\n', " "@),
            ),
        decreases blocks.len() - i,
    {
        let line = replace_char(&to_chars(blocks[i].raw_text.as_str()), '\n', &space);
        let ghost before = parts@.map_values(|p: Vec<char>| p@);
        parts.push(line);
        assert(parts@.map_values(|p: Vec<char>| p@) =~= before.push(line@));
        assert(blocks@.take(i + 1).map_values(
            |b: ArticleBlock| replace_char_spec(b.raw_text@, '\n', " "@),
        ) =~= blocks@.take(i as int).map_values(
            |b: ArticleBlock| replace_char_spec(b.raw_text@, '\n', " "@),
        ).push(replace_char_spec(blocks@[i as int].raw_text@, '\n', " "@)));
        i += 1;
    }
    assert(blocks@.take(blocks.len() as int) =~= blocks@);
    from_chars(&join_chars(&parts, &to_chars("\n")))
}

impl AiService {
    /// The DeepLX request for blocks: their texts one per line, the source
    /// language detected, the target language's code; the configuration must
    /// have a base address.
    pub fn deeplx_request(&self, blocks: &[ArticleBlock]) -> (r: Result<DeepLxRequest, AiError>)
        ensures
            self.config.base_url is None ==> r matches Err(AiError::MissingBaseUrl),
            self.config.base_url matches Some(base) ==> (r matches Ok(q) && {
                &&& q.url@ == deeplx_url_spec(base@)
                &&& q.text@ == combined_text_spec(blocks@)
                &&& q.source_lang@ == "auto"@
                &&& q.target_lang@ == deeplx_code_of_lower(lowercased(self.target_lang@))
            }),
    {
        match &self.config.base_url {
            None => Err(AiError::MissingBaseUrl),
            Some(base) => Ok(
                DeepLxRequest {
                    url: deeplx_url(base.as_str()),
                    text: combined_text(blocks),
                    source_lang: String::from_str("auto"),
                    target_lang: deeplx_target_code(self.target_lang.as_str()),
                },
            ),
        }
    }
}

/// The translations in a DeepLX reply: its text's lines when the code is 200,
/// an error with the code and text otherwise.
pub fn deeplx_lines(code: i32, data: &str) -> (r: Result<Vec<String>, AiError>)
    ensures
        code != 200 ==> (r matches Err(AiError::DeepLxCode { code: c, data: d }) && c == code && d@
            == data@),
        code == 200 ==> (r matches Ok(v) && v@.map_values(|s: String| s@) == lines_spec(data@)),
{
    if code != 200 {
        return Err(AiError::DeepLxCode { code, data: from_chars(&to_chars(data)) });
    }
    let ls = lines(&to_chars(data));
    let mut out: Vec<String> = Vec::new();
    let mut i: usize = 0;
    while i < ls.len()
        invariant
            i <= ls.len(),
            out@.map_values(|s: String| s@) == ls@.take(i as int).map_values(|p: Vec<char>| p@),
        decreases ls.len() - i,
    {
        let ghost before = out@.map_values(|s: String| s@);
        out.push(from_chars(&ls[i]));
        assert(out@.map_values(|s: String| s@) =~= before.push(ls@[i as int]@));
        assert(ls@.take(i + 1).map_values(|p: Vec<char>| p@) =~= ls@.take(i as int).map_values(
            |p: Vec<char>| p@,
        ).push(ls@[i as int]@));
        i += 1;
    }
    assert(ls@.take(ls.len() as int) =~= ls@);
    Ok(out)
}

// ---------------------------------------------------------------------------
// OpenAI: batches of blocks
// ---------------------------------------------------------------------------

/// The batches that greedy batching makes of the blocks from `i` on, given
/// the batches closed so far, the batch being filled and its tokens: a block
/// opens a new batch when the one being filled is not empty and would go over
/// the limit with it.
pub open spec fn batches_from(
    counts: Seq<usize>,
    i: int,
    done: Seq<Seq<usize>>,
    cur: Seq<usize>,
    cur_tokens: int,
) -> Seq<Seq<usize>>
    decreases counts.len() - i,
{
    if i < 0 || i >= counts.len() {
        if cur.len() > 0 {
            done.push(cur)
        } else {
            done
        }
    } else if cur.len() > 0 && cur_tokens + counts[i] > TOKEN_LIMIT {
        batches_from(counts, i + 1, done.push(cur), seq![i as usize], counts[i] as int)
    } else {
        batches_from(counts, i + 1, done, cur.push(i as usize), cur_tokens + counts[i])
    }
}

/// The batches of block indices that blocks with these token estimates are
/// sent in.
pub open spec fn batches_spec(counts: Seq<usize>) -> Seq<Seq<usize>> {
    batches_from(counts, 0, seq![], seq![], 0)
}

/// The indices `i` up to `n`.
pub open spec fn index_range(i: int, n: int) -> Seq<usize> {
    Seq::new((n - i) as nat, |k: int| (i + k) as usize)
}

proof fn lemma_batches_from_cover(
    counts: Seq<usize>,
    i: int,
    done: Seq<Seq<usize>>,
    cur: Seq<usize>,
    cur_tokens: int,
)
    requires
        0 <= i <= counts.len(),
        counts.len() <= usize::MAX,
        forall|k: int| 0 <= k < done.len() ==> (#[trigger] done[k]).len() > 0,
    ensures
        batches_from(counts, i, done, cur, cur_tokens).flatten() == done.flatten() + cur
            + index_range(i, counts.len() as int),
        forall|k: int|
            0 <= k < batches_from(counts, i, done, cur, cur_tokens).len() ==> (#[trigger] batches_from(
                counts,
                i,
                done,
                cur,
                cur_tokens,
            )[k]).len() > 0,
    decreases counts.len() - i,
{
    broadcast use Seq::lemma_flatten_push;

    let n = counts.len() as int;
    if i >= n {
        assert(index_range(i, n) =~= Seq::<usize>::empty());
        if cur.len() > 0 {
            assert(done.push(cur).flatten() =~= done.flatten() + cur);
        } else {
            assert(done.flatten() + cur =~= done.flatten());
        }
    } else if cur.len() > 0 && cur_tokens + counts[i] > TOKEN_LIMIT {
        let d2 = done.push(cur);
        lemma_batches_from_cover(counts, i + 1, d2, seq![i as usize], counts[i] as int);
        assert(d2.flatten() =~= done.flatten() + cur);
        assert(seq![i as usize] + index_range(i + 1, n) =~= index_range(i, n));
        assert(done.flatten() + cur + seq![i as usize] + index_range(i + 1, n) =~= done.flatten()
            + cur + index_range(i, n));
    } else {
        lemma_batches_from_cover(counts, i + 1, done, cur.push(i as usize), cur_tokens + counts[i]);
        assert(cur.push(i as usize) + index_range(i + 1, n) =~= cur + index_range(i, n));
        assert(done.flatten() + cur.push(i as usize) + index_range(i + 1, n) =~= done.flatten()
            + cur + index_range(i, n));
    }
}

/// Batching sends every block exactly once and in order: the batches, one
/// after the other, are the block indices from the first to the last, and no
/// batch is empty.
pub proof fn lemma_batches_cover(counts: Seq<usize>)
    requires
        counts.len() <= usize::MAX,
    ensures
        batches_spec(counts).flatten() == index_range(0, counts.len() as int),
        forall|k: int|
            0 <= k < batches_spec(counts).len() ==> (#[trigger] batches_spec(counts)[k]).len() > 0,
{
    lemma_batches_from_cover(counts, 0, seq![], seq![], 0);
    assert(Seq::<Seq<usize>>::empty().flatten() =~= Seq::<usize>::empty());
    assert(Seq::<usize>::empty() + Seq::<usize>::empty() + index_range(0, counts.len() as int)
        =~= index_range(0, counts.len() as int));
}

/// The tokens of a batch: the sum of its blocks' estimates.
pub open spec fn batch_tokens(counts: Seq<usize>, batch: Seq<usize>) -> int
    decreases batch.len(),
{
    if batch.len() == 0 {
        0
    } else {
        batch_tokens(counts, batch.drop_last()) + counts[batch.last() as int]
    }
}

/// A batch keeps to the token limit, unless it holds a single block.
pub open spec fn within_limit(counts: Seq<usize>, batch: Seq<usize>) -> bool {
    batch_tokens(counts, batch) <= TOKEN_LIMIT || batch.len() == 1
}

proof fn lemma_batches_from_limit(
    counts: Seq<usize>,
    i: int,
    done: Seq<Seq<usize>>,
    cur: Seq<usize>,
    cur_tokens: int,
)
    requires
        0 <= i <= counts.len(),
        counts.len() <= usize::MAX,
        forall|k: int| 0 <= k < done.len() ==> within_limit(counts, #[trigger] done[k]),
        cur_tokens == batch_tokens(counts, cur),
        cur.len() > 0 ==> within_limit(counts, cur),
    ensures
        forall|k: int|
            0 <= k < batches_from(counts, i, done, cur, cur_tokens).len() ==> within_limit(
                counts,
                #[trigger] batches_from(counts, i, done, cur, cur_tokens)[k],
            ),
    decreases counts.len() - i,
{
    let n = counts.len() as int;
    if i >= n {
        if cur.len() > 0 {
            assert forall|k: int| 0 <= k < done.push(cur).len() implies within_limit(
                counts,
                #[trigger] done.push(cur)[k],
            ) by {
                if k < done.len() {
                    assert(done.push(cur)[k] == done[k]);
                }
            }
        }
    } else if cur.len() > 0 && cur_tokens + counts[i] > TOKEN_LIMIT {
        let d2 = done.push(cur);
        assert forall|k: int| 0 <= k < d2.len() implies within_limit(counts, #[trigger] d2[k]) by {
            if k < done.len() {
                assert(d2[k] == done[k]);
            }
        }
        let one = seq![i as usize];
        assert(one.drop_last() =~= Seq::<usize>::empty());
        assert(batch_tokens(counts, one.drop_last()) == 0);
        assert(one.last() == i as usize);
        assert(batch_tokens(counts, one) == counts[i] as int);
        lemma_batches_from_limit(counts, i + 1, d2, one, counts[i] as int);
        assert(batches_from(counts, i, done, cur, cur_tokens) == batches_from(
            counts,
            i + 1,
            d2,
            one,
            counts[i] as int,
        ));
    } else {
        let c2 = cur.push(i as usize);
        assert(c2.drop_last() =~= cur);
        assert(batch_tokens(counts, c2) == cur_tokens + counts[i]);
        if cur.len() == 0 {
            assert(c2.len() == 1);
        }
        lemma_batches_from_limit(counts, i + 1, done, c2, cur_tokens + counts[i]);
        assert(batches_from(counts, i, done, cur, cur_tokens) == batches_from(
            counts,
            i + 1,
            done,
            c2,
            cur_tokens + counts[i],
        ));
    }
}

/// Every batch keeps to `TOKEN_LIMIT` tokens, unless it holds a single block
/// that is larger by itself.
pub proof fn lemma_batches_within_limit(counts: Seq<usize>)
    requires
        counts.len() <= usize::MAX,
    ensures
        forall|k: int|
            0 <= k < batches_spec(counts).len() ==> within_limit(
                counts,
                #[trigger] batches_spec(counts)[k],
            ),
{
    lemma_batches_from_limit(counts, 0, seq![], seq![], 0);
}

/// The batches of block indices for blocks with these token estimates: in
/// order, a block joins the batch being filled unless that batch is not empty
/// and would go over `TOKEN_LIMIT` with it.
pub fn plan_batches(counts: &[usize]) -> (r: Vec<Vec<usize>>)
    ensures
        r@.map_values(|b: Vec<usize>| b@) == batches_spec(counts@),
{
    let mut done: Vec<Vec<usize>> = Vec::new();
    let mut cur: Vec<usize> = Vec::new();
    let mut cur_tokens: usize = 0;
    let mut i: usize = 0;
    let n = counts.len();
    assert(done@.map_values(|b: Vec<usize>| b@) =~= Seq::<Seq<usize>>::empty());
    assert(cur@ =~= Seq::<usize>::empty());
    while i < n
        invariant
            n == counts.len(),
            i <= n,
            cur@.len() == 0 ==> cur_tokens == 0,
            cur@.len() > 0 ==> cur_tokens <= TOKEN_LIMIT || cur@.len() == 1,
            batches_from(counts@, i as int, done@.map_values(|b: Vec<usize>| b@), cur@, cur_tokens as int)
                == batches_spec(counts@),
        decreases n - i,
    {
        let t = counts[i];
        let over = cur_tokens > TOKEN_LIMIT || t > TOKEN_LIMIT - cur_tokens;
        if cur.len() > 0 && over {
            let ghost before = done@.map_values(|b: Vec<usize>| b@);
            let ghost closed = cur@;
            done.push(cur);
            assert(done@.map_values(|b: Vec<usize>| b@) =~= before.push(closed));
            cur = Vec::new();
            cur.push(i);
            assert(cur@ =~= seq![i]);
            cur_tokens = t;
        } else {
            cur.push(i);
            cur_tokens = cur_tokens + t;
        }
        i += 1;
    }
    if cur.len() > 0 {
        let ghost before = done@.map_values(|b: Vec<usize>| b@);
        let ghost closed = cur@;
        done.push(cur);
        assert(done@.map_values(|b: Vec<usize>| b@) =~= before.push(closed));
    }
    done
}

// ---------------------------------------------------------------------------
// OpenAI: requests and replies
// ---------------------------------------------------------------------------

/// A chat request: where it goes, the key it carries, and the messages and
/// token cap of its body.
pub struct OpenAiRequest {
    pub url: String,
    pub api_key: String,
    pub model: String,
    pub system_prompt: String,
    pub user_content: String,
    pub max_tokens: u32,
}

/// The instruction for translating a batch into `lang`.
pub open spec fn translate_prompt_spec(lang: Seq<char>) -> Seq<char> {
    "You are a professional translator. Task: Translate the provided JSON object into "@ + lang
        + ". Format: Respond ONLY with a JSON object {\"ID\": \"translation\", ...}. Respond with valid JSON only."@
}

/// The instruction for summarising into `lang`.
pub open spec fn summary_prompt_spec(lang: Seq<char>) -> Seq<char> {
    "Please provide a concise summary of the following text in "@ + lang
        + ". The summary MUST be under 150 characters. Respond ONLY with the summary text, no extra explanation."@
}

/// The token cap of a translation request: the settings' `max_tokens` (cut to
/// 32 bits), 4096 unless set.
pub open spec fn max_tokens_spec(settings: Seq<char>) -> u32 {
    match json_u64_field(settings, "max_tokens"@) {
        Some(v) => v as u32,
        None => 4096u32,
    }
}

/// The entries of a batch sent for translation: each block's index, in
/// decimal, with its raw text.
pub open spec fn batch_entries_spec(blocks: Seq<ArticleBlock>, batch: Seq<usize>) -> Seq<(Seq<char>, Seq<char>)> {
    batch.map_values(|i: usize| (dec_spec(i as int), blocks[i as int].raw_text@))
}

fn batch_entries(blocks: &[ArticleBlock], batch: &[usize]) -> (r: Vec<(String, String)>)
    requires
        forall|k: int| 0 <= k < batch.len() ==> batch[k] < blocks.len(),
    ensures
        r@.map_values(|e: (String, String)| (e.0@, e.1@)) == batch_entries_spec(blocks@, batch@),
{
    let mut out: Vec<(String, String)> = Vec::new();
    let mut k: usize = 0;
    while k < batch.len()
        invariant
            k <= batch.len(),
            forall|j: int| 0 <= j < batch.len() ==> batch[j] < blocks.len(),
            out@.map_values(|e: (String, String)| (e.0@, e.1@)) == batch_entries_spec(
                blocks@,
                batch@.take(k as int),
            ),
        decreases batch.len() - k,
    {
        let idx = batch[k];
        let key = from_chars(&u64_to_dec(idx as u64));
        let text = blocks[idx].raw_text.clone();
        let ghost before = out@.map_values(|e: (String, String)| (e.0@, e.1@));
        out.push((key, text));
        assert(out@.map_values(|e: (String, String)| (e.0@, e.1@)) =~= before.push(
            (dec_spec(idx as int), blocks@[idx as int].raw_text@),
        ));
        assert(batch@.take(k + 1) =~= batch@.take(k as int).push(idx));
        assert(batch_entries_spec(blocks@, batch@.take(k + 1)) =~= batch_entries_spec(
            blocks@,
            batch@.take(k as int),
        ).push((dec_spec(idx as int), blocks@[idx as int].raw_text@)));
        k += 1;
    }
    assert(batch@.take(batch.len() as int) =~= batch@);
    out
}

impl AiService {
    /// The request translating one batch of blocks: the batch as a JSON object
    /// from index to text, the translation instruction for the target
    /// language, the settings' token cap; the configuration must have a base
    /// address, then a key.
    pub fn openai_batch_request(&self, blocks: &[ArticleBlock], batch: &[usize]) -> (r: Result<
        OpenAiRequest,
        AiError,
    >)
        requires
            forall|k: int| 0 <= k < batch.len() ==> batch[k] < blocks.len(),
        ensures
            self.config.base_url is None ==> r matches Err(AiError::MissingBaseUrl),
            self.config.base_url is Some && self.config.api_key is None ==> r matches Err(
                AiError::MissingApiKey,
            ),
            self.config.base_url matches Some(base) ==> (self.config.api_key matches Some(key) ==> (r matches Ok(q) && {
                &&& q.url@ == completions_url_spec(base@)
                &&& q.api_key@ == key@
                &&& q.model@ == self.model@
                &&& q.system_prompt@ == translate_prompt_spec(self.target_lang@)
                &&& q.user_content@ == json_object_text(batch_entries_spec(blocks@, batch@))
                &&& q.max_tokens == max_tokens_spec(self.config.settings@)
            })),
    {
        let base = match &self.config.base_url {
            None => return Err(AiError::MissingBaseUrl),
            Some(b) => b,
        };
        let key = match &self.config.api_key {
            None => return Err(AiError::MissingApiKey),
            Some(k) => k,
        };
        let max_tokens: u32 = match json_u64_at(self.config.settings.as_str(), "max_tokens") {
            Some(v) => v as u32,
            None => 4096,
        };
        let mut prompt = to_chars(
            "You are a professional translator. Task: Translate the provided JSON object into ",
        );
        extend_str(&mut prompt, self.target_lang.as_str());
        extend_str(
            &mut prompt,
            ". Format: Respond ONLY with a JSON object {\"ID\": \"translation\", ...}. Respond with valid JSON only.",
        );
        Ok(
            OpenAiRequest {
                url: completions_url(base.as_str()),
                api_key: key.clone(),
                model: self.model.clone(),
                system_prompt: from_chars(&prompt),
                user_content: json_object_of(batch_entries(blocks, batch)),
                max_tokens,
            },
        )
    }

    /// The request summarising an article's texts: none when there are no
    /// texts; the texts joined by blank lines, the summary instruction for the
    /// target language, at most 1024 tokens, the configured base address or
    /// OpenAI's; only OpenAI-style APIs summarise, and they need a key.
    pub fn summary_request(&self, texts: &[String]) -> (r: Result<Option<OpenAiRequest>, AiError>)
        ensures
            texts.len() == 0 ==> r matches Ok(None),
            texts.len() > 0 && self.config.api_type@ != "openai"@ ==> r matches Err(
                AiError::SummaryNeedsOpenAi,
            ),
            texts.len() > 0 && self.config.api_type@ == "openai"@ && self.config.api_key is None
                ==> r matches Err(AiError::MissingApiKey),
            texts.len() > 0 && self.config.api_type@ == "openai"@ ==> (self.config.api_key matches Some(key) ==> (r matches Ok(Some(q)) && {
                &&& q.url@ == completions_url_spec(
                    match self.config.base_url {
                        Some(b) => b@,
                        None => default_openai_base(),
                    },
                )
                &&& q.api_key@ == key@
                &&& q.model@ == self.model@
                &&& q.system_prompt@ == summary_prompt_spec(self.target_lang@)
                &&& q.user_content@ == join_spec(texts@.map_values(|t: String| t@), "\n\n"@)
                &&& q.max_tokens == 1024
            })),
    {
        if texts.len() == 0 {
            return Ok(None);
        }
        if !chars_eq(&to_chars(self.config.api_type.as_str()), &to_chars("openai")) {
            return Err(AiError::SummaryNeedsOpenAi);
        }
        let key = match &self.config.api_key {
            None => return Err(AiError::MissingApiKey),
            Some(k) => k,
        };
        let url = match &self.config.base_url {
            Some(b) => completions_url(b.as_str()),
            None => completions_url("https://api.openai.com/v1/"),
        };
        let mut parts: Vec<Vec<char>> = Vec::new();
        let mut i: usize = 0;
        while i < texts.len()
            invariant
                i <= texts.len(),
                parts@.map_values(|p: Vec<char>| p@) == texts@.take(i as int).map_values(
                    |t: String| t@,
                ),
            decreases texts.len() - i,
        {
            let ghost before = parts@.map_values(|p: Vec<char>| p@);
            parts.push(to_chars(texts[i].as_str()));
            assert(parts@.map_values(|p: Vec<char>| p@) =~= before.push(texts@[i as int]@));
            assert(texts@.take(i + 1).map_values(|t: String| t@) =~= texts@.take(
                i as int,
            ).map_values(|t: String| t@).push(texts@[i as int]@));
            i += 1;
        }
        assert(texts@.take(texts.len() as int) =~= texts@);
        let mut prompt = to_chars("Please provide a concise summary of the following text in ");
        extend_str(&mut prompt, self.target_lang.as_str());
        extend_str(
            &mut prompt,
            ". The summary MUST be under 150 characters. Respond ONLY with the summary text, no extra explanation.",
        );
        Ok(
            Some(
                OpenAiRequest {
                    url,
                    api_key: key.clone(),
                    model: self.model.clone(),
                    system_prompt: from_chars(&prompt),
                    user_content: from_chars(&join_chars(&parts, &to_chars("\n\n"))),
                    max_tokens: 1024,
                },
            ),
        )
    }
}

/// The content of the first choice of a chat reply.
pub fn first_choice(choices: &[String]) -> (r: Result<String, AiError>)
    ensures
        choices.len() == 0 ==> r matches Err(AiError::NoChoices),
        choices.len() > 0 ==> (r matches Ok(c) && c@ == choices@[0]@),
{
    if choices.len() == 0 {
        Err(AiError::NoChoices)
    } else {
        Ok(choices[0].clone())
    }
}

/// The summary in a chat reply: its first choice, trimmed.
pub fn summary_of(choices: &[String]) -> (r: Result<String, AiError>)
    ensures
        choices.len() == 0 ==> r matches Err(AiError::NoChoices),
        choices.len() > 0 ==> (r matches Ok(c) && c@ == trim_spec(choices@[0]@)),
{
    let c = first_choice(choices)?;
    Ok(from_chars(&trim_chars(&to_chars(c.as_str()))))
}

/// A reply with its code fences taken off: trimmed, every leading
/// "```json" then every leading and trailing "```" removed, trimmed again.
pub open spec fn unfenced_spec(c: Seq<char>) -> Seq<char> {
    trim_spec(
        trim_end_matches_spec(
            trim_start_matches_spec(trim_start_matches_spec(trim_spec(c), "```json"@), "```"@),
            "```"@,
        ),
    )
}

/// A reply with its code fences taken off.
pub fn unfenced(content: &str) -> (r: Vec<char>)
    ensures
        r@ == unfenced_spec(content@),
{
    proof {
        reveal_strlit("```json");
        reveal_strlit("```");
    }
    let t = trim_chars(&to_chars(content));
    let a = trim_start_matches(&t, &to_chars("```json"));
    let b = trim_start_matches(&a, &to_chars("```"));
    let c = trim_end_matches(&b, &to_chars("```"));
    trim_chars(&c)
}

/// The entries whose key reads as an index, with that index, in order.
pub open spec fn indexed_entries(entries: Seq<(Seq<char>, Seq<char>)>) -> Seq<(usize, Seq<char>)>
    decreases entries.len(),
{
    if entries.len() == 0 {
        seq![]
    } else {
        let rest = indexed_entries(entries.drop_last());
        match parse_usize_spec(entries.last().0) {
            Some(i) => rest.push((i, entries.last().1)),
            None => rest,
        }
    }
}

/// The translations in a batch's reply: the reply, its fences taken off, must
/// be a JSON object of strings; each entry whose key reads as an index gives
/// that block's translation.
pub fn batch_translations(content: &str) -> (r: Result<Vec<(usize, String)>, AiError>)
    ensures
        json_string_entries(unfenced_spec(content@)) is None ==> (r matches Err(
            AiError::InvalidJson(c),
        ) && c@ == content@),
        json_string_entries(unfenced_spec(content@)) matches Some(es) ==> (r matches Ok(v)
            && v@.map_values(|e: (usize, String)| (e.0, e.1@)) == indexed_entries(es)),
{
    let cleaned = from_chars(&unfenced(content));
    let entries = match json_string_map(cleaned.as_str()) {
        None => return Err(AiError::InvalidJson(from_chars(&to_chars(content)))),
        Some(es) => es,
    };
    let ghost es = entries@.map_values(|e: (String, String)| (e.0@, e.1@));
    let mut out: Vec<(usize, String)> = Vec::new();
    let mut k: usize = 0;
    assert(es.take(0) =~= Seq::<(Seq<char>, Seq<char>)>::empty());
    assert(out@.map_values(|e: (usize, String)| (e.0, e.1@)) =~= Seq::<(usize, Seq<char>)>::empty());
    while k < entries.len()
        invariant
            k <= entries.len(),
            es == entries@.map_values(|e: (String, String)| (e.0@, e.1@)),
            out@.map_values(|e: (usize, String)| (e.0, e.1@)) == indexed_entries(
                es.take(k as int),
            ),
        decreases entries.len() - k,
    {
        assert(es.take(k + 1).drop_last() =~= es.take(k as int));
        assert(es.take(k + 1).last() == es[k as int]);
        let ghost before = out@.map_values(|e: (usize, String)| (e.0, e.1@));
        match parse_usize(&to_chars(entries[k].0.as_str())) {
            Some(i) => {
                out.push((i, entries[k].1.clone()));
                assert(out@.map_values(|e: (usize, String)| (e.0, e.1@)) =~= before.push(
                    (i, es[k as int].1),
                ));
            },
            None => {},
        }
        k += 1;
    }
    assert(es.take(entries.len() as int) =~= es);
    Ok(out)
}

/// The translations after results are applied, later results winning; a
/// result whose index is out of range changes nothing.
pub open spec fn apply_results_spec(texts: Seq<Seq<char>>, results: Seq<(usize, Seq<char>)>) -> Seq<Seq<char>>
    decreases results.len(),
{
    if results.len() == 0 {
        texts
    } else {
        let prev = apply_results_spec(texts, results.drop_last());
        let (i, t) = results.last();
        if i < prev.len() {
            prev.update(i as int, t)
        } else {
            prev
        }
    }
}

proof fn lemma_apply_len(texts: Seq<Seq<char>>, results: Seq<(usize, Seq<char>)>)
    ensures
        apply_results_spec(texts, results).len() == texts.len(),
    decreases results.len(),
{
    if results.len() > 0 {
        lemma_apply_len(texts, results.drop_last());
    }
}

/// Results of one batch written into the translations collected so far.
pub fn apply_results(texts: &mut Vec<String>, results: Vec<(usize, String)>)
    ensures
        final(texts)@.map_values(|s: String| s@) == apply_results_spec(
            old(texts)@.map_values(|s: String| s@),
            results@.map_values(|e: (usize, String)| (e.0, e.1@)),
        ),
{
    let ghost start = texts@.map_values(|s: String| s@);
    let ghost rs = results@.map_values(|e: (usize, String)| (e.0, e.1@));
    let mut k: usize = 0;
    let n = results.len();
    assert(rs.take(0) =~= Seq::<(usize, Seq<char>)>::empty());
    while k < n
        invariant
            n == results.len(),
            k <= n,
            rs == results@.map_values(|e: (usize, String)| (e.0, e.1@)),
            texts@.map_values(|s: String| s@) == apply_results_spec(start, rs.take(k as int)),
        decreases n - k,
    {
        assert(rs.take(k + 1).drop_last() =~= rs.take(k as int));
        assert(rs.take(k + 1).last() == rs[k as int]);
        proof {
            lemma_apply_len(start, rs.take(k as int));
        }
        let i = results[k].0;
        if i < texts.len() {
            let t = results[k].1.clone();
            let ghost before = texts@.map_values(|s: String| s@);
            texts.set(i, t);
            assert(texts@.map_values(|s: String| s@) =~= before.update(i as int, rs[k as int].1));
        }
        k += 1;
    }
    assert(rs.take(n as int) =~= rs);
}

/// Each translation that is still empty replaced by its block's raw text.
pub open spec fn filled_spec(texts: Seq<Seq<char>>, blocks: Seq<ArticleBlock>) -> Seq<Seq<char>> {
    Seq::new(
        texts.len(),
        |i: int|
            if texts[i].len() == 0 {
                blocks[i].raw_text@
            } else {
                texts[i]
            },
    )
}

/// The translations with every missing one filled with its block's raw text.
pub fn fill_missing(texts: Vec<String>, blocks: &[ArticleBlock]) -> (r: Vec<String>)
    requires
        texts.len() == blocks.len(),
    ensures
        r@.map_values(|s: String| s@) == filled_spec(texts@.map_values(|s: String| s@), blocks@),
{
    let ghost tv = texts@.map_values(|s: String| s@);
    let mut out: Vec<String> = Vec::new();
    let mut i: usize = 0;
    while i < texts.len()
        invariant
            i <= texts.len() == blocks.len(),
            tv == texts@.map_values(|s: String| s@),
            out@.map_values(|s: String| s@) == filled_spec(tv, blocks@).take(i as int),
        decreases texts.len() - i,
    {
        let t = if to_chars(texts[i].as_str()).len() == 0 {
            blocks[i].raw_text.clone()
        } else {
            texts[i].clone()
        };
        proof {
            assert(texts[i as int]@.len() == 0 <==> tv[i as int].len() == 0);
        }
        let ghost before = out@.map_values(|s: String| s@);
        out.push(t);
        assert(out@.map_values(|s: String| s@) =~= before.push(filled_spec(tv, blocks@)[i as int]));
        assert(filled_spec(tv, blocks@).take(i + 1) =~= filled_spec(tv, blocks@).take(i as int).push(
            filled_spec(tv, blocks@)[i as int],
        ));
        i += 1;
    }
    assert(filled_spec(tv, blocks@).take(texts.len() as int) =~= filled_spec(tv, blocks@));
    out
}

// ---------------------------------------------------------------------------
// Writing translations back
// ---------------------------------------------------------------------------

/// A translation to store: which block and its text.
pub struct BlockUpdate {
    pub article_id: i64,
    pub block_index: i32,
    pub trans_text: String,
}

/// The updates that store translations, one per block in order; there must
/// be exactly one translation per block.
pub fn translation_updates(blocks: &[ArticleBlock], texts: Vec<String>) -> (r: Result<
    Vec<BlockUpdate>,
    AiError,
>)
    ensures
        texts.len() != blocks.len() ==> (r matches Err(AiError::CountMismatch { expected, got })
            && expected == blocks.len() && got == texts.len()),
        texts.len() == blocks.len() ==> (r matches Ok(v) && v.len() == blocks.len() && forall|i: int|
            0 <= i < v.len() ==> {
                &&& (#[trigger] v@[i]).article_id == blocks@[i].article_id
                &&& v@[i].block_index == blocks@[i].block_index
                &&& v@[i].trans_text@ == texts@[i]@
            }),
{
    if texts.len() != blocks.len() {
        return Err(AiError::CountMismatch { expected: blocks.len(), got: texts.len() });
    }
    let mut out: Vec<BlockUpdate> = Vec::new();
    let mut i: usize = 0;
    while i < blocks.len()
        invariant
            i <= blocks.len() == texts.len(),
            out.len() == i,
            forall|j: int|
                0 <= j < i ==> {
                    &&& (#[trigger] out@[j]).article_id == blocks@[j].article_id
                    &&& out@[j].block_index == blocks@[j].block_index
                    &&& out@[j].trans_text@ == texts@[j]@
                },
        decreases blocks.len() - i,
    {
        out.push(
            BlockUpdate {
                article_id: blocks[i].article_id,
                block_index: blocks[i].block_index,
                trans_text: texts[i].clone(),
            },
        );
        i += 1;
    }
    Ok(out)
}

/// Blocks standing for article titles: block index -1, the title as raw text,
/// no translation yet.
pub fn title_blocks(rows: Vec<(i64, String)>) -> (r: Vec<ArticleBlock>)
    ensures
        r.len() == rows.len(),
        forall|i: int|
            0 <= i < r.len() ==> {
                &&& (#[trigger] r@[i]).article_id == rows@[i].0
                &&& r@[i].block_index == -1
                &&& r@[i].raw_text@ == rows@[i].1@
                &&& r@[i].trans_text is None
            },
{
    let mut out: Vec<ArticleBlock> = Vec::new();
    let mut i: usize = 0;
    while i < rows.len()
        invariant
            i <= rows.len(),
            out.len() == i,
            forall|j: int|
                0 <= j < i ==> {
                    &&& (#[trigger] out@[j]).article_id == rows@[j].0
                    &&& out@[j].block_index == -1
                    &&& out@[j].raw_text@ == rows@[j].1@
                    &&& out@[j].trans_text is None
                },
        decreases rows.len() - i,
    {
        out.push(
            ArticleBlock {
                article_id: rows[i].0,
                block_index: -1,
                raw_text: rows[i].1.clone(),
                trans_text: None,
            },
        );
        i += 1;
    }
    out
}

} // verus!
