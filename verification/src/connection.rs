//! Connection checks for the speech and language-model providers: which
//! request each check sends, when no request is needed, what the answer
//! means, base-URL validation and the list of models a server offers.
use vstd::prelude::*;
use crate::text::{push_str, str_eq, string_views};

verus! {

/// The scheme of `input` parsed as an absolute URL by `url::Url::parse`, or
/// the message of the parse error.
pub uninterp spec fn url_scheme_or_error(input: Seq<char>) -> Result<Seq<char>, Seq<char>>;

/// A `Result` of strings as plain values.
pub open spec fn result_view(r: Result<String, String>) -> Result<Seq<char>, Seq<char>> {
    match r {
        Ok(s) => Ok(s@),
        Err(e) => Err(e@),
    }
}

/// Parses `input` with `url::Url::parse` and returns `Url::scheme` of the
/// result, or the parse error's `Display` text. The contract claims only that
/// the answer is a function of `input`, named `url_scheme_or_error`.
#[verifier::external_body]
fn parse_url_scheme(input: &str) -> (r: Result<String, String>)
    ensures
        result_view(r) == url_scheme_or_error(input@),
{
    match url::Url::parse(input) {
        Ok(u) => Ok(u.scheme().to_string()),
        Err(e) => Err(e.to_string()),
    }
}

pub const BAD_SCHEME_MESSAGE: &'static str = "Base URL must use http or https scheme";
pub const INVALID_BASE_URL_PREFIX: &'static str = "Invalid base URL: ";

/// A base URL is accepted when it parses with an `http` or `https` scheme.
pub open spec fn base_url_verdict_spec(parsed: Result<Seq<char>, Seq<char>>) -> Result<
    (),
    Seq<char>,
> {
    match parsed {
        Err(e) => Err(INVALID_BASE_URL_PREFIX@ + e),
        Ok(scheme) => if scheme == "https"@ || scheme == "http"@ {
            Ok(())
        } else {
            Err(BAD_SCHEME_MESSAGE@)
        },
    }
}

/// A unit-or-message `Result` as plain values.
pub open spec fn unit_result_view(r: Result<(), String>) -> Result<(), Seq<char>> {
    match r {
        Ok(()) => Ok(()),
        Err(e) => Err(e@),
    }
}

/// `a` followed by `b`.
pub fn concat(a: &str, b: &str) -> (r: String)
    ensures
        r@ == a@ + b@,
{
    let mut r = a.to_owned();
    push_str(&mut r, b);
    r
}

/// Judges a parsed base URL: the parse error's message, a wrong scheme, or fine.
pub fn base_url_verdict(parsed: Result<String, String>) -> (r: Result<(), String>)
    ensures
        unit_result_view(r) == base_url_verdict_spec(result_view(parsed)),
{
    match parsed {
        Err(e) => Err(concat(INVALID_BASE_URL_PREFIX, e.as_str())),
        Ok(scheme) => {
            if str_eq(scheme.as_str(), "https") || str_eq(scheme.as_str(), "http") {
                Ok(())
            } else {
                Err(BAD_SCHEME_MESSAGE.to_owned())
            }
        },
    }
}

/// Checks that `base_url` is an absolute `http` or `https` URL.
pub fn check_base_url(base_url: &str) -> (r: Result<(), String>)
    ensures
        unit_result_view(r) == base_url_verdict_spec(url_scheme_or_error(base_url@)),
{
    base_url_verdict(parse_url_scheme(base_url))
}

/// `s` without trailing `/` characters (`trim_end_matches('/')`).
pub open spec fn trim_trailing_slashes(s: Seq<char>) -> Seq<char>
    decreases s.len(),
{
    if s.len() > 0 && s.last() == '/' {
        trim_trailing_slashes(s.drop_last())
    } else {
        s
    }
}

/// Removing trailing slashes keeps a prefix.
proof fn lemma_trim_trailing_slashes_at(s: Seq<char>, k: int)
    requires
        0 <= k <= s.len(),
        forall|i: int| k <= i < s.len() ==> #[trigger] s[i] == '/',
        k == 0 || s[k - 1] != '/',
    ensures
        trim_trailing_slashes(s) == s.take(k),
    decreases s.len() - k,
{
    if k == s.len() {
        assert(s.take(k) =~= s);
    } else {
        let t = s.drop_last();
        assert forall|i: int| k <= i < t.len() implies #[trigger] t[i] == '/' by {
            assert(t[i] == s[i]);
        }
        if k > 0 {
            assert(t[k - 1] == s[k - 1]);
        }
        lemma_trim_trailing_slashes_at(t, k);
        assert(t.take(k) =~= s.take(k));
    }
}

/// `base` with trailing slashes removed, followed by `path`.
pub fn join_base(base: &str, path: &str) -> (r: String)
    ensures
        r@ == trim_trailing_slashes(base@) + path@,
{
    let cs = crate::text::chars_of(base);
    let mut k: usize = cs.len();
    while k > 0 && cs[k - 1] == '/'
        invariant
            cs@ == base@,
            k <= cs@.len(),
            forall|i: int| k <= i < cs@.len() ==> #[trigger] cs@[i] == '/',
        decreases k,
    {
        k = k - 1;
    }
    proof {
        lemma_trim_trailing_slashes_at(cs@, k as int);
    }
    let mut prefix: Vec<char> = Vec::new();
    let mut i: usize = 0;
    while i < k
        invariant
            k <= cs@.len(),
            i <= k,
            prefix@ == cs@.take(i as int),
        decreases k - i,
    {
        prefix.push(cs[i]);
        i = i + 1;
        assert(prefix@ =~= cs@.take(i as int));
    }
    let mut r = crate::text::string_from_chars(&prefix);
    push_str(&mut r, path);
    r
}

/// The request a connection check sends.
pub enum Probe {
    /// `GET` the cloud subscription status; the check passes on plan `pro`.
    SubscriptionStatus { url: String, authorization: String },
    /// `GET` with an `Authorization` header.
    Get { url: String, authorization: String },
    /// `POST` a short silent WAV file as multipart form data with field
    /// `model` and the extra fields.
    Upload { url: String, authorization: String, model: String, extra_fields: Vec<(String, String)> },
    /// `POST` a one-token chat completion to `model`.
    ChatCompletion { url: String, authorization: String, model: String },
    /// `POST` a short chat through the cloud proxy.
    CloudChat { url: String, authorization: String },
    /// `GET` the list of models.
    ListModels { url: String, authorization: String },
}

/// `Probe` as plain values.
pub enum ProbeView {
    SubscriptionStatus { url: Seq<char>, authorization: Seq<char> },
    Get { url: Seq<char>, authorization: Seq<char> },
    Upload {
        url: Seq<char>,
        authorization: Seq<char>,
        model: Seq<char>,
        extra_fields: Seq<(Seq<char>, Seq<char>)>,
    },
    ChatCompletion { url: Seq<char>, authorization: Seq<char>, model: Seq<char> },
    CloudChat { url: Seq<char>, authorization: Seq<char> },
    ListModels { url: Seq<char>, authorization: Seq<char> },
}

/// A list of string pairs as plain values.
pub open spec fn pairs_view(v: Seq<(String, String)>) -> Seq<(Seq<char>, Seq<char>)> {
    v.map_values(|p: (String, String)| (p.0@, p.1@))
}

impl View for Probe {
    type V = ProbeView;

    open spec fn view(&self) -> ProbeView {
        match self {
            Probe::SubscriptionStatus { url, authorization } => ProbeView::SubscriptionStatus {
                url: url@,
                authorization: authorization@,
            },
            Probe::Get { url, authorization } => ProbeView::Get {
                url: url@,
                authorization: authorization@,
            },
            Probe::Upload { url, authorization, model, extra_fields } => ProbeView::Upload {
                url: url@,
                authorization: authorization@,
                model: model@,
                extra_fields: pairs_view(extra_fields@),
            },
            Probe::ChatCompletion { url, authorization, model } => ProbeView::ChatCompletion {
                url: url@,
                authorization: authorization@,
                model: model@,
            },
            Probe::CloudChat { url, authorization } => ProbeView::CloudChat {
                url: url@,
                authorization: authorization@,
            },
            Probe::ListModels { url, authorization } => ProbeView::ListModels {
                url: url@,
                authorization: authorization@,
            },
        }
    }
}

/// Why a check answers without sending a request.
pub enum ProbeRefusal {
    NoProvider,
    NotSignedIn,
    NoApiKey,
    NoApiKeyOrBaseUrl,
    NoBaseUrl,
    UnknownProvider,
    /// The base URL is not an `http`/`https` URL; the message says why.
    BadBaseUrl(String),
}

/// `ProbeRefusal` as plain values.
pub enum RefusalView {
    NoProvider,
    NotSignedIn,
    NoApiKey,
    NoApiKeyOrBaseUrl,
    NoBaseUrl,
    UnknownProvider,
    BadBaseUrl(Seq<char>),
}

impl View for ProbeRefusal {
    type V = RefusalView;

    open spec fn view(&self) -> RefusalView {
        match self {
            ProbeRefusal::NoProvider => RefusalView::NoProvider,
            ProbeRefusal::NotSignedIn => RefusalView::NotSignedIn,
            ProbeRefusal::NoApiKey => RefusalView::NoApiKey,
            ProbeRefusal::NoApiKeyOrBaseUrl => RefusalView::NoApiKeyOrBaseUrl,
            ProbeRefusal::NoBaseUrl => RefusalView::NoBaseUrl,
            ProbeRefusal::UnknownProvider => RefusalView::UnknownProvider,
            ProbeRefusal::BadBaseUrl(m) => RefusalView::BadBaseUrl(m@),
        }
    }
}

/// A planned check as plain values.
pub open spec fn plan_view(p: Result<Probe, ProbeRefusal>) -> Result<ProbeView, RefusalView> {
    match p {
        Ok(probe) => Ok(probe@),
        Err(r) => Err(r@),
    }
}

pub const SUBSCRIPTION_STATUS_PATH: &'static str = "/api/subscription/status";
pub const CLOUD_LLM_PATH: &'static str = "/api/proxy/llm";

/// The cloud subscription-status check for a signed-in session.
pub open spec fn subscription_probe(token: Seq<char>, api_base: Seq<char>) -> ProbeView {
    ProbeView::SubscriptionStatus {
        url: api_base + SUBSCRIPTION_STATUS_PATH@,
        authorization: "Bearer "@ + token,
    }
}

/// The upload endpoint, model and extra form fields of the Whisper-compatible
/// speech providers.
pub open spec fn whisper_upload(provider: Seq<char>) -> Option<(Seq<char>, Seq<char>, Seq<(Seq<char>, Seq<char>)>)> {
    if provider == "glm-asr"@ {
        Some(("https://open.bigmodel.cn/api/paas/v4/audio/transcriptions"@, "glm-asr-2512"@, seq![("stream"@, "false"@)]))
    } else if provider == "openai-whisper"@ {
        Some(("https://api.openai.com/v1/audio/transcriptions"@, "whisper-1"@, Seq::empty()))
    } else if provider == "groq-whisper"@ {
        Some(("https://api.groq.com/openai/v1/audio/transcriptions"@, "whisper-large-v3-turbo"@, Seq::empty()))
    } else if provider == "siliconflow"@ {
        Some(("https://api.siliconflow.cn/v1/audio/transcriptions"@, "FunAudioLLM/SenseVoiceSmall"@, Seq::empty()))
    } else {
        None
    }
}

/// The check for a speech provider: none without a provider, session or key;
/// the subscription status for the cloud provider; a projects listing for
/// Deepgram, a transcript listing for AssemblyAI, a silent upload for the
/// Whisper-compatible providers; unknown providers are refused.
pub open spec fn stt_probe_spec(
    provider: Seq<char>,
    api_key: Seq<char>,
    token: Seq<char>,
    api_base: Seq<char>,
) -> Result<ProbeView, RefusalView> {
    if provider.len() == 0 {
        Err(RefusalView::NoProvider)
    } else if provider == "cloud"@ {
        if token.len() == 0 {
            Err(RefusalView::NotSignedIn)
        } else {
            Ok(subscription_probe(token, api_base))
        }
    } else if api_key.len() == 0 {
        Err(RefusalView::NoApiKey)
    } else if provider == "deepgram"@ {
        Ok(ProbeView::Get { url: "https://api.deepgram.com/v1/projects"@, authorization: "Token "@ + api_key })
    } else if provider == "assemblyai"@ {
        Ok(ProbeView::Get { url: "https://api.assemblyai.com/v2/transcript?limit=1"@, authorization: api_key })
    } else {
        match whisper_upload(provider) {
            Some((url, model, extra)) => Ok(ProbeView::Upload {
                url: url,
                authorization: "Bearer "@ + api_key,
                model: model,
                extra_fields: extra,
            }),
            None => Err(RefusalView::UnknownProvider),
        }
    }
}

/// An upload probe to `url` for `model` with `extra` form fields.
fn upload_probe(url: &str, model: &str, api_key: &str, stream_field: bool) -> (p: Probe)
    ensures
        p@ == (ProbeView::Upload {
            url: url@,
            authorization: "Bearer "@ + api_key@,
            model: model@,
            extra_fields: if stream_field {
                seq![("stream"@, "false"@)]
            } else {
                Seq::empty()
            },
        }),
{
    let mut extra: Vec<(String, String)> = Vec::new();
    if stream_field {
        extra.push(("stream".to_owned(), "false".to_owned()));
        assert(pairs_view(extra@) =~= seq![("stream"@, "false"@)]);
    } else {
        assert(pairs_view(extra@) =~= Seq::<(Seq<char>, Seq<char>)>::empty());
    }
    Probe::Upload {
        url: url.to_owned(),
        authorization: concat("Bearer ", api_key),
        model: model.to_owned(),
        extra_fields: extra,
    }
}

/// Plans the check of a speech provider's settings.
pub fn plan_stt_probe(provider: &str, api_key: &str, session_token: &str, api_base: &str) -> (r:
    Result<Probe, ProbeRefusal>)
    ensures
        plan_view(r) == stt_probe_spec(provider@, api_key@, session_token@, api_base@),
{
    if provider.is_empty() {
        return Err(ProbeRefusal::NoProvider);
    }
    if str_eq(provider, "cloud") {
        if session_token.is_empty() {
            return Err(ProbeRefusal::NotSignedIn);
        }
        return Ok(
            Probe::SubscriptionStatus {
                url: concat(api_base, SUBSCRIPTION_STATUS_PATH),
                authorization: concat("Bearer ", session_token),
            },
        );
    }
    if api_key.is_empty() {
        return Err(ProbeRefusal::NoApiKey);
    }
    if str_eq(provider, "deepgram") {
        Ok(
            Probe::Get {
                url: "https://api.deepgram.com/v1/projects".to_owned(),
                authorization: concat("Token ", api_key),
            },
        )
    } else if str_eq(provider, "assemblyai") {
        Ok(
            Probe::Get {
                url: "https://api.assemblyai.com/v2/transcript?limit=1".to_owned(),
                authorization: api_key.to_owned(),
            },
        )
    } else if str_eq(provider, "glm-asr") {
        Ok(
            upload_probe(
                "https://open.bigmodel.cn/api/paas/v4/audio/transcriptions",
                "glm-asr-2512",
                api_key,
                true,
            ),
        )
    } else if str_eq(provider, "openai-whisper") {
        Ok(upload_probe("https://api.openai.com/v1/audio/transcriptions", "whisper-1", api_key, false))
    } else if str_eq(provider, "groq-whisper") {
        Ok(
            upload_probe(
                "https://api.groq.com/openai/v1/audio/transcriptions",
                "whisper-large-v3-turbo",
                api_key,
                false,
            ),
        )
    } else if str_eq(provider, "siliconflow") {
        Ok(
            upload_probe(
                "https://api.siliconflow.cn/v1/audio/transcriptions",
                "FunAudioLLM/SenseVoiceSmall",
                api_key,
                false,
            ),
        )
    } else {
        Err(ProbeRefusal::UnknownProvider)
    }
}

/// The check of a language-model provider's settings: none without a
/// provider or session; the subscription status for the cloud provider;
/// otherwise, with a key and a valid base URL, a one-token chat completion at
/// `<base>/chat/completions`.
pub open spec fn llm_test_probe_spec(
    provider: Seq<char>,
    api_key: Seq<char>,
    base_url: Seq<char>,
    model: Seq<char>,
    token: Seq<char>,
    api_base: Seq<char>,
) -> Result<ProbeView, RefusalView> {
    if provider.len() == 0 {
        Err(RefusalView::NoProvider)
    } else if provider == "cloud"@ {
        if token.len() == 0 {
            Err(RefusalView::NotSignedIn)
        } else {
            Ok(subscription_probe(token, api_base))
        }
    } else if api_key.len() == 0 || base_url.len() == 0 {
        Err(RefusalView::NoApiKeyOrBaseUrl)
    } else {
        match base_url_verdict_spec(url_scheme_or_error(base_url)) {
            Err(m) => Err(RefusalView::BadBaseUrl(m)),
            Ok(()) => Ok(ProbeView::ChatCompletion {
                url: trim_trailing_slashes(base_url) + "/chat/completions"@,
                authorization: "Bearer "@ + api_key,
                model: model,
            }),
        }
    }
}

/// The benchmark of a language-model provider: as the check, except that the
/// cloud provider is timed with a short chat through the cloud proxy.
pub open spec fn llm_bench_probe_spec(
    provider: Seq<char>,
    api_key: Seq<char>,
    base_url: Seq<char>,
    model: Seq<char>,
    token: Seq<char>,
    api_base: Seq<char>,
) -> Result<ProbeView, RefusalView> {
    if provider == "cloud"@ && token.len() > 0 {
        Ok(ProbeView::CloudChat { url: api_base + CLOUD_LLM_PATH@, authorization: "Bearer "@ + token })
    } else {
        llm_test_probe_spec(provider, api_key, base_url, model, token, api_base)
    }
}

/// The chat-completion probe, once the settings are known to be usable.
fn chat_probe(api_key: &str, base_url: &str, model: &str) -> (r: Result<Probe, ProbeRefusal>)
    requires
        api_key@.len() > 0,
        base_url@.len() > 0,
    ensures
        plan_view(r) == match base_url_verdict_spec(url_scheme_or_error(base_url@)) {
            Err(m) => Err(RefusalView::BadBaseUrl(m)),
            Ok(()) => Ok(ProbeView::ChatCompletion {
                url: trim_trailing_slashes(base_url@) + "/chat/completions"@,
                authorization: "Bearer "@ + api_key@,
                model: model@,
            }),
        },
{
    match check_base_url(base_url) {
        Err(m) => Err(ProbeRefusal::BadBaseUrl(m)),
        Ok(()) => Ok(
            Probe::ChatCompletion {
                url: join_base(base_url, "/chat/completions"),
                authorization: concat("Bearer ", api_key),
                model: model.to_owned(),
            },
        ),
    }
}

/// Plans the check of a language-model provider's settings.
pub fn plan_llm_test_probe(
    provider: &str,
    api_key: &str,
    base_url: &str,
    model: &str,
    session_token: &str,
    api_base: &str,
) -> (r: Result<Probe, ProbeRefusal>)
    ensures
        plan_view(r) == llm_test_probe_spec(
            provider@,
            api_key@,
            base_url@,
            model@,
            session_token@,
            api_base@,
        ),
{
    if provider.is_empty() {
        return Err(ProbeRefusal::NoProvider);
    }
    if str_eq(provider, "cloud") {
        if session_token.is_empty() {
            return Err(ProbeRefusal::NotSignedIn);
        }
        return Ok(
            Probe::SubscriptionStatus {
                url: concat(api_base, SUBSCRIPTION_STATUS_PATH),
                authorization: concat("Bearer ", session_token),
            },
        );
    }
    if api_key.is_empty() || base_url.is_empty() {
        return Err(ProbeRefusal::NoApiKeyOrBaseUrl);
    }
    chat_probe(api_key, base_url, model)
}

/// Plans the benchmark of a language-model provider.
pub fn plan_llm_bench_probe(
    provider: &str,
    api_key: &str,
    base_url: &str,
    model: &str,
    session_token: &str,
    api_base: &str,
) -> (r: Result<Probe, ProbeRefusal>)
    ensures
        plan_view(r) == llm_bench_probe_spec(
            provider@,
            api_key@,
            base_url@,
            model@,
            session_token@,
            api_base@,
        ),
{
    if str_eq(provider, "cloud") && !session_token.is_empty() {
        return Ok(
            Probe::CloudChat {
                url: concat(api_base, CLOUD_LLM_PATH),
                authorization: concat("Bearer ", session_token),
            },
        );
    }
    plan_llm_test_probe(provider, api_key, base_url, model, session_token, api_base)
}

/// Where the list of models comes from: nothing without a base URL; the
/// `<base>/models` listing for a valid one.
pub open spec fn models_probe_spec(api_key: Seq<char>, base_url: Seq<char>) -> Result<
    ProbeView,
    RefusalView,
> {
    if base_url.len() == 0 {
        Err(RefusalView::NoBaseUrl)
    } else {
        match base_url_verdict_spec(url_scheme_or_error(base_url)) {
            Err(m) => Err(RefusalView::BadBaseUrl(m)),
            Ok(()) => Ok(ProbeView::ListModels {
                url: trim_trailing_slashes(base_url) + "/models"@,
                authorization: "Bearer "@ + api_key,
            }),
        }
    }
}

/// Plans the request for the list of models.
pub fn plan_models_probe(api_key: &str, base_url: &str) -> (r: Result<Probe, ProbeRefusal>)
    ensures
        plan_view(r) == models_probe_spec(api_key@, base_url@),
{
    if base_url.is_empty() {
        return Err(ProbeRefusal::NoBaseUrl);
    }
    match check_base_url(base_url) {
        Err(m) => Err(ProbeRefusal::BadBaseUrl(m)),
        Ok(()) => Ok(
            Probe::ListModels {
                url: join_base(base_url, "/models"),
                authorization: concat("Bearer ", api_key),
            },
        ),
    }
}

pub const UNKNOWN_STT_PROVIDER_PREFIX: &'static str = "Unknown STT provider: ";

/// What a connection check answers when it sends nothing: unknown providers
/// and bad base URLs are errors, every other refusal means "not working".
pub open spec fn check_refusal_answer_spec(refusal: RefusalView, provider: Seq<char>) -> Result<
    bool,
    Seq<char>,
> {
    match refusal {
        RefusalView::UnknownProvider => Err(UNKNOWN_STT_PROVIDER_PREFIX@ + provider),
        RefusalView::BadBaseUrl(m) => Err(m),
        _ => Ok(false),
    }
}

/// A boolean-or-message `Result` as plain values.
pub open spec fn bool_result_view(r: Result<bool, String>) -> Result<bool, Seq<char>> {
    match r {
        Ok(b) => Ok(b),
        Err(e) => Err(e@),
    }
}

/// The answer of a connection check that sends nothing.
pub fn check_refusal_answer(refusal: ProbeRefusal, provider: &str) -> (r: Result<bool, String>)
    ensures
        bool_result_view(r) == check_refusal_answer_spec(refusal@, provider@),
{
    match refusal {
        ProbeRefusal::UnknownProvider => Err(concat(UNKNOWN_STT_PROVIDER_PREFIX, provider)),
        ProbeRefusal::BadBaseUrl(m) => Err(m),
        _ => Ok(false),
    }
}

/// What a benchmark reports when it sends nothing.
pub open spec fn bench_refusal_message_spec(refusal: RefusalView, provider: Seq<char>) -> Seq<char> {
    match refusal {
        RefusalView::NoProvider => "No provider specified"@,
        RefusalView::NotSignedIn => "Not signed in"@,
        RefusalView::NoApiKey => "API key is empty"@,
        RefusalView::NoApiKeyOrBaseUrl => "API key or base URL is empty"@,
        RefusalView::NoBaseUrl => "API key or base URL is empty"@,
        RefusalView::UnknownProvider => UNKNOWN_STT_PROVIDER_PREFIX@ + provider,
        RefusalView::BadBaseUrl(m) => m,
    }
}

/// The error a benchmark reports when it sends nothing.
pub fn bench_refusal_message(refusal: ProbeRefusal, provider: &str) -> (m: String)
    ensures
        m@ == bench_refusal_message_spec(refusal@, provider@),
{
    match refusal {
        ProbeRefusal::NoProvider => "No provider specified".to_owned(),
        ProbeRefusal::NotSignedIn => "Not signed in".to_owned(),
        ProbeRefusal::NoApiKey => "API key is empty".to_owned(),
        ProbeRefusal::NoApiKeyOrBaseUrl => "API key or base URL is empty".to_owned(),
        ProbeRefusal::NoBaseUrl => "API key or base URL is empty".to_owned(),
        ProbeRefusal::UnknownProvider => concat(UNKNOWN_STT_PROVIDER_PREFIX, provider),
        ProbeRefusal::BadBaseUrl(m) => m,
    }
}

/// Whether the cloud subscription answer shows a Pro plan: a successful
/// response whose `plan` is `pro`.
pub fn subscription_is_pro(success: bool, plan: Option<&str>) -> (r: bool)
    ensures
        r == (success && (plan matches Some(p) && p@ == "pro"@)),
{
    if !success {
        return false;
    }
    match plan {
        Some(p) => str_eq(p, "pro"),
        None => false,
    }
}

/// A timing-or-message `Result` as plain values.
pub open spec fn timing_view(r: Result<u32, String>) -> Result<u32, Seq<char>> {
    match r {
        Ok(t) => Ok(t),
        Err(e) => Err(e@),
    }
}

/// The benchmark result of the cloud subscription check: the elapsed time
/// for a Pro plan, otherwise why not.
pub fn bench_subscription_result(success: bool, plan: Option<&str>, elapsed_ms: u32) -> (r: Result<
    u32,
    String,
>)
    ensures
        timing_view(r) == if !success {
            Err("Request failed"@)
        } else if !(plan matches Some(p) && p@ == "pro"@) {
            Err("Pro plan required"@)
        } else {
            Ok(elapsed_ms)
        },
{
    if !success {
        return Err("Request failed".to_owned());
    }
    if !subscription_is_pro(success, plan) {
        return Err("Pro plan required".to_owned());
    }
    Ok(elapsed_ms)
}

/// The benchmark result of a plain request: the elapsed time on success,
/// otherwise `HTTP <status>`.
pub fn bench_status_result(success: bool, status_text: &str, elapsed_ms: u32) -> (r: Result<
    u32,
    String,
>)
    ensures
        timing_view(r) == if success {
            Ok(elapsed_ms)
        } else {
            Err("HTTP "@ + status_text@)
        },
{
    if success {
        Ok(elapsed_ms)
    } else {
        Err(concat("HTTP ", status_text))
    }
}

} // verus!

verus! {

/// The model entries of a `/models` answer, as far as they matter: the
/// `data` array (OpenAI style, the `id` of each entry) or the `models` array
/// (Ollama style, the `name` of each entry); an entry without a string field
/// is `None`.
pub struct ModelListing {
    pub data: Option<Vec<Option<String>>>,
    pub models: Option<Vec<Option<String>>>,
}

/// The names present among `items`, in order.
pub open spec fn present_names(items: Seq<Option<String>>) -> Seq<Seq<char>>
    decreases items.len(),
{
    if items.len() == 0 {
        Seq::empty()
    } else {
        let rest = present_names(items.drop_last());
        match items.last() {
            Some(n) => rest.push(n@),
            None => rest,
        }
    }
}

/// The model names a listing offers: from `data` if present, else from `models`.
pub open spec fn listed_names(listing: ModelListing) -> Seq<Seq<char>> {
    match listing.data {
        Some(d) => present_names(d@),
        None => match listing.models {
            Some(m) => present_names(m@),
            None => Seq::empty(),
        },
    }
}

/// The names present among `items`.
fn collect_present(items: &Vec<Option<String>>) -> (r: Vec<String>)
    ensures
        string_views(r@) == present_names(items@),
{
    let mut r: Vec<String> = Vec::new();
    let mut i: usize = 0;
    assert(items@.take(0) =~= Seq::<Option<String>>::empty());
    assert(string_views(r@) =~= Seq::<Seq<char>>::empty());
    while i < items.len()
        invariant
            i <= items@.len(),
            string_views(r@) == present_names(items@.take(i as int)),
        decreases items.len() - i,
    {
        proof {
            assert(items@.take(i + 1).drop_last() =~= items@.take(i as int));
            assert(items@.take(i + 1).last() == items@[i as int]);
        }
        match &items[i] {
            Some(n) => {
                let ghost before = string_views(r@);
                r.push(n.clone());
                assert(string_views(r@) =~= before.push(n@));
            },
            None => {},
        }
        i = i + 1;
    }
    assert(items@.take(items@.len() as int) =~= items@);
    r
}

/// Inserting `x` at `j` adds one `x` to the multiset.
proof fn lemma_insert_to_multiset(s: Seq<Seq<char>>, j: int, x: Seq<char>)
    requires
        0 <= j <= s.len(),
    ensures
        s.insert(j, x).to_multiset() == s.to_multiset().insert(x),
{
    broadcast use vstd::seq_lib::group_to_multiset_ensures;
    broadcast use vstd::multiset::group_multiset_axioms;

    let a = s.take(j);
    let b = s.skip(j);
    assert(s =~= a + b);
    assert(s.insert(j, x) =~= a.push(x) + b);
    vstd::seq_lib::lemma_multiset_commutative(a, b);
    vstd::seq_lib::lemma_multiset_commutative(a.push(x), b);
    assert(a.push(x).to_multiset() =~= a.to_multiset().insert(x));
    assert(s.insert(j, x).to_multiset() =~= s.to_multiset().insert(x));
}

/// `names` in code-point order.
pub fn sort_names(names: Vec<String>) -> (r: Vec<String>)
    ensures
        string_views(r@) == string_views(names@).sort_by(crate::text::text_order()),
{
    let ghost le = crate::text::text_order();
    proof {
        crate::text::lemma_text_order_is_total();
    }
    let mut r: Vec<String> = Vec::new();
    let mut i: usize = 0;
    assert(string_views(names@).take(0) =~= Seq::<Seq<char>>::empty());
    assert(string_views(r@) =~= Seq::<Seq<char>>::empty());
    while i < names.len()
        invariant
            le == crate::text::text_order(),
            vstd::relations::total_ordering(le),
            i <= names@.len(),
            vstd::relations::sorted_by(string_views(r@), le),
            string_views(r@).to_multiset() == string_views(names@).take(i as int).to_multiset(),
        decreases names.len() - i,
    {
        let x = names[i].clone();
        let xc = crate::text::chars_of(x.as_str());
        let ghost rv = string_views(r@);
        let mut j: usize = 0;
        let mut found = false;
        while !found && j < r.len()
            invariant
                le == crate::text::text_order(),
                rv == string_views(r@),
                xc@ == x@,
                j <= r@.len(),
                forall|k: int| 0 <= k < j ==> le(#[trigger] rv[k], x@),
                found ==> j < rv.len() && !le(rv[j as int], x@),
            decreases r.len() - j, if found { 0int } else { 1int },
        {
            let yc = crate::text::chars_of(r[j].as_str());
            if !crate::text::text_le_exec(&yc, &xc) {
                found = true;
            } else {
                j = j + 1;
            }
        }
        proof {
            if j < rv.len() {
                assert(!le(rv[j as int], x@));
                assert(le(x@, rv[j as int]));
            }
        }
        r.insert(j, x);
        proof {
            let nv = string_views(r@);
            assert(nv =~= rv.insert(j as int, x@));
            assert forall|a: int, b: int| 0 <= a < b < nv.len() implies #[trigger] le(nv[a], nv[b]) by {
                if b < j {
                } else if a < j && b == j {
                } else if a < j && b > j {
                    assert(nv[b] == rv[b - 1]);
                    assert(le(rv[a], rv[j as int]));
                    assert(le(rv[a], rv[b - 1]));
                } else if a == j {
                    assert(nv[b] == rv[b - 1]);
                    if b - 1 > j {
                        assert(le(rv[j as int], rv[b - 1]));
                    }
                    assert(le(x@, rv[j as int]));
                } else {
                    assert(nv[a] == rv[a - 1]);
                    assert(nv[b] == rv[b - 1]);
                }
            }
            lemma_insert_to_multiset(rv, j as int, x@);
            let tv = string_views(names@);
            assert(tv.take(i + 1) =~= tv.take(i as int).push(x@));
            vstd::seq_lib::to_multiset_build(tv.take(i as int), x@);
        }
        i = i + 1;
    }
    proof {
        let tv = string_views(names@);
        assert(tv.take(names@.len() as int) =~= tv);
        tv.lemma_sort_by_ensures(le);
        vstd::seq_lib::lemma_sorted_unique(string_views(r@), tv.sort_by(le), le);
    }
    r
}

/// The model names a server offers, in code-point order (the byte order of
/// their UTF-8 encodings).
pub fn model_names(listing: &ModelListing) -> (r: Vec<String>)
    ensures
        string_views(r@) == listed_names(*listing).sort_by(crate::text::text_order()),
{
    let names = match &listing.data {
        Some(d) => collect_present(d),
        None => match &listing.models {
            Some(m) => collect_present(m),
            None => Vec::new(),
        },
    };
    proof {
        if listing.data is None && listing.models is None {
            assert(string_views(names@) =~= Seq::<Seq<char>>::empty());
        }
    }
    sort_names(names)
}

} // verus!
