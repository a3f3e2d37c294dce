//! The address and the credentials of a Scribe session.
use super::ScribeConfig;
use crate::decimal::decimal;
use crate::events::PipelineError;
use tokio_tungstenite::tungstenite::http::HeaderValue;
use vstd::prelude::*;

verus! {

/// The header that carries the API key.
pub const API_KEY_HEADER: &'static str = "xi-api-key";

/// A query parameter: its name and its value.
pub type QueryPair = (Seq<char>, Seq<char>);

/// The parameters of a session, in order. The language is named only where the
/// configuration names one.
pub open spec fn query_pairs(cfg: ScribeConfig) -> Seq<QueryPair> {
    let pairs = seq![
        ("model_id"@, cfg.model@),
        ("audio_format"@, "pcm_16000"@),
        ("commit_strategy"@, "vad"@),
        ("filter_background_audio"@, "true"@),
        ("vad_silence_threshold_secs"@, cfg.vad.silence_threshold_secs.spec_text()),
        ("vad_threshold"@, cfg.vad.threshold.spec_text()),
        (
            "min_speech_duration_ms"@,
            crate::decimal::decimal_text(cfg.vad.min_speech_duration_ms as nat),
        ),
        (
            "min_silence_duration_ms"@,
            crate::decimal::decimal_text(cfg.vad.min_silence_duration_ms as nat),
        ),
    ];
    match cfg.language_code {
        Some(code) => pairs.push(("language_code"@, code@)),
        None => pairs,
    }
}

/// The parameters as `name=value`, joined by `&`.
pub open spec fn query_text(pairs: Seq<QueryPair>) -> Seq<char>
    decreases pairs.len(),
{
    if pairs.len() == 0 {
        Seq::empty()
    } else {
        let last = pairs.last().0 + "="@ + pairs.last().1;
        if pairs.len() == 1 {
            last
        } else {
            query_text(pairs.drop_last()) + "&"@ + last
        }
    }
}

/// A list of parameters as character sequences.
pub open spec fn pairs_view(pairs: Seq<(&'static str, String)>) -> Seq<QueryPair> {
    pairs.map_values(|pair: (&'static str, String)| (pair.0@, pair.1@))
}

/// The parameters as `name=value`, joined by `&`.
pub fn join_query(pairs: &Vec<(&'static str, String)>) -> (query: String)
    ensures
        query@ == query_text(pairs_view(pairs@)),
{
    let mut query = String::new();
    let mut i: usize = 0;
    while i < pairs.len()
        invariant
            i <= pairs@.len(),
            query@ == query_text(pairs_view(pairs@).take(i as int)),
        decreases pairs@.len() - i,
    {
        let ghost seen = pairs_view(pairs@).take(i as int + 1);
        assert(seen.drop_last() =~= pairs_view(pairs@).take(i as int));
        if i > 0 {
            query.append("&");
        }
        let mut parameter = String::from(pairs[i].0);
        parameter.append("=");
        parameter.append(pairs[i].1.as_str());
        query.append(parameter.as_str());
        assert(query@ =~= query_text(seen));
        i = i + 1;
    }
    assert(pairs_view(pairs@).take(pairs@.len() as int) =~= pairs_view(pairs@));
    query
}

/// Whether a byte may stand in a header value: a tab, or anything from space up
/// but the delete character.
pub open spec fn header_byte(b: u8) -> bool {
    b == 9 || (b >= 32 && b != 127)
}

/// Whether the UTF-8 bytes of `text` may stand in a header value.
pub open spec fn header_text(text: Seq<char>) -> bool {
    let bytes = vstd::utf8::encode_utf8(text);
    forall|i: int| 0 <= i < bytes.len() ==> header_byte(#[trigger] bytes[i])
}

#[verifier::external_type_specification]
#[verifier::external_body]
pub struct ExHeaderValue(tokio_tungstenite::tungstenite::http::HeaderValue);

#[verifier::external_type_specification]
#[verifier::external_body]
pub struct ExInvalidHeaderValue(tokio_tungstenite::tungstenite::http::header::InvalidHeaderValue);

/// The bytes that a header value holds.
pub uninterp spec fn header_bytes(value: HeaderValue) -> Seq<u8>;

/// `HeaderValue::from_str` of the `http` crate: it accepts a text whose UTF-8
/// bytes may all stand in a header value, and holds those bytes.
#[verifier::external_body]
pub(crate) fn header_from_text(text: &str) -> (r: Result<
    HeaderValue,
    tokio_tungstenite::tungstenite::http::header::InvalidHeaderValue,
>)
    ensures
        r is Ok <==> header_text(text@),
        r matches Ok(value) ==> header_bytes(value) == vstd::utf8::encode_utf8(text@),
{
    HeaderValue::from_str(text)
}

impl ScribeConfig {
    /// The address of the session: the endpoint and the query parameters.
    pub fn build_url(&self) -> (url: String)
        ensures
            url@ == self.endpoint@ + "?"@ + query_text(query_pairs(*self)),
    {
        let mut pairs: Vec<(&'static str, String)> = Vec::new();
        pairs.push(("model_id", self.model.clone()));
        pairs.push(("audio_format", String::from("pcm_16000")));
        pairs.push(("commit_strategy", String::from("vad")));
        // Suppress music and noise, so that only speech is transcribed.
        pairs.push(("filter_background_audio", String::from("true")));
        pairs.push(("vad_silence_threshold_secs", self.vad.silence_threshold_secs.text()));
        pairs.push(("vad_threshold", self.vad.threshold.text()));
        pairs.push(("min_speech_duration_ms", decimal(self.vad.min_speech_duration_ms as u64)));
        pairs.push(("min_silence_duration_ms", decimal(self.vad.min_silence_duration_ms as u64)));
        if let Some(code) = &self.language_code {
            pairs.push(("language_code", code.clone()));
        }
        assert(pairs_view(pairs@) =~= query_pairs(*self));
        let mut url = self.endpoint.clone();
        url.append("?");
        url.append(join_query(&pairs).as_str());
        url
    }

    /// The value of the header that carries the API key. A key that cannot
    /// stand in a header is an error.
    pub fn api_key_header(&self) -> (r: Result<HeaderValue, PipelineError>)
        ensures
            match r {
                Ok(value) => header_text(self.api_key@) && header_bytes(value)
                    == vstd::utf8::encode_utf8(self.api_key@),
                Err(error) => !header_text(self.api_key@) && (error matches PipelineError::Scribe(
                    message,
                ) && message@ == "invalid API key header"@),
            },
    {
        match header_from_text(self.api_key.as_str()) {
            Ok(value) => Ok(value),
            Err(_) => Err(PipelineError::Scribe(String::from("invalid API key header"))),
        }
    }
}

/// The address does not depend on the API key, which travels in a header only.
pub proof fn law_url_without_key(a: ScribeConfig, b: ScribeConfig)
    requires
        a.model@ == b.model@,
        a.vad == b.vad,
        a.endpoint@ == b.endpoint@,
        match (a.language_code, b.language_code) {
            (Some(x), Some(y)) => x@ == y@,
            (None, None) => true,
            _ => false,
        },
    ensures
        a.endpoint@ + "?"@ + query_text(query_pairs(a)) == b.endpoint@ + "?"@ + query_text(
            query_pairs(b),
        ),
{
    assert(query_pairs(a) =~= query_pairs(b));
}

/// Whether a parameter of that name is among the pairs.
pub open spec fn has_parameter(pairs: Seq<QueryPair>, name: Seq<char>) -> bool {
    exists|i: int| 0 <= i < pairs.len() && (#[trigger] pairs[i]).0 == name
}

/// The language is named in the query exactly where the configuration names
/// one; else the server detects it.
pub proof fn law_language_named_if_set(cfg: ScribeConfig)
    ensures
        has_parameter(query_pairs(cfg), "language_code"@) <==> cfg.language_code is Some,
        cfg.language_code matches Some(code) ==> query_pairs(cfg).last() == (
            "language_code"@,
            code@,
        ),
{
    reveal_strlit("model_id");
    reveal_strlit("audio_format");
    reveal_strlit("commit_strategy");
    reveal_strlit("filter_background_audio");
    reveal_strlit("vad_silence_threshold_secs");
    reveal_strlit("vad_threshold");
    reveal_strlit("min_speech_duration_ms");
    reveal_strlit("min_silence_duration_ms");
    reveal_strlit("language_code");
    let pairs = query_pairs(cfg);
    if cfg.language_code is Some {
        assert(pairs[8].0 == "language_code"@);
    } else {
        assert forall|i: int| 0 <= i < pairs.len() implies (#[trigger] pairs[i]).0
            != "language_code"@ by {
            if i == 1 {
                assert(pairs[i].0.len() == 12);
            } else if i == 5 {
                assert("vad_threshold"@[0] != "language_code"@[0]);
            } else {
                assert(pairs[i].0.len() != 13);
            }
        }
    }
}

/// One parameter of a query.
pub open spec fn parameter(name: Seq<char>, value: Seq<char>) -> Seq<char> {
    name + "="@ + value
}

/// The values in the query of a session that follow from its VAD tuning.
pub struct VadTexts {
    pub silence_secs: Seq<char>,
    pub threshold: Seq<char>,
    pub speech_ms: Seq<char>,
    pub silence_ms: Seq<char>,
}

/// Whether the texts tell the VAD tuning: each threshold in its shortest notation,
/// and each duration as a number of milliseconds.
pub open spec fn tell_vad(texts: VadTexts, vad: super::VadPreset) -> bool {
    &&& crate::decimal::shortest(
        texts.silence_secs,
        vad.silence_threshold_secs.units as nat,
        vad.silence_threshold_secs.scale as nat,
    )
    &&& crate::decimal::shortest(
        texts.threshold,
        vad.threshold.units as nat,
        vad.threshold.scale as nat,
    )
    &&& crate::decimal::writes(texts.speech_ms, vad.min_speech_duration_ms as nat)
    &&& crate::decimal::writes(texts.silence_ms, vad.min_silence_duration_ms as nat)
}

/// The query up to the silence threshold: the model and what is the same for all
/// sessions.
pub open spec fn query_start(model: Seq<char>) -> Seq<char> {
    parameter("model_id"@, model) + "&"@ + parameter("audio_format"@, "pcm_16000"@) + "&"@
        + parameter("commit_strategy"@, "vad"@) + "&"@ + parameter(
        "filter_background_audio"@,
        "true"@,
    )
}

/// The query with the VAD tuning behind its start.
pub open spec fn query_with_vad(start: Seq<char>, vad: VadTexts) -> Seq<char> {
    start + "&"@ + parameter("vad_silence_threshold_secs"@, vad.silence_secs) + "&"@ + parameter(
        "vad_threshold"@,
        vad.threshold,
    ) + "&"@ + parameter("min_speech_duration_ms"@, vad.speech_ms) + "&"@ + parameter(
        "min_silence_duration_ms"@,
        vad.silence_ms,
    )
}

/// Whether `url` is the address of a session with this configuration, the VAD
/// tuning told by `vad`.
pub open spec fn addresses(url: Seq<char>, cfg: ScribeConfig, vad: VadTexts) -> bool {
    let query = query_with_vad(query_start(cfg.model@), vad);
    &&& tell_vad(vad, cfg.vad)
    &&& url == match cfg.language_code {
        Some(code) => cfg.endpoint@ + "?"@ + (query + "&"@ + parameter("language_code"@, code@)),
        None => cfg.endpoint@ + "?"@ + query,
    }
}

/// The texts of a VAD tuning.
pub open spec fn vad_texts(vad: super::VadPreset) -> VadTexts {
    VadTexts {
        silence_secs: vad.silence_threshold_secs.spec_text(),
        threshold: vad.threshold.spec_text(),
        speech_ms: crate::decimal::decimal_text(vad.min_speech_duration_ms as nat),
        silence_ms: crate::decimal::decimal_text(vad.min_silence_duration_ms as nat),
    }
}

proof fn lemma_vad_told(vad: super::VadPreset)
    ensures
        tell_vad(vad_texts(vad), vad),
{
    crate::decimal::lemma_fraction_shortest(
        vad.silence_threshold_secs.units as nat,
        vad.silence_threshold_secs.scale as nat,
    );
    crate::decimal::lemma_fraction_shortest(vad.threshold.units as nat, vad.threshold.scale as nat);
    crate::decimal::law_decimal_writes(vad.min_speech_duration_ms as nat);
    crate::decimal::law_decimal_writes(vad.min_silence_duration_ms as nat);
}

proof fn lemma_query_grows(pairs: Seq<QueryPair>, name: Seq<char>, value: Seq<char>)
    ensures
        pairs.len() == 0 ==> query_text(pairs.push((name, value))) == parameter(name, value),
        pairs.len() > 0 ==> query_text(pairs.push((name, value))) == query_text(pairs) + "&"@
            + parameter(name, value),
{
    let more = pairs.push((name, value));
    assert(more.drop_last() =~= pairs);
}

proof fn lemma_query_laid_out(cfg: ScribeConfig)
    ensures
        query_text(query_pairs(cfg)) == match cfg.language_code {
            Some(code) => query_with_vad(query_start(cfg.model@), vad_texts(cfg.vad)) + "&"@
                + parameter("language_code"@, code@),
            None => query_with_vad(query_start(cfg.model@), vad_texts(cfg.vad)),
        },
{
    let vad = vad_texts(cfg.vad);
    let p0 = Seq::<QueryPair>::empty();
    let p1 = p0.push(("model_id"@, cfg.model@));
    let p2 = p1.push(("audio_format"@, "pcm_16000"@));
    let p3 = p2.push(("commit_strategy"@, "vad"@));
    let p4 = p3.push(("filter_background_audio"@, "true"@));
    let p5 = p4.push(("vad_silence_threshold_secs"@, vad.silence_secs));
    let p6 = p5.push(("vad_threshold"@, vad.threshold));
    let p7 = p6.push(("min_speech_duration_ms"@, vad.speech_ms));
    let p8 = p7.push(("min_silence_duration_ms"@, vad.silence_ms));
    lemma_query_grows(p0, "model_id"@, cfg.model@);
    lemma_query_grows(p1, "audio_format"@, "pcm_16000"@);
    lemma_query_grows(p2, "commit_strategy"@, "vad"@);
    lemma_query_grows(p3, "filter_background_audio"@, "true"@);
    lemma_query_grows(p4, "vad_silence_threshold_secs"@, vad.silence_secs);
    lemma_query_grows(p5, "vad_threshold"@, vad.threshold);
    lemma_query_grows(p6, "min_speech_duration_ms"@, vad.speech_ms);
    lemma_query_grows(p7, "min_silence_duration_ms"@, vad.silence_ms);
    match cfg.language_code {
        Some(code) => {
            lemma_query_grows(p8, "language_code"@, code@);
            assert(query_pairs(cfg) =~= p8.push(("language_code"@, code@)));
        },
        None => {
            assert(query_pairs(cfg) =~= p8);
        },
    }
}

/// The address carries the whole configuration but the key: the endpoint, the
/// model, the VAD tuning, each value as the number it is, and the language where
/// one is named.
pub proof fn law_address_tells_config(cfg: &ScribeConfig, url: String)
    requires
        call_ensures(ScribeConfig::build_url, (cfg,), url),
    ensures
        exists|vad: VadTexts| addresses(url@, *cfg, vad),
{
    lemma_vad_told(cfg.vad);
    lemma_query_laid_out(*cfg);
    assert(addresses(url@, *cfg, vad_texts(cfg.vad)));
}

/// Whether a text holds no ampersand.
pub open spec fn unbroken(text: Seq<char>) -> bool {
    forall|i: int| 0 <= i < text.len() ==> #[trigger] text[i] != '&'
}

proof fn lemma_numbers_unbroken(texts: VadTexts, vad: super::VadPreset)
    requires
        tell_vad(texts, vad),
    ensures
        unbroken(texts.silence_secs),
        unbroken(texts.threshold),
        unbroken(texts.speech_ms),
        unbroken(texts.silence_ms),
{
}

/// Two texts that begin alike up to an ampersand are alike before and behind it.
proof fn lemma_cut(a: Seq<char>, x: Seq<char>, b: Seq<char>, y: Seq<char>)
    requires
        a + "&"@ + x == b + "&"@ + y,
        unbroken(a),
        unbroken(b),
    ensures
        a == b,
        x == y,
{
    reveal_strlit("&");
    let whole = a + "&"@ + x;
    assert(whole[a.len() as int] == '&');
    assert((b + "&"@ + y)[b.len() as int] == '&');
    if a.len() < b.len() {
        assert(b[a.len() as int] == whole[a.len() as int]);
    }
    if b.len() < a.len() {
        assert(a[b.len() as int] == whole[b.len() as int]);
    }
    assert(whole.take(a.len() as int) =~= a);
    assert((b + "&"@ + y).take(b.len() as int) =~= b);
    assert(whole.skip(a.len() as int + 1) =~= x);
    assert((b + "&"@ + y).skip(b.len() as int + 1) =~= y);
}

/// The query behind the silence threshold.
pub open spec fn behind_silence(vad: VadTexts, rest: Seq<char>) -> Seq<char> {
    parameter("vad_threshold"@, vad.threshold) + "&"@ + (parameter(
        "min_speech_duration_ms"@,
        vad.speech_ms,
    ) + "&"@ + (parameter("min_silence_duration_ms"@, vad.silence_ms) + "&"@ + rest))
}

proof fn lemma_query_split(start: Seq<char>, vad: VadTexts, rest: Seq<char>)
    ensures
        query_with_vad(start, vad) + "&"@ + rest == (start + "&"@) + (parameter(
            "vad_silence_threshold_secs"@,
            vad.silence_secs,
        ) + "&"@ + behind_silence(vad, rest)),
{
    assert(query_with_vad(start, vad) + "&"@ + rest =~= (start + "&"@) + (parameter(
        "vad_silence_threshold_secs"@,
        vad.silence_secs,
    ) + "&"@ + behind_silence(vad, rest)));
}

proof fn lemma_names_unbroken()
    ensures
        unbroken("vad_silence_threshold_secs"@ + "="@),
        unbroken("vad_threshold"@ + "="@),
        unbroken("min_speech_duration_ms"@ + "="@),
        unbroken("min_silence_duration_ms"@ + "="@),
{
    reveal_strlit("=");
    reveal_strlit("vad_silence_threshold_secs");
    reveal_strlit("vad_threshold");
    reveal_strlit("min_speech_duration_ms");
    reveal_strlit("min_silence_duration_ms");
}

proof fn lemma_parameter_cut(
    name: Seq<char>,
    a: Seq<char>,
    x: Seq<char>,
    b: Seq<char>,
    y: Seq<char>,
)
    requires
        parameter(name, a) + "&"@ + x == parameter(name, b) + "&"@ + y,
        unbroken(name + "="@),
        unbroken(a),
        unbroken(b),
    ensures
        a == b,
        x == y,
{
    let front = name + "="@;
    assert forall|i: int| 0 <= i < parameter(name, a).len() implies #[trigger] parameter(
        name,
        a,
    )[i] != '&' by {
        if i < front.len() {
            assert(parameter(name, a)[i] == front[i]);
        } else {
            assert(parameter(name, a)[i] == a[i - front.len()]);
        }
    }
    assert forall|i: int| 0 <= i < parameter(name, b).len() implies #[trigger] parameter(
        name,
        b,
    )[i] != '&' by {
        if i < front.len() {
            assert(parameter(name, b)[i] == front[i]);
        } else {
            assert(parameter(name, b)[i] == b[i - front.len()]);
        }
    }
    lemma_cut(parameter(name, a), x, parameter(name, b), y);
    assert(parameter(name, a).skip(front.len() as int) =~= a);
    assert(parameter(name, b).skip(front.len() as int) =~= b);
}

proof fn lemma_query_tells_vad(
    start: Seq<char>,
    a: VadTexts,
    x: Seq<char>,
    b: VadTexts,
    y: Seq<char>,
    vad_a: super::VadPreset,
    vad_b: super::VadPreset,
)
    requires
        tell_vad(a, vad_a),
        tell_vad(b, vad_b),
        query_with_vad(start, a) + "&"@ + x == query_with_vad(start, b) + "&"@ + y,
    ensures
        a == b,
        x == y,
{
    lemma_numbers_unbroken(a, vad_a);
    lemma_numbers_unbroken(b, vad_b);
    lemma_names_unbroken();
    lemma_query_split(start, a, x);
    lemma_query_split(start, b, y);
    let front = start + "&"@;
    let tail_a = parameter("vad_silence_threshold_secs"@, a.silence_secs) + "&"@ + behind_silence(
        a,
        x,
    );
    let tail_b = parameter("vad_silence_threshold_secs"@, b.silence_secs) + "&"@ + behind_silence(
        b,
        y,
    );
    assert((front + tail_a).skip(front.len() as int) =~= tail_a);
    assert((front + tail_b).skip(front.len() as int) =~= tail_b);
    lemma_parameter_cut(
        "vad_silence_threshold_secs"@,
        a.silence_secs,
        behind_silence(a, x),
        b.silence_secs,
        behind_silence(b, y),
    );
    let speech_a = parameter("min_speech_duration_ms"@, a.speech_ms) + "&"@ + (parameter(
        "min_silence_duration_ms"@,
        a.silence_ms,
    ) + "&"@ + x);
    let speech_b = parameter("min_speech_duration_ms"@, b.speech_ms) + "&"@ + (parameter(
        "min_silence_duration_ms"@,
        b.silence_ms,
    ) + "&"@ + y);
    lemma_parameter_cut("vad_threshold"@, a.threshold, speech_a, b.threshold, speech_b);
    lemma_parameter_cut(
        "min_speech_duration_ms"@,
        a.speech_ms,
        parameter("min_silence_duration_ms"@, a.silence_ms) + "&"@ + x,
        b.speech_ms,
        parameter("min_silence_duration_ms"@, b.silence_ms) + "&"@ + y,
    );
    lemma_parameter_cut("min_silence_duration_ms"@, a.silence_ms, x, b.silence_ms, y);
}

/// Configurations with one address, one endpoint and one model have the same VAD
/// durations and the same language.
pub proof fn law_address_tells_durations(
    a: &ScribeConfig,
    b: &ScribeConfig,
    from_a: String,
    from_b: String,
)
    requires
        call_ensures(ScribeConfig::build_url, (a,), from_a),
        call_ensures(ScribeConfig::build_url, (b,), from_b),
        from_a@ == from_b@,
        a.endpoint@ == b.endpoint@,
        a.model@ == b.model@,
    ensures
        a.vad.min_speech_duration_ms == b.vad.min_speech_duration_ms,
        a.vad.min_silence_duration_ms == b.vad.min_silence_duration_ms,
        a.language_code is Some <==> b.language_code is Some,
        a.language_code is Some ==> a.language_code->0@ == b.language_code->0@,
{
    lemma_vad_told(a.vad);
    lemma_vad_told(b.vad);
    lemma_query_laid_out(*a);
    lemma_query_laid_out(*b);
    let start = query_start(a.model@);
    let server = a.endpoint@ + "?"@;
    let query_a = query_text(query_pairs(*a));
    let query_b = query_text(query_pairs(*b));
    assert((server + query_a).skip(server.len() as int) =~= query_a);
    assert((server + query_b).skip(server.len() as int) =~= query_b);
    assert(query_a == query_b);
    // With one ampersand more at the end, both queries have something behind the
    // tuning, whether or not they name a language.
    let x = match a.language_code {
        Some(code) => parameter("language_code"@, code@) + "&"@,
        None => Seq::empty(),
    };
    let y = match b.language_code {
        Some(code) => parameter("language_code"@, code@) + "&"@,
        None => Seq::empty(),
    };
    let told_a = vad_texts(a.vad);
    let told_b = vad_texts(b.vad);
    assert(query_a + "&"@ =~= query_with_vad(start, told_a) + "&"@ + x);
    assert(query_b + "&"@ =~= query_with_vad(start, told_b) + "&"@ + y);
    lemma_query_tells_vad(start, told_a, x, told_b, y, a.vad, b.vad);
    crate::decimal::law_decimal_reads_back(a.vad.min_speech_duration_ms as nat);
    crate::decimal::law_decimal_reads_back(b.vad.min_speech_duration_ms as nat);
    crate::decimal::law_decimal_reads_back(a.vad.min_silence_duration_ms as nat);
    crate::decimal::law_decimal_reads_back(b.vad.min_silence_duration_ms as nat);
    reveal_strlit("&");
    if let (Some(code_a), Some(code_b)) = (a.language_code, b.language_code) {
        let name = "language_code"@ + "="@;
        assert(x.subrange(name.len() as int, x.len() - 1) =~= code_a@);
        assert(y.subrange(name.len() as int, y.len() - 1) =~= code_b@);
    }
}

/// The header carries the API key in full, and a key is refused exactly where one
/// of its bytes cannot stand in a header.
pub proof fn law_header_carries_key(cfg: &ScribeConfig, r: Result<HeaderValue, PipelineError>)
    requires
        call_ensures(ScribeConfig::api_key_header, (cfg,), r),
    ensures
        match r {
            Ok(value) => header_bytes(value) == vstd::utf8::encode_utf8(cfg.api_key@),
            Err(error) => error matches PipelineError::Scribe(message) && message@
                == "invalid API key header"@,
        },
        r is Err <==> exists|i: int|
            0 <= i < vstd::utf8::encode_utf8(cfg.api_key@).len() && {
                let b = #[trigger] vstd::utf8::encode_utf8(cfg.api_key@)[i];
                b == 127 || (b < 32 && b != 9)
            },
{
    let bytes = vstd::utf8::encode_utf8(cfg.api_key@);
    if r is Err {
        let i = choose|i: int| 0 <= i < bytes.len() && !header_byte(#[trigger] bytes[i]);
        assert(0 <= i < bytes.len() && !header_byte(bytes[i]));
    }
}

/// The query of no parameters is empty, and one parameter more stands behind the
/// others, in full and with an ampersand before it unless it is the first.
pub proof fn law_query_grows(
    fewer: &Vec<(&'static str, String)>,
    more: &Vec<(&'static str, String)>,
    name: &'static str,
    value: String,
    short: String,
    long: String,
)
    requires
        call_ensures(join_query, (fewer,), short),
        call_ensures(join_query, (more,), long),
        more@ == fewer@.push((name, value)),
    ensures
        fewer@.len() == 0 ==> short@.len() == 0 && long@ == name@ + "="@ + value@,
        fewer@.len() > 0 ==> long@ == short@ + "&"@ + (name@ + "="@ + value@),
{
    assert(pairs_view(more@) =~= pairs_view(fewer@).push((name@, value@)));
    lemma_query_grows(pairs_view(fewer@), name@, value@);
}

} // verus!
