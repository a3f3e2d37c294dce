//! 16-bit little-endian PCM: its byte form, and its base64 form on the wire.
use vstd::prelude::*;

verus! {

/// The 16-bit word of a sample in two's complement.
pub open spec fn sample_word(sample: i16) -> int {
    if sample < 0 {
        sample + 65536
    } else {
        sample as int
    }
}

/// The sample whose little-endian bytes are `low` and `high`.
pub open spec fn le_sample(low: u8, high: u8) -> i16 {
    let word = low + 256 * high;
    if word < 32768 {
        word as i16
    } else {
        (word - 65536) as i16
    }
}

/// The bytes of the samples: two for each, the low byte first.
pub open spec fn pcm_bytes(samples: Seq<i16>) -> Seq<u8> {
    Seq::new(
        samples.len() * 2,
        |i: int|
            if i % 2 == 0 {
                (sample_word(samples[i / 2]) % 256) as u8
            } else {
                (sample_word(samples[i / 2]) / 256) as u8
            },
    )
}

/// The samples of the bytes. An odd byte at the end belongs to none.
pub open spec fn pcm_samples(bytes: Seq<u8>) -> Seq<i16> {
    Seq::new(bytes.len() / 2, |i: int| le_sample(bytes[2 * i], bytes[2 * i + 1]))
}

/// The character of a six-bit value in the standard base64 alphabet.
pub open spec fn base64_symbol(value: int) -> char {
    if value < 26 {
        (value + 65) as char
    } else if value < 52 {
        (value - 26 + 97) as char
    } else if value < 62 {
        (value - 52 + 48) as char
    } else if value == 62 {
        '+'
    } else {
        '/'
    }
}

/// The byte at `i`, or zero behind the last byte.
pub open spec fn byte_or_zero(bytes: Seq<u8>, i: int) -> int {
    if i < bytes.len() {
        bytes[i] as int
    } else {
        0
    }
}

/// The standard base64 text of `bytes`, with padding: every three bytes are one
/// 24-bit number, written as four six-bit values, the highest first. A value
/// that holds no bit of a byte is written as `=`.
pub open spec fn base64_text(bytes: Seq<u8>) -> Seq<char> {
    Seq::new(
        (bytes.len() + 2) / 3 * 4,
        |i: int|
            {
                let first = i / 4 * 3;
                let group = byte_or_zero(bytes, first) * 65536 + byte_or_zero(bytes, first + 1)
                    * 256 + byte_or_zero(bytes, first + 2);
                if i % 4 == 0 {
                    base64_symbol(group / 262144)
                } else if i % 4 == 1 {
                    base64_symbol(group / 4096 % 64)
                } else if i % 4 == 2 && first + 1 < bytes.len() {
                    base64_symbol(group / 64 % 64)
                } else if i % 4 == 3 && first + 2 < bytes.len() {
                    base64_symbol(group % 64)
                } else {
                    '='
                }
            },
    )
}

/// The bytes whose standard base64 text is `text`, or `None` where `text` is the
/// base64 text of no bytes.
pub open spec fn base64_bytes(text: Seq<char>) -> Option<Seq<u8>> {
    if exists|bytes: Seq<u8>| #[trigger] base64_text(bytes) == text {
        Some(choose|bytes: Seq<u8>| #[trigger] base64_text(bytes) == text)
    } else {
        None
    }
}

/// Whether the base64 form of `len` bytes fits in one allocation.
pub open spec fn base64_fits(len: nat) -> bool {
    (len + 2) / 3 * 4 <= isize::MAX
}

/// Whether the base64 form of `len` samples fits in one allocation.
pub open spec fn pcm_fits(len: nat) -> bool {
    base64_fits(len * 2)
}

/// `STANDARD.encode` of the `base64` engine. It panics where the encoded length
/// does not fit in an allocation. It writes the standard alphabet with padding.
#[verifier::external_body]
pub(crate) fn base64_encode(bytes: &[u8]) -> (text: String)
    requires
        base64_fits(bytes@.len()),
    ensures
        text@ == base64_text(bytes@),
{
    base64::Engine::encode(&base64::engine::general_purpose::STANDARD, bytes)
}

/// `STANDARD.decode` of the `base64` engine, its error dropped. It asks for the
/// canonical padding and refuses bits behind the last byte, so it decodes just
/// the texts that `STANDARD.encode` writes, each to the bytes it was written for.
#[verifier::external_body]
pub(crate) fn base64_decode(text: &str) -> (bytes: Option<Vec<u8>>)
    ensures
        match bytes {
            Some(b) => text@ == base64_text(b@),
            None => forall|b: Seq<u8>| #[trigger] base64_text(b) != text@,
        },
{
    base64::Engine::decode(&base64::engine::general_purpose::STANDARD, text).ok()
}

/// Whether the base64 form of `len` samples fits in one allocation.
pub fn pcm_len_fits(len: usize) -> (fits: bool)
    ensures
        fits == pcm_fits(len as nat),
{
    let groups: u128 = (len as u128 * 2 + 2) / 3;
    groups * 4 <= isize::MAX as u128
}

/// The bytes of the samples: two for each, the low byte first.
pub fn samples_to_bytes(samples: &[i16]) -> (bytes: Vec<u8>)
    ensures
        bytes@ == pcm_bytes(samples@),
{
    let mut bytes: Vec<u8> = Vec::new();
    let mut i: usize = 0;
    while i < samples.len()
        invariant
            i <= samples@.len(),
            bytes@ == pcm_bytes(samples@.take(i as int)),
        decreases samples@.len() - i,
    {
        let sample: i16 = samples[i];
        let word: i32 = if sample < 0 {
            sample as i32 + 65536
        } else {
            sample as i32
        };
        bytes.push((word % 256) as u8);
        bytes.push((word / 256) as u8);
        i = i + 1;
        assert(bytes@ =~= pcm_bytes(samples@.take(i as int)));
    }
    assert(samples@.take(samples@.len() as int) == samples@);
    bytes
}

/// The samples of the bytes. An odd byte at the end belongs to none.
pub fn bytes_to_samples(bytes: &[u8]) -> (samples: Vec<i16>)
    ensures
        samples@ == pcm_samples(bytes@),
{
    let mut samples: Vec<i16> = Vec::new();
    let len: usize = bytes.len();
    let count: usize = len / 2;
    let mut i: usize = 0;
    while i < count
        invariant
            len == bytes@.len(),
            count == len / 2,
            i <= count,
            samples@ == pcm_samples(bytes@).take(i as int),
        decreases count - i,
    {
        let word: i32 = bytes[2 * i] as i32 + 256 * (bytes[2 * i + 1] as i32);
        let sample: i16 = if word < 32768 {
            word as i16
        } else {
            (word - 65536) as i16
        };
        samples.push(sample);
        i = i + 1;
        assert(samples@ =~= pcm_samples(bytes@).take(i as int));
    }
    samples
}

/// The samples in decoded audio data: none in fewer than two bytes.
pub open spec fn audio_samples(bytes: Option<Seq<u8>>) -> Option<Seq<i16>> {
    match bytes {
        Some(b) => if b.len() < 2 {
            None
        } else {
            Some(pcm_samples(b))
        },
        None => None,
    }
}

/// The samples that a base64 text carries: none in an empty text, in one that
/// does not decode, and in fewer than two bytes.
pub open spec fn decoded_pcm(text: Seq<char>) -> Option<Seq<i16>> {
    if text.len() == 0 {
        None
    } else {
        audio_samples(base64_bytes(text))
    }
}

/// The samples in decoded audio data: none in fewer than two bytes.
pub fn samples_in(bytes: &[u8]) -> (samples: Option<Vec<i16>>)
    ensures
        match samples {
            Some(s) => audio_samples(Some(bytes@)) == Some(s@),
            None => audio_samples(Some(bytes@)) is None,
        },
{
    if bytes.len() < 2 {
        None
    } else {
        Some(bytes_to_samples(bytes))
    }
}

/// The samples that a base64 text carries: none in an empty text, in one that
/// does not decode, and in fewer than two bytes. Sample `s` stands for the
/// amplitude `s / 32768`.
pub fn decode_pcm(b64: &str) -> (samples: Option<Vec<i16>>)
    ensures
        match samples {
            Some(s) => decoded_pcm(b64@) == Some(s@),
            None => decoded_pcm(b64@) is None,
        },
{
    if b64.is_empty() {
        return None;
    }
    match base64_decode(b64) {
        Some(bytes) => {
            proof {
                law_base64_reads_back(bytes@);
            }
            samples_in(bytes.as_slice())
        },
        None => None,
    }
}

/// The base64 text that carries the samples.
pub fn encode_pcm(samples: &[i16]) -> (b64: String)
    requires
        pcm_fits(samples@.len()),
    ensures
        b64@ == base64_text(pcm_bytes(samples@)),
        base64_bytes(b64@) == Some(pcm_bytes(samples@)),
        decoded_pcm(b64@) == if samples@.len() == 0 {
            None::<Seq<i16>>
        } else {
            Some(samples@)
        },
{
    proof {
        law_pcm_reads_back(samples@);
        law_base64_reads_back(pcm_bytes(samples@));
    }
    let bytes = samples_to_bytes(samples);
    base64_encode(bytes.as_slice())
}

/// The bytes of samples read back as those samples.
pub proof fn law_pcm_reads_back(samples: Seq<i16>)
    ensures
        pcm_samples(pcm_bytes(samples)) == samples,
{
    let bytes = pcm_bytes(samples);
    assert forall|i: int| 0 <= i < samples.len() implies pcm_samples(bytes)[i] == samples[i] by {
        assert((2 * i) / 2 == i && (2 * i) % 2 == 0);
        assert((2 * i + 1) / 2 == i && (2 * i + 1) % 2 == 1);
    }
    assert(pcm_samples(bytes) =~= samples);
}

/// Bytes of even length come back from the samples that they hold.
pub proof fn law_pcm_writes_back(bytes: Seq<u8>)
    requires
        bytes.len() % 2 == 0,
    ensures
        pcm_bytes(pcm_samples(bytes)) == bytes,
{
    let samples = pcm_samples(bytes);
    assert forall|i: int| 0 <= i < bytes.len() implies pcm_bytes(samples)[i] == bytes[i] by {
        let s = le_sample(bytes[2 * (i / 2)], bytes[2 * (i / 2) + 1]);
        assert(samples[i / 2] == s);
        assert(sample_word(s) == bytes[2 * (i / 2)] + 256 * bytes[2 * (i / 2) + 1]);
    }
    assert(pcm_bytes(samples) =~= bytes);
}

/// The text of bytes decodes to those bytes; so no two byte sequences have one
/// text.
pub proof fn law_base64_reads_back(bytes: Seq<u8>)
    ensures
        base64_bytes(base64_text(bytes)) == Some(bytes),
{
    let text = base64_text(bytes);
    let read = choose|b: Seq<u8>| #[trigger] base64_text(b) == text;
    lemma_base64_injective(read, bytes);
}

/// A text carries samples exactly where it is the base64 text of two bytes or
/// more.
pub proof fn law_texts_that_decode(text: Seq<char>)
    ensures
        decoded_pcm(text) is Some <==> exists|bytes: Seq<u8>|
            bytes.len() >= 2 && #[trigger] base64_text(bytes) == text,
        forall|bytes: Seq<u8>|
            bytes.len() >= 2 && #[trigger] base64_text(bytes) == text ==> decoded_pcm(text) == Some(
                pcm_samples(bytes),
            ),
{
    assert forall|bytes: Seq<u8>|
        bytes.len() >= 2 && #[trigger] base64_text(bytes) == text implies decoded_pcm(text) == Some(
        pcm_samples(bytes),
    ) by {
        law_base64_reads_back(bytes);
    }
}

/// Different six-bit values have different characters.
proof fn lemma_symbols_differ(a: int, b: int)
    requires
        0 <= a < 64,
        0 <= b < 64,
        base64_symbol(a) == base64_symbol(b),
    ensures
        a == b,
{
}

proof fn lemma_symbol_is_no_padding(value: int)
    requires
        0 <= value < 64,
    ensures
        base64_symbol(value) != '=',
{
}

/// The 24-bit number of the three bytes from `first` on.
spec fn group_at(bytes: Seq<u8>, first: int) -> int {
    byte_or_zero(bytes, first) * 65536 + byte_or_zero(bytes, first + 1) * 256 + byte_or_zero(
        bytes,
        first + 2,
    )
}

/// The four characters of the group of three bytes from `first` on.
proof fn lemma_group_text(bytes: Seq<u8>, first: int)
    requires
        first % 3 == 0,
        0 <= first < bytes.len(),
    ensures
        first / 3 * 4 + 3 < base64_text(bytes).len(),
        base64_text(bytes)[first / 3 * 4] == base64_symbol(group_at(bytes, first) / 262144),
        base64_text(bytes)[first / 3 * 4 + 1] == base64_symbol(group_at(bytes, first) / 4096 % 64),
        base64_text(bytes)[first / 3 * 4 + 2] == if first + 1 < bytes.len() {
            base64_symbol(group_at(bytes, first) / 64 % 64)
        } else {
            '='
        },
        base64_text(bytes)[first / 3 * 4 + 3] == if first + 2 < bytes.len() {
            base64_symbol(group_at(bytes, first) % 64)
        } else {
            '='
        },
{
    let at = first / 3 * 4;
    assert(at % 4 == 0 && at / 4 * 3 == first);
    assert((at + 1) % 4 == 1 && (at + 1) / 4 * 3 == first);
    assert((at + 2) % 4 == 2 && (at + 2) / 4 * 3 == first);
    assert((at + 3) % 4 == 3 && (at + 3) / 4 * 3 == first);
}

proof fn lemma_base64_same_len(a: Seq<u8>, b: Seq<u8>)
    requires
        base64_text(a) == base64_text(b),
    ensures
        a.len() == b.len(),
{
    assert((a.len() + 2) / 3 * 4 == base64_text(a).len());
    assert((b.len() + 2) / 3 * 4 == base64_text(b).len());
    if a.len() > 0 && b.len() > 0 {
        let first = (a.len() + 2) / 3 * 3 - 3;
        lemma_group_text(a, first);
        lemma_group_text(b, first);
        let x = group_at(a, first);
        let y = group_at(b, first);
        lemma_symbol_is_no_padding(x / 64 % 64);
        lemma_symbol_is_no_padding(x % 64);
        lemma_symbol_is_no_padding(y / 64 % 64);
        lemma_symbol_is_no_padding(y % 64);
    }
}

/// A 24-bit number is given by its four six-bit values.
proof fn lemma_six_bit_values(x: int, y: int)
    requires
        x / 262144 == y / 262144,
        x / 4096 % 64 == y / 4096 % 64,
        x / 64 % 64 == y / 64 % 64,
        x % 64 == y % 64,
    ensures
        x == y,
{
    assert(x / 64 / 64 == x / 4096 && y / 64 / 64 == y / 4096);
    assert(x / 4096 / 64 == x / 262144 && y / 4096 / 64 == y / 262144);
}

/// The three bytes of a group are given by its number.
proof fn lemma_group_bytes(bytes: Seq<u8>, first: int)
    ensures
        0 <= group_at(bytes, first) < 16777216,
        group_at(bytes, first) / 65536 == byte_or_zero(bytes, first),
        group_at(bytes, first) / 256 % 256 == byte_or_zero(bytes, first + 1),
        group_at(bytes, first) % 256 == byte_or_zero(bytes, first + 2),
        byte_or_zero(bytes, first + 2) == 0 ==> group_at(bytes, first) % 64 == 0,
        byte_or_zero(bytes, first + 1) == 0 && byte_or_zero(bytes, first + 2) == 0 ==> group_at(
            bytes,
            first,
        ) / 64 % 64 == 0,
{
}

/// Groups with one text are the same.
proof fn lemma_same_group(a: Seq<u8>, b: Seq<u8>, first: int)
    requires
        base64_text(a) == base64_text(b),
        a.len() == b.len(),
        first % 3 == 0,
        0 <= first < a.len(),
    ensures
        group_at(a, first) == group_at(b, first),
{
    lemma_group_text(a, first);
    lemma_group_text(b, first);
    lemma_group_bytes(a, first);
    lemma_group_bytes(b, first);
    let x = group_at(a, first);
    let y = group_at(b, first);
    lemma_symbols_differ(x / 262144, y / 262144);
    lemma_symbols_differ(x / 4096 % 64, y / 4096 % 64);
    if first + 1 < a.len() {
        lemma_symbols_differ(x / 64 % 64, y / 64 % 64);
    }
    if first + 2 < a.len() {
        lemma_symbols_differ(x % 64, y % 64);
    }
    lemma_six_bit_values(x, y);
}

/// Bytes with one text are the same.
proof fn lemma_base64_injective(a: Seq<u8>, b: Seq<u8>)
    requires
        base64_text(a) == base64_text(b),
    ensures
        a == b,
{
    lemma_base64_same_len(a, b);
    assert forall|i: int| 0 <= i < a.len() implies a[i] == b[i] by {
        let first = i / 3 * 3;
        lemma_same_group(a, b, first);
        lemma_group_bytes(a, first);
        lemma_group_bytes(b, first);
        assert(i == first || i == first + 1 || i == first + 2);
        assert(byte_or_zero(a, i) == byte_or_zero(b, i));
    }
    assert(a =~= b);
}

/// Whether `bytes` hold just these samples: two bytes for each, whose value, the
/// low byte first, is the sample modulo 65536. One byte more may follow.
pub open spec fn hold(bytes: Seq<u8>, samples: Seq<i16>) -> bool {
    &&& samples.len() == bytes.len() / 2
    &&& forall|i: int|
        0 <= i < samples.len() ==> (#[trigger] samples[i] - (bytes[2 * i] + 256 * bytes[2 * i + 1]))
            % 65536 == 0
}

/// Bytes hold the samples that are read from them, and no others.
pub proof fn law_bytes_hold_samples(bytes: Seq<u8>, samples: Seq<i16>)
    ensures
        hold(bytes, samples) <==> samples == pcm_samples(bytes),
{
    if hold(bytes, samples) {
        assert forall|i: int| 0 <= i < samples.len() implies samples[i] == pcm_samples(
            bytes,
        )[i] by {
            assert((samples[i] - (bytes[2 * i] + 256 * bytes[2 * i + 1])) % 65536 == 0);
        }
        assert(samples =~= pcm_samples(bytes));
    }
}

/// Samples are written as the bytes that hold them, two for each.
pub proof fn law_bytes_of_samples(samples: &[i16], bytes: Vec<u8>)
    requires
        call_ensures(samples_to_bytes, (samples,), bytes),
    ensures
        bytes@.len() == 2 * samples@.len(),
        hold(bytes@, samples@),
{
    law_pcm_reads_back(samples@);
    law_bytes_hold_samples(bytes@, samples@);
}

/// The samples read from bytes are those that the bytes hold.
pub proof fn law_samples_of_bytes(bytes: &[u8], samples: Vec<i16>)
    requires
        call_ensures(bytes_to_samples, (bytes,), samples),
    ensures
        hold(bytes@, samples@),
{
    law_bytes_hold_samples(bytes@, samples@);
}

/// Whether `text` is the base64 text of bytes that hold just these samples, of
/// which there is at least one.
pub open spec fn text_holds(text: Seq<char>, samples: Seq<i16>) -> bool {
    &&& samples.len() > 0
    &&& exists|bytes: Seq<u8>| #[trigger] base64_text(bytes) == text && hold(bytes, samples)
}

/// A text holds the samples that it carries, and no others.
pub proof fn law_text_holds(text: Seq<char>, samples: Seq<i16>)
    ensures
        text_holds(text, samples) <==> decoded_pcm(text) == Some(samples),
{
    law_texts_that_decode(text);
    if text_holds(text, samples) {
        let bytes = choose|bytes: Seq<u8>| #[trigger]
            base64_text(bytes) == text && hold(bytes, samples);
        law_bytes_hold_samples(bytes, samples);
    }
    if decoded_pcm(text) == Some(samples) {
        let bytes = choose|bytes: Seq<u8>|
            bytes.len() >= 2 && #[trigger] base64_text(bytes) == text;
        law_bytes_hold_samples(bytes, samples);
    }
}

/// What is decoded from a text are the samples that it holds; nothing is decoded
/// exactly where it holds none.
pub proof fn law_decoded_samples(b64: &str, samples: Option<Vec<i16>>)
    requires
        call_ensures(decode_pcm, (b64,), samples),
    ensures
        match samples {
            Some(found) => text_holds(b64@, found@),
            None => forall|any: Seq<i16>| !text_holds(b64@, any),
        },
{
    match samples {
        Some(found) => {
            law_text_holds(b64@, found@);
        },
        None => {
            assert forall|any: Seq<i16>| !text_holds(b64@, any) by {
                law_text_holds(b64@, any);
            }
        },
    }
}

/// The text that carries samples holds just these; that of no samples is empty.
pub proof fn law_encoded_samples(samples: &[i16], b64: String)
    requires
        call_ensures(encode_pcm, (samples,), b64),
    ensures
        samples@.len() > 0 ==> text_holds(b64@, samples@),
        samples@.len() == 0 ==> b64@.len() == 0,
{
    law_text_holds(b64@, samples@);
}

/// Two bytes or more give the samples that they hold; fewer give none.
pub proof fn law_samples_in(bytes: &[u8], samples: Option<Vec<i16>>)
    requires
        call_ensures(samples_in, (bytes,), samples),
    ensures
        match samples {
            Some(found) => bytes@.len() >= 2 && hold(bytes@, found@),
            None => bytes@.len() < 2,
        },
{
    if let Some(found) = samples {
        law_bytes_hold_samples(bytes@, found@);
    }
}

/// Samples fit exactly where four characters for every three bytes, the last
/// group filled up, fit in an allocation.
pub proof fn law_len_fits(len: usize, fits: bool)
    requires
        call_ensures(pcm_len_fits, (len,), fits),
    ensures
        fits <==> exists|groups: nat| #[trigger]
            (3 * groups) >= 2 * len && 4 * groups <= isize::MAX,
{
    let groups = (len * 2 + 2) / 3;
    if fits {
        assert(3 * (groups as nat) >= 2 * len);
    }
}

} // verus!
