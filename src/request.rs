//! The values of one transcription request, checked and assembled before
//! anything is sent.
use vstd::prelude::*;
use crate::error::{InputError, TranscribeError};
use crate::wav::{encode_wav, pcm_of, wav_file};

verus! {

/// The path appended to the base URL.
pub open spec fn endpoint_path() -> Seq<char> {
    seq!['/', 'a', 'u', 'd', 'i', 'o', '/', 't', 'r', 'a', 'n', 's', 'c', 'r', 'i', 'p', 't', 'i', 'o', 'n', 's']
}

/// `s` without any trailing slashes.
pub open spec fn strip_trailing_slashes(s: Seq<char>) -> Seq<char>
    decreases s.len(),
{
    if s.len() > 0 && s.last() == '/' {
        strip_trailing_slashes(s.drop_last())
    } else {
        s
    }
}

/// The URL a request for `base_url` is posted to.
pub open spec fn request_url(base_url: Seq<char>) -> Seq<char> {
    strip_trailing_slashes(base_url) + endpoint_path()
}

/// The value of the `language` form field, if one is sent: an empty code and
/// the sentinel "auto" leave it out, so that the service detects the language.
pub open spec fn language_spec(language: Option<Seq<char>>) -> Option<Seq<char>> {
    match language {
        Some(l) => if l.len() == 0 || l == seq!['a', 'u', 't', 'o'] {
            None
        } else {
            Some(l)
        },
        None => None,
    }
}

/// The characters of an optional string.
pub open spec fn opt_view(o: Option<&str>) -> Option<Seq<char>> {
    match o {
        Some(s) => Some(s@),
        None => None,
    }
}

/// The `Authorization` header value for an API key.
pub open spec fn bearer(api_key: Seq<char>) -> Seq<char> {
    seq!['B', 'e', 'a', 'r', 'e', 'r', ' '] + api_key
}

/// A character that an HTTP header value may carry: tab, or anything from
/// the space up but DEL. A character beyond ASCII is encoded as bytes from
/// 0x80 up, all of which are accepted.
pub open spec fn header_char_ok(c: char) -> bool {
    c == '\t' || (c as u32 >= 32 && c as u32 != 127)
}

pub open spec fn header_value_ok(s: Seq<char>) -> bool {
    forall|i: int| 0 <= i < s.len() ==> header_char_ok(#[trigger] s[i])
}

/// Relies on reqwest::header::HeaderValue::from_str (from the http crate),
/// which accepts a string exactly when each of its UTF-8 bytes is a tab or
/// lies in 32..=255 but 127.
#[verifier::external_body]
fn header_value_valid(s: &str) -> (r: bool)
    ensures
        r == header_value_ok(s@),
{
    reqwest::header::HeaderValue::from_str(s).is_ok()
}

/// Removes every trailing '/' from `s`.
pub fn trim_trailing_slashes(s: &str) -> (r: String)
    ensures
        r@ == strip_trailing_slashes(s@),
{
    let mut end: usize = s.unicode_len();
    assert(s@.subrange(0, end as int) =~= s@);
    while end > 0 && s.get_char(end - 1) == '/'
        invariant
            end <= s@.len(),
            strip_trailing_slashes(s@) == strip_trailing_slashes(s@.subrange(0, end as int)),
        decreases end,
    {
        assert(s@.subrange(0, end as int).drop_last() =~= s@.subrange(0, end - 1));
        end = end - 1;
    }
    let r = s.substring_char(0, end);
    String::from_str(r)
}

/// The URL to post to: `base_url` without trailing slashes, followed by
/// `/audio/transcriptions`.
pub fn transcription_url(base_url: &str) -> (r: String)
    ensures
        r@ == request_url(base_url@),
{
    let mut url = trim_trailing_slashes(base_url);
    url.append("/audio/transcriptions");
    proof {
        reveal_strlit("/audio/transcriptions");
        assert(url@ =~= request_url(base_url@));
    }
    url
}

/// Whether `s` is the sentinel "auto".
fn is_auto(s: &str) -> (r: bool)
    ensures
        r == (s@ == seq!['a', 'u', 't', 'o']),
{
    if s.unicode_len() != 4 {
        return false;
    }
    let r = s.get_char(0) == 'a' && s.get_char(1) == 'u' && s.get_char(2) == 't' && s.get_char(3)
        == 'o';
    if r {
        assert(s@ =~= seq!['a', 'u', 't', 'o']);
    }
    r
}

/// The language code to send, if any: `None`, an empty code and "auto" all
/// leave the field out.
pub fn language_field(language: Option<&str>) -> (r: Option<String>)
    ensures
        r matches Some(l) ==> language_spec(opt_view(language)) == Some(l@),
        r is None ==> language_spec(opt_view(language)) is None,
{
    match language {
        Some(l) => {
            if l.unicode_len() == 0 || is_auto(l) {
                None
            } else {
                Some(String::from_str(l))
            }
        },
        None => None,
    }
}

/// The `Authorization` header value `Bearer <api_key>`: none for an empty
/// key, and a header error when the key holds a character that a header
/// value cannot carry.
pub fn authorization_value(api_key: &str) -> (r: Result<Option<String>, TranscribeError>)
    ensures
        api_key@.len() == 0 ==> r matches Ok(None),
        api_key@.len() > 0 && header_value_ok(bearer(api_key@)) ==> (r matches Ok(Some(v)) && v@
            == bearer(api_key@)),
        api_key@.len() > 0 && !header_value_ok(bearer(api_key@)) ==> r == Err::<
            Option<String>,
            TranscribeError,
        >(TranscribeError::Header),
{
    if api_key.unicode_len() == 0 {
        return Ok(None);
    }
    let mut value = String::from_str("Bearer ");
    value.append(api_key);
    proof {
        reveal_strlit("Bearer ");
        assert(value@ =~= bearer(api_key@));
    }
    if header_value_valid(value.as_str()) {
        Ok(Some(value))
    } else {
        Err(TranscribeError::Header)
    }
}

} // verus!

verus! {

/// Everything one POST to the service carries: sent as a multipart form
/// with the parts `file` (the WAV bytes, as "audio.wav" of type audio/wav),
/// `model` and, when present, `language`.
pub struct TranscriptionRequest {
    /// Where the form is posted.
    pub url: String,
    /// The value of the `Authorization` header, if one is sent.
    pub authorization: Option<String>,
    /// The model identifier.
    pub model: String,
    /// The language code, absent when the service should detect it.
    pub language: Option<String>,
    /// The audio as a complete WAV file.
    pub wav: Vec<u8>,
}

/// Checks the arguments of a transcription call and assembles its request.
/// `scaled` holds the audio samples scaled by 32767 and truncated toward
/// zero. An empty audio sequence is refused first, then an empty API key;
/// neither touches the network.
pub fn prepare_request(
    scaled: &Vec<i64>,
    api_key: &str,
    base_url: &str,
    model: &str,
    language: Option<&str>,
) -> (r: Result<TranscriptionRequest, TranscribeError>)
    ensures
        scaled@.len() == 0 ==> r == Err::<TranscriptionRequest, TranscribeError>(
            TranscribeError::Input(InputError::NoAudio),
        ),
        scaled@.len() > 0 && api_key@.len() == 0 ==> r == Err::<
            TranscriptionRequest,
            TranscribeError,
        >(TranscribeError::Input(InputError::NoApiKey)),
        0 < scaled@.len() <= crate::wav::MAX_SAMPLES && api_key@.len() > 0 && header_value_ok(
            bearer(api_key@),
        ) ==> r is Ok,
        0 < scaled@.len() <= crate::wav::MAX_SAMPLES && api_key@.len() > 0 && !header_value_ok(
            bearer(api_key@),
        ) ==> r == Err::<TranscriptionRequest, TranscribeError>(TranscribeError::Header),
        scaled@.len() > crate::wav::MAX_SAMPLES && api_key@.len() > 0 ==> r
            == Err::<TranscriptionRequest, TranscribeError>(TranscribeError::Encoding),
        scaled@.len() > 0 && api_key@.len() > 0 ==> (r matches Err(e) ==> (e is Encoding || (
        e is Header && !header_value_ok(bearer(api_key@))))),
        r matches Ok(req) ==> {
            &&& scaled@.len() > 0
            &&& api_key@.len() > 0
            &&& header_value_ok(bearer(api_key@))
            &&& req.url@ == request_url(base_url@)
            &&& (req.authorization matches Some(a) && a@ == bearer(api_key@))
            &&& req.model@ == model@
            &&& req.wav@ == wav_file(pcm_of(scaled@))
            &&& (req.language matches Some(l) ==> language_spec(opt_view(language)) == Some(l@))
            &&& (req.language is None ==> language_spec(opt_view(language)) is None)
        },
{
    if scaled.len() == 0 {
        return Err(TranscribeError::Input(InputError::NoAudio));
    }
    if api_key.unicode_len() == 0 {
        return Err(TranscribeError::Input(InputError::NoApiKey));
    }
    let url = transcription_url(base_url);
    let wav = match encode_wav(scaled) {
        Ok(bytes) => bytes,
        Err(e) => {
            return Err(e);
        },
    };
    let language = language_field(language);
    let authorization = match authorization_value(api_key) {
        Ok(v) => v,
        Err(e) => {
            return Err(e);
        },
    };
    Ok(TranscriptionRequest { url, authorization, model: String::from_str(model), language, wav })
}

} // verus!

verus! {

/// A base URL with and without a trailing slash gives the same request URL.
pub proof fn trailing_slash_is_ignored(base_url: Seq<char>)
    ensures
        request_url(base_url.push('/')) == request_url(base_url),
{
    assert(base_url.push('/').drop_last() =~= base_url);
}

} // verus!
