//! The request to the formula recognition service, and the text in its
//! answer.
//!
//! The service wants every request signed: a digest of the body, and a
//! keyed hash over a few lines that name the host, the date, the request
//! line and that digest. Its answer lists regions of the image; the text of
//! each region marks formulas with two words, which become `$` here.

use base64::Engine;
use hmac::{Hmac, Mac};
use sha2::{Digest, Sha256};
use vstd::prelude::*;
use vstd::utf8::encode_utf8;
use crate::json::Json;
use crate::models::Timestamp;

verus! {

/// The host of the recognition service.
pub const OCR_HOST: &'static str = "rest-api.xfyun.cn";

/// The address to which a scan is posted.
pub const OCR_URL: &'static str = "https://rest-api.xfyun.cn/v2/itr";

/// The form of the date in a request: as RFC 1123 writes it, in GMT.
pub const RFC1123_FORMAT: &'static str = "%a, %d %b %Y %H:%M:%S GMT";

pub const DIGEST_PREFIX: &'static str = "SHA-256=";

pub const SIGNED_HOST_LINE: &'static str = "host: rest-api.xfyun.cn\n";

pub const SIGNED_DATE_LABEL: &'static str = "date: ";

pub const SIGNED_REQUEST_LINE: &'static str = "\nPOST /v2/itr HTTP/1.1\n";

pub const SIGNED_DIGEST_LABEL: &'static str = "digest: ";

pub const AUTHORIZATION_KEY_LABEL: &'static str = "api_key=\"";

pub const AUTHORIZATION_SIGNATURE_LABEL: &'static str =
    "\", algorithm=\"hmac-sha256\", headers=\"host date request-line digest\", signature=\"";

pub const AUTHORIZATION_END: &'static str = "\"";

pub const HEADER_HOST: &'static str = "Host";

pub const HEADER_DATE: &'static str = "Date";

pub const HEADER_DIGEST: &'static str = "Digest";

pub const HEADER_AUTHORIZATION: &'static str = "Authorization";

/// The word in front of a formula in the text of a region.
pub const LATEX_BEGIN: &'static str = " ifly-latex-begin ";

/// The word behind a formula in the text of a region.
pub const LATEX_END: &'static str = " ifly-latex-end ";

/// What stands around a formula in the text that is handed out.
pub const LATEX_MARK: &'static str = "$";

pub const DATA_KEY: &'static str = "data";

pub const REGION_KEY: &'static str = "region";

pub const RECOG_KEY: &'static str = "recog";

pub const CONTENT_KEY: &'static str = "content";

// ---------------------------------------------------------------------------
// Hashes and encodings
// ---------------------------------------------------------------------------

/// The SHA-256 digest of a run of bytes, as `sha2` computes it.
pub uninterp spec fn sha256_of(data: Seq<u8>) -> Seq<u8>;

/// The HMAC-SHA256 tag of a message under a key, as `hmac` computes it.
pub uninterp spec fn hmac_sha256_of(key: Seq<u8>, message: Seq<u8>) -> Seq<u8>;

/// The base64 text of a run of bytes in the standard alphabet with padding,
/// as `base64` writes it.
pub uninterp spec fn base64_of(data: Seq<u8>) -> Seq<char>;

/// What `str::replace` makes of a text in which every `from` becomes `to`.
pub uninterp spec fn replaced(text: Seq<char>, from: Seq<char>, to: Seq<char>) -> Seq<char>;

/// Calls `Sha256::digest` of `sha2`. Trusted: the digest is a function of
/// the bytes alone and has 32 bytes.
#[verifier::external_body]
fn sha256(data: &[u8]) -> (digest: Vec<u8>)
    ensures
        digest@ == sha256_of(data@),
        digest@.len() == 32,
{
    Sha256::digest(data).to_vec()
}

/// Calls `Hmac::<Sha256>::new_from_slice`, `update` and `finalize` of
/// `hmac`. Trusted: a key of any length is taken, and the tag is a function
/// of key and message alone and has 32 bytes.
#[verifier::external_body]
fn hmac_sha256(key: &[u8], message: &[u8]) -> (tag: Option<Vec<u8>>)
    ensures
        tag is Some,
        (tag->0)@ == hmac_sha256_of(key@, message@),
        (tag->0)@.len() == 32,
{
    let mut mac = Hmac::<Sha256>::new_from_slice(key).ok()?;
    mac.update(message);
    Some(mac.finalize().into_bytes().to_vec())
}

/// Calls `encode` of `base64::engine::general_purpose::STANDARD`. Trusted:
/// the text is a function of the bytes alone. The bound keeps the length of
/// the text within `usize`.
#[verifier::external_body]
fn base64_standard(data: &[u8]) -> (text: String)
    requires
        data@.len() <= 0x3fff_ffff,
    ensures
        text@ == base64_of(data@),
{
    base64::engine::general_purpose::STANDARD.encode(data)
}

/// Calls `str::replace`. Trusted: the result is a function of the three
/// texts alone.
#[verifier::external_body]
fn replace_all(text: &str, from: &str, to: &str) -> (out: String)
    ensures
        out@ == replaced(text@, from@, to@),
{
    text.replace(from, to)
}

/// What `format_with_items` of chrono writes, in the given format, for the
/// date and time in UTC that lies `at.secs` seconds and `at.nanos`
/// nanoseconds after 1970-01-01 00:00:00 UTC.
pub uninterp spec fn utc_text(at: Timestamp, format: Seq<char>) -> Seq<char>;

/// The date and time of an instant in GMT, as RFC 1123 writes it.
pub open spec fn rfc1123_text(at: Timestamp) -> Seq<char> {
    utc_text(at, RFC1123_FORMAT@)
}

/// Calls `chrono::Utc::now` and formats the reading with
/// `format_with_items`; hands out the reading beside its text. Trusted:
/// the text is a function of the reading and the format alone, and the
/// reading is never inside a leap second. Which instant is read depends on
/// the clock. Only the one format of this module is handed in, which
/// chrono can write for every date.
#[verifier::external_body]
fn utc_now_text(format: &str) -> (read: (Timestamp, String))
    requires
        format@ == RFC1123_FORMAT@,
    ensures
        read.0.nanos < 1_000_000_000,
        read.1@ == utc_text(read.0, format@),
{
    let now = chrono::Utc::now();
    let text = now.format_with_items(chrono::format::StrftimeItems::new(format)).to_string();
    (Timestamp { secs: now.timestamp(), nanos: now.timestamp_subsec_nanos() }, text)
}

/// The current date and time in GMT, as RFC 1123 writes it: the text of
/// one reading of the clock.
pub fn get_rfc1123_time() -> (text: String)
    ensures
        exists|reading: Timestamp|
            reading.nanos < 1_000_000_000 && text@ == #[trigger] rfc1123_text(reading),
{
    let (reading, text) = utc_now_text(RFC1123_FORMAT);
    assert(text@ == rfc1123_text(reading));
    text
}

// ---------------------------------------------------------------------------
// The signed request
// ---------------------------------------------------------------------------

/// One header of a request.
#[derive(Debug, Clone, PartialEq, Eq)]
pub struct Header {
    pub name: String,
    pub value: String,
}

/// The mathematical value of a [`Header`].
#[verifier::ext_equal]
pub struct HeaderView {
    pub name: Seq<char>,
    pub value: Seq<char>,
}

impl View for Header {
    type V = HeaderView;

    open spec fn view(&self) -> HeaderView {
        HeaderView { name: self.name@, value: self.value@ }
    }
}

/// The value of the `Digest` header for a body.
pub open spec fn digest_value(body: Seq<char>) -> Seq<char> {
    DIGEST_PREFIX@ + base64_of(sha256_of(encode_utf8(body)))
}

/// The lines that are signed: host, date, request line and digest.
pub open spec fn signed_text(date: Seq<char>, digest: Seq<char>) -> Seq<char> {
    SIGNED_HOST_LINE@ + SIGNED_DATE_LABEL@ + date + SIGNED_REQUEST_LINE@ + SIGNED_DIGEST_LABEL@
        + digest
}

/// The signature over the signed lines under the secret of the account.
pub open spec fn signature_value(api_secret: Seq<char>, date: Seq<char>, digest: Seq<char>) -> Seq<
    char,
> {
    base64_of(hmac_sha256_of(encode_utf8(api_secret), encode_utf8(signed_text(date, digest))))
}

/// The value of the `Authorization` header: the key of the account, what
/// was signed and how, and the signature.
pub open spec fn authorization_value(api_key: Seq<char>, signature: Seq<char>) -> Seq<char> {
    AUTHORIZATION_KEY_LABEL@ + api_key + AUTHORIZATION_SIGNATURE_LABEL@ + signature
        + AUTHORIZATION_END@
}

/// The headers of a request with the given body: `Host`, `Date`, `Digest`
/// and `Authorization`, in this order. `signed_date` goes into the
/// signature and `sent_date` into the `Date` header.
pub open spec fn request_headers(
    body: Seq<char>,
    signed_date: Seq<char>,
    sent_date: Seq<char>,
    api_key: Seq<char>,
    api_secret: Seq<char>,
) -> Seq<HeaderView> {
    seq![
        HeaderView { name: HEADER_HOST@, value: OCR_HOST@ },
        HeaderView { name: HEADER_DATE@, value: sent_date },
        HeaderView { name: HEADER_DIGEST@, value: digest_value(body) },
        HeaderView {
            name: HEADER_AUTHORIZATION@,
            value: authorization_value(
                api_key,
                signature_value(api_secret, signed_date, digest_value(body)),
            ),
        },
    ]
}

fn header(name: &str, value: String) -> (header: Header)
    ensures
        header@ == (HeaderView { name: name@, value: value@ }),
{
    Header { name: name.to_owned(), value }
}

/// Builds the headers of a request from two readings of the clock.
pub fn assemble_header_at(
    body: &str,
    signed_date: &str,
    sent_date: &str,
    api_key: &str,
    api_secret: &str,
) -> (headers: Vec<Header>)
    ensures
        headers@.map_values(|h: Header| h@) == request_headers(
            body@,
            signed_date@,
            sent_date@,
            api_key@,
            api_secret@,
        ),
{
    let body_hash = sha256(body.as_bytes());
    let mut digest = DIGEST_PREFIX.to_owned();
    digest.append(base64_standard(body_hash.as_slice()).as_str());

    let mut to_sign = SIGNED_HOST_LINE.to_owned();
    to_sign.append(SIGNED_DATE_LABEL);
    to_sign.append(signed_date);
    to_sign.append(SIGNED_REQUEST_LINE);
    to_sign.append(SIGNED_DIGEST_LABEL);
    to_sign.append(digest.as_str());

    let tag = hmac_sha256(api_secret.as_bytes(), to_sign.as_str().as_bytes()).unwrap();
    let signature = base64_standard(tag.as_slice());

    let mut authorization = AUTHORIZATION_KEY_LABEL.to_owned();
    authorization.append(api_key);
    authorization.append(AUTHORIZATION_SIGNATURE_LABEL);
    authorization.append(signature.as_str());
    authorization.append(AUTHORIZATION_END);

    let mut headers: Vec<Header> = Vec::new();
    headers.push(header(HEADER_HOST, OCR_HOST.to_owned()));
    headers.push(header(HEADER_DATE, sent_date.to_owned()));
    headers.push(header(HEADER_DIGEST, digest));
    headers.push(header(HEADER_AUTHORIZATION, authorization));
    assert(headers@.map_values(|h: Header| h@) =~= request_headers(
        body@,
        signed_date@,
        sent_date@,
        api_key@,
        api_secret@,
    ));
    headers
}

/// Builds the headers of a request that is made now. The clock is read
/// once for the signature and once for the `Date` header, and each date is
/// the RFC 1123 text of its reading.
pub fn assemble_header(body: &str, api_key: &str, api_secret: &str) -> (headers: Vec<Header>)
    ensures
        exists|signed: Timestamp, sent: Timestamp|
            signed.nanos < 1_000_000_000 && sent.nanos < 1_000_000_000 && headers@.map_values(
                |h: Header| h@,
            ) == #[trigger] request_headers(
                body@,
                rfc1123_text(signed),
                rfc1123_text(sent),
                api_key@,
                api_secret@,
            ),
{
    let signed_date = get_rfc1123_time();
    let sent_date = get_rfc1123_time();
    let ghost signed = choose|reading: Timestamp|
        reading.nanos < 1_000_000_000 && signed_date@ == #[trigger] rfc1123_text(reading);
    let ghost sent = choose|reading: Timestamp|
        reading.nanos < 1_000_000_000 && sent_date@ == #[trigger] rfc1123_text(reading);
    let headers = assemble_header_at(
        body,
        signed_date.as_str(),
        sent_date.as_str(),
        api_key,
        api_secret,
    );
    assert(headers@.map_values(|h: Header| h@) == request_headers(
        body@,
        rfc1123_text(signed),
        rfc1123_text(sent),
        api_key@,
        api_secret@,
    ));
    headers
}

// ---------------------------------------------------------------------------
// The answer
// ---------------------------------------------------------------------------

/// The text of a region with the two words around each formula turned
/// into `$`.
pub open spec fn cleaned(line: Seq<char>) -> Seq<char> {
    replaced(replaced(line, LATEX_BEGIN@, LATEX_MARK@), LATEX_END@, LATEX_MARK@)
}

/// What one region contributes: the cleaned text under `recog.content`,
/// where that is a string, and nothing otherwise.
pub open spec fn region_text(region: Json) -> Seq<char> {
    match region.field(RECOG_KEY@) {
        Some(recog) => match recog.field(CONTENT_KEY@) {
            Some(content) => match content.text() {
                Some(line) => cleaned(line),
                None => Seq::empty(),
            },
            None => Seq::empty(),
        },
        None => Seq::empty(),
    }
}

/// The regions that an answer lists under `data.region`; none where it
/// has no such array.
pub open spec fn regions_of(answer: Json) -> Seq<Json> {
    match answer.field(DATA_KEY@) {
        Some(data) => match data.field(REGION_KEY@) {
            Some(region) => match region.items() {
                Some(regions) => regions,
                None => Seq::empty(),
            },
            None => Seq::empty(),
        },
        None => Seq::empty(),
    }
}

/// The text of an answer: the texts of its regions, one after the other.
pub open spec fn latex_of(answer: Json) -> Seq<char> {
    regions_of(answer).map_values(|region: Json| region_text(region)).flatten()
}

/// The text that one region contributes.
fn region_line(region: &Json) -> (text: String)
    ensures
        text@ == region_text(*region),
{
    let line = match region.get(RECOG_KEY) {
        Some(recog) => match recog.get(CONTENT_KEY) {
            Some(content) => content.as_str(),
            None => None,
        },
        None => None,
    };
    match line {
        Some(line) => {
            let opened = replace_all(line, LATEX_BEGIN, LATEX_MARK);
            replace_all(opened.as_str(), LATEX_END, LATEX_MARK)
        },
        None => String::new(),
    }
}

/// Reads the text out of an answer of the recognition service.
pub fn img2latex(answer: &Json) -> (text: String)
    ensures
        text@ == latex_of(*answer),
{
    let mut text = String::new();
    let listed = match answer.get(DATA_KEY) {
        Some(data) => match data.get(REGION_KEY) {
            Some(region) => region.as_array(),
            None => None,
        },
        None => None,
    };
    assert(Seq::<Json>::empty().map_values(|region: Json| region_text(region)) =~= Seq::<
        Seq<char>,
    >::empty());
    match listed {
        Some(regions) => {
            let mut i: usize = 0;
            assert(regions@.take(0) =~= Seq::<Json>::empty());
            while i < regions.len()
                invariant
                    i <= regions.len(),
                    text@ == regions@.take(i as int).map_values(
                        |region: Json| region_text(region),
                    ).flatten(),
                decreases regions.len() - i,
            {
                let line = region_line(&regions[i]);
                proof {
                    let done = regions@.take(i as int).map_values(
                        |region: Json| region_text(region),
                    );
                    assert(regions@.take(i as int + 1).map_values(
                        |region: Json| region_text(region),
                    ) =~= done.push(region_text(regions@[i as int])));
                    done.lemma_flatten_push(region_text(regions@[i as int]));
                }
                text.append(line.as_str());
                i = i + 1;
            }
            assert(regions@.take(regions.len() as int) =~= regions@);
        },
        None => {},
    }
    text
}

} // verus!
