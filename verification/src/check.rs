//! Checking a service: what is asked, and what the answer says about it.

use reqwest::header::{HeaderMap, HeaderName, HeaderValue};
use vstd::prelude::*;
use vstd::utf8::encode_utf8;

use crate::models::{ServiceConfig, ServiceHealth};
use crate::text::{decimal, decimal_text};

verus! {

/// Outcome of checking one service once.
#[derive(Debug)]
pub struct CheckResult {
    pub health: ServiceHealth,
    pub latency_ms: Option<u128>,
    pub error: Option<String>,
}

/// What a response code says about a service: an expected code means it is up,
/// an offline signal that it is down, any other code that it is degraded. A
/// code that is in both lists is an expected one.
pub open spec fn health_of_code(code: u16, config: ServiceConfig) -> ServiceHealth {
    if config.expected_status@.contains(code) {
        ServiceHealth::Up
    } else if config.offline_signals@.contains(code) {
        ServiceHealth::Down
    } else {
        ServiceHealth::Degraded
    }
}

fn has_code(codes: &Vec<u16>, code: u16) -> (found: bool)
    ensures
        found == codes@.contains(code),
{
    let mut i: usize = 0;
    while i < codes.len()
        invariant
            i <= codes@.len(),
            forall|j: int| 0 <= j < i ==> codes@[j] != code,
        decreases codes.len() - i,
    {
        if codes[i] == code {
            return true;
        }
        i = i + 1;
    }
    false
}

/// What a response code says about a service.
pub fn classify_status(code: u16, config: &ServiceConfig) -> (health: ServiceHealth)
    ensures
        health == health_of_code(code, *config),
        health is Up <==> config.expected_status@.contains(code),
        health is Down <==> config.offline_signals@.contains(code)
            && !config.expected_status@.contains(code),
        health is Degraded <==> !config.expected_status@.contains(code)
            && !config.offline_signals@.contains(code),
{
    if has_code(&config.expected_status, code) {
        ServiceHealth::Up
    } else if has_code(&config.offline_signals, code) {
        ServiceHealth::Down
    } else {
        ServiceHealth::Degraded
    }
}

/// The text that explains a response code that was not expected.
pub open spec fn unexpected_status_text(code: u16, host: Seq<char>) -> Seq<char> {
    "Unexpected status "@ + decimal_text(code as nat) + " from "@ + host
}

/// The outcome of a check that got an answer.
pub fn check_response(code: u16, latency_ms: u128, config: &ServiceConfig) -> (result: CheckResult)
    ensures
        result.health == health_of_code(code, *config),
        result.latency_ms == Some(latency_ms),
        result.error is None <==> result.health is Up,
        result.error matches Some(error) ==> error@ == unexpected_status_text(code, config.host@),
        result.health is Up <==> config.expected_status@.contains(code),
        result.health is Down <==> config.offline_signals@.contains(code)
            && !config.expected_status@.contains(code),
        result.health is Degraded <==> !config.expected_status@.contains(code)
            && !config.offline_signals@.contains(code),
        result.error matches Some(error) ==> error@ == "Unexpected status "@ + decimal_text(
            code as nat,
        ) + " from "@ + config.host@,
{
    let health = classify_status(code, config);
    let error = if matches!(health, ServiceHealth::Up) {
        None
    } else {
        let mut text = "Unexpected status ".to_owned();
        text.append(decimal(code as u128).as_str());
        text.append(" from ");
        text.append(config.host.as_str());
        Some(text)
    };
    CheckResult { health, latency_ms: Some(latency_ms), error }
}

/// The outcome of a check that got no answer; `error` says why.
pub fn check_failure(error: String) -> (result: CheckResult)
    ensures
        result == (CheckResult {
            health: ServiceHealth::Down,
            latency_ms: None,
            error: Some(error),
        }),
{
    CheckResult { health: ServiceHealth::Down, latency_ms: None, error: Some(error) }
}

/// How long to wait for a service: its own timeout, or the general one.
pub fn request_timeout_ms(config: &ServiceConfig, fallback_ms: u64) -> (timeout_ms: u64)
    ensures
        timeout_ms == (match config.timeout_ms {
            Some(own) => own,
            None => fallback_ms,
        }),
{
    config.timeout_ms.unwrap_or(fallback_ms)
}

/// A map of request headers, from names to their values.
#[verifier::external_type_specification]
#[verifier::external_body]
#[verifier::reject_recursive_types(T)]
pub struct ExHeaderMap<T>(HeaderMap<T>);

/// The value of a request header.
#[verifier::external_type_specification]
#[verifier::external_body]
pub struct ExHeaderValue(HeaderValue);

/// What a map of request headers holds: for each name, in lower case, the bytes
/// of its values.
pub uninterp spec fn header_contents(headers: HeaderMap<HeaderValue>) -> Map<
    Seq<u8>,
    Seq<Seq<u8>>,
>;

/// How many names a map of request headers takes in for certain; it may refuse
/// to grow beyond that.
pub const MAX_HEADERS: usize = 6554;

/// Whether a byte may stand in a header name: letters, digits and some marks.
pub open spec fn is_name_byte(byte: u8) -> bool {
    ||| 'a' as u8 <= byte <= 'z' as u8
    ||| 'A' as u8 <= byte <= 'Z' as u8
    ||| '0' as u8 <= byte <= '9' as u8
    ||| byte == '!' as u8
    ||| '#' as u8 <= byte <= '\'' as u8
    ||| byte == '*' as u8
    ||| byte == '+' as u8
    ||| byte == '-' as u8
    ||| byte == '.' as u8
    ||| '^' as u8 <= byte <= '`' as u8
    ||| byte == '|' as u8
    ||| byte == '~' as u8
}

/// Whether bytes make up a header name.
pub open spec fn is_header_name(name: Seq<u8>) -> bool {
    &&& 1 <= name.len() <= 0xffff
    &&& forall|i: int| 0 <= i < name.len() ==> is_name_byte(#[trigger] name[i])
}

/// A byte of a header name in lower case.
pub open spec fn lower_byte(byte: u8) -> u8 {
    if 'A' as u8 <= byte <= 'Z' as u8 {
        (byte + 32) as u8
    } else {
        byte
    }
}

/// A header name in lower case.
pub open spec fn lower_name(name: Seq<u8>) -> Seq<u8> {
    name.map_values(|byte: u8| lower_byte(byte))
}

/// Whether bytes make up a header value: no control characters but the tab.
pub open spec fn is_header_value(value: Seq<u8>) -> bool {
    forall|i: int|
        0 <= i < value.len() ==> ((#[trigger] value[i]) >= 32 && value[i] != 127 || value[i] == 9)
}

/// An empty map of request headers.
///
/// Trusted: calls `reqwest::header::HeaderMap::new`; the contract claims that
/// the map holds nothing.
#[verifier::external_body]
fn no_headers() -> (headers: HeaderMap<HeaderValue>)
    ensures
        (header_contents(headers) == Map::<Seq<u8>, Seq<Seq<u8>>>::empty()),
{
    HeaderMap::new()
}

/// Whether a text is a header name.
///
/// Trusted: calls `reqwest::header::HeaderName::from_bytes`; the contract
/// claims that it accepts from 1 to 65535 bytes, all of them letters, digits or
/// one of the marks that a name may hold, and nothing else.
#[verifier::external_body]
fn header_name_accepted(name: &str) -> (accepted: bool)
    ensures
        accepted == is_header_name(encode_utf8(name@)),
{
    HeaderName::from_bytes(name.as_bytes()).is_ok()
}

/// Whether a text is a header value.
///
/// Trusted: calls `reqwest::header::HeaderValue::from_str`; the contract claims
/// that it accepts every text without control characters other than the tab,
/// and no other.
#[verifier::external_body]
fn header_value_accepted(value: &str) -> (accepted: bool)
    ensures
        accepted == is_header_value(encode_utf8(value@)),
{
    HeaderValue::from_str(value).is_ok()
}

/// Sets a request header, unless the map refuses to grow; says whether it did.
///
/// Trusted: calls `reqwest::header::HeaderMap::try_insert`. The contract claims
/// that where it succeeds, the value becomes the only one of the name, which is
/// kept in lower case, and all other names keep their values. The map grows as
/// needed; growing is refused at a size that it cannot reach with fewer than
/// 6554 names, so with fewer names it succeeds. Whether it succeeds with more
/// depends on how the names are spread over the map and is left open, and so is
/// what a map holds that refused.
#[verifier::external_body]
fn set_header(headers: &mut HeaderMap<HeaderValue>, name: &str, value: &str) -> (set: bool)
    requires
        is_header_name(encode_utf8(name@)),
        is_header_value(encode_utf8(value@)),
    ensures
        set ==> header_contents(*final(headers)) == header_contents(*old(headers)).insert(
            lower_name(encode_utf8(name@)),
            seq![encode_utf8(value@)],
        ),
        header_contents(*old(headers)).dom().finite() && header_contents(*old(headers)).len()
            < MAX_HEADERS ==> set,
{
    headers
        .try_insert(
            HeaderName::from_bytes(name.as_bytes()).unwrap(),
            HeaderValue::from_str(value).unwrap(),
        )
        .is_ok()
}

/// The configured headers are more than a request can carry.
#[derive(Debug)]
pub struct TooManyHeaders;

/// Whether a configured header can be sent.
pub open spec fn is_sendable(header: (String, String)) -> bool {
    is_header_name(encode_utf8(header.0@)) && is_header_value(encode_utf8(header.1@))
}

/// What the request headers hold once the given configured headers are set, one
/// after the other; those that cannot be sent are left out.
pub open spec fn sent_headers(headers: Seq<(String, String)>) -> Map<Seq<u8>, Seq<Seq<u8>>>
    decreases headers.len(),
{
    if headers.len() == 0 {
        Map::empty()
    } else {
        let before = sent_headers(headers.drop_last());
        let (name, value) = headers.last();
        if is_sendable(headers.last()) {
            before.insert(lower_name(encode_utf8(name@)), seq![encode_utf8(value@)])
        } else {
            before
        }
    }
}

/// Setting more headers never makes for fewer names.
proof fn lemma_sent_headers_grow(headers: Seq<(String, String)>, count: int)
    requires
        0 <= count <= headers.len(),
    ensures
        sent_headers(headers).dom().finite(),
        sent_headers(headers.take(count)).len() <= sent_headers(headers).len(),
    decreases headers.len(),
{
    if count == headers.len() {
        assert(headers.take(count) =~= headers);
    }
    if headers.len() > 0 {
        let shorter = headers.drop_last();
        if count < headers.len() {
            assert(shorter.take(count) =~= headers.take(count));
            lemma_sent_headers_grow(shorter, count);
        } else {
            lemma_sent_headers_grow(shorter, shorter.len() as int);
        }
    }
}

/// The request headers of a service, if it has any configured: those that can
/// be sent. Of two that set the same name the later one stays. Where they come
/// to [`MAX_HEADERS`] names and there are more to set, they may be too many.
pub fn request_headers(config: &ServiceConfig) -> (sent: Result<
    Option<HeaderMap<HeaderValue>>,
    TooManyHeaders,
>)
    ensures
        match (config.headers, sent) {
            (Some(headers), Ok(Some(sent))) => header_contents(sent) == sent_headers(headers@),
            (Some(_), Ok(None)) => false,
            (Some(headers), Err(_)) => headers@.len() > MAX_HEADERS && sent_headers(headers@).len()
                >= MAX_HEADERS,
            (None, sent) => sent is Ok && sent->Ok_0 is None,
        },
{
    match &config.headers {
        None => Ok(None),
        Some(headers) => {
            let mut map = no_headers();
            let mut i: usize = 0;
            assert(headers@.take(0) =~= Seq::empty());
            while i < headers.len()
                invariant
                    i <= headers@.len(),
                    config.headers == Some(*headers),
                    header_contents(map) == sent_headers(headers@.take(i as int)),
                    header_contents(map).dom().finite(),
                    header_contents(map).len() <= i,
                decreases headers.len() - i,
            {
                let name = headers[i].0.as_str();
                let value = headers[i].1.as_str();
                proof {
                    assert(headers@.take(i + 1).drop_last() =~= headers@.take(i as int));
                }
                if header_name_accepted(name) && header_value_accepted(value) {
                    if !set_header(&mut map, name, value) {
                        proof {
                            lemma_sent_headers_grow(headers@, i as int);
                        }
                        return Err(TooManyHeaders);
                    }
                }
                i = i + 1;
            }
            assert(headers@.take(i as int) =~= headers@);
            Ok(Some(map))
        },
    }
}

/// A service is up exactly on an expected code, down exactly on an offline
/// signal that is not expected, and degraded on every code that is neither. So
/// what a code means depends on the two lists alone.
pub proof fn law_health_follows_the_lists(code: u16, config: ServiceConfig)
    ensures
        health_of_code(code, config) is Up <==> exists|i: int|
            0 <= i < config.expected_status@.len() && config.expected_status@[i] == code,
        health_of_code(code, config) is Down <==> (exists|i: int|
            0 <= i < config.offline_signals@.len() && config.offline_signals@[i] == code)
            && forall|i: int|
            0 <= i < config.expected_status@.len() ==> config.expected_status@[i] != code,
        health_of_code(code, config) is Degraded <==> (forall|i: int|
            0 <= i < config.expected_status@.len() ==> config.expected_status@[i] != code)
            && forall|i: int|
            0 <= i < config.offline_signals@.len() ==> config.offline_signals@[i] != code,
{
}

/// The explanation of an unexpected code gives the code and the host.
pub proof fn law_explanation_names_code_and_host(code: u16, host: Seq<char>)
    ensures
        unexpected_status_text(code, host) == "Unexpected status "@ + decimal_text(code as nat)
            + " from "@ + host,
{
}

/// Setting one more header that can be sent gives its name, in lower case, that
/// one value and leaves all other names as they are; a header that cannot be
/// sent changes nothing.
pub proof fn law_each_header_in_its_turn(
    headers: Seq<(String, String)>,
    name: String,
    value: String,
)
    ensures
        sent_headers(Seq::empty()) == Map::<Seq<u8>, Seq<Seq<u8>>>::empty(),
        ({
            let before = sent_headers(headers);
            let after = sent_headers(headers.push((name, value)));
            let key = encode_utf8(name@).map_values(
                |byte: u8| if 65 <= byte <= 90 { (byte + 32) as u8 } else { byte },
            );
            let sendable = is_header_name(encode_utf8(name@)) && is_header_value(
                encode_utf8(value@),
            );
            &&& !sendable ==> after == before
            &&& sendable ==> {
                &&& after.contains_key(key)
                &&& after[key].len() == 1
                &&& after[key][0] == encode_utf8(value@)
                &&& after.remove(key) == before.remove(key)
            }
        }),
{
    assert(headers.push((name, value)).drop_last() =~= headers);
    let key = encode_utf8(name@).map_values(
        |byte: u8| if 65 <= byte <= 90 { (byte + 32) as u8 } else { byte },
    );
    assert(key =~= lower_name(encode_utf8(name@)));
    let before = sent_headers(headers);
    let after = sent_headers(headers.push((name, value)));
    assert(after.remove(key) =~= before.remove(key));
}

/// Every name that is sent has the value of the last header that sets it.
pub proof fn law_last_header_of_a_name_stays(headers: Seq<(String, String)>, index: int)
    requires
        0 <= index < headers.len(),
        is_header_name(encode_utf8(headers[index].0@)),
        is_header_value(encode_utf8(headers[index].1@)),
        forall|i: int|
            index < i < headers.len() && is_header_name(encode_utf8((#[trigger] headers[i]).0@))
                && is_header_value(encode_utf8(headers[i].1@)) ==> lower_name(
                encode_utf8(headers[i].0@),
            ) != lower_name(encode_utf8(headers[index].0@)),
    ensures
        sent_headers(headers).contains_key(lower_name(encode_utf8(headers[index].0@))),
        sent_headers(headers)[lower_name(encode_utf8(headers[index].0@))] == seq![
            encode_utf8(headers[index].1@),
        ],
    decreases headers.len(),
{
    let shorter = headers.drop_last();
    if index < shorter.len() {
        assert(shorter[index] == headers[index]);
        assert forall|i: int|
            index < i < shorter.len() && is_header_name(encode_utf8((#[trigger] shorter[i]).0@))
                && is_header_value(encode_utf8(shorter[i].1@)) implies lower_name(
            encode_utf8(shorter[i].0@),
        ) != lower_name(encode_utf8(shorter[index].0@)) by {
            assert(headers[i] == shorter[i]);
        }
        law_last_header_of_a_name_stays(shorter, index);
        assert(headers[headers.len() - 1] == headers.last());
    }
}

/// Header names may hold letters, digits and the marks of a token; a name is
/// put into lower case letter by letter.
pub proof fn law_header_bytes(byte: u8)
    ensures
        is_name_byte(byte) <==> {
            ||| 97 <= byte <= 122
            ||| 65 <= byte <= 90
            ||| 48 <= byte <= 57
            ||| 35 <= byte <= 39
            ||| 94 <= byte <= 96
            ||| byte == 33 || byte == 42 || byte == 43 || byte == 45 || byte == 46 || byte == 124
                || byte == 126
        },
        65 <= byte <= 90 ==> lower_byte(byte) == byte + 32,
        !(65 <= byte <= 90) ==> lower_byte(byte) == byte,
        is_header_value(seq![byte]) <==> (byte >= 32 && byte != 127) || byte == 9,
{
    let text = seq![byte];
    assert(text[0] == byte);
}

} // verus!
