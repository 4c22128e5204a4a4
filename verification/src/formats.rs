//! Text formats that other crates read and write.
use crate::encoding::be_bytes;
use crate::text::{hex_text, optional_text};
use base64::engine::general_purpose::URL_SAFE_NO_PAD;
use base64::Engine;
use time::format_description::well_known::Rfc3339;
use time::OffsetDateTime;
use url::{form_urlencoded, Host, Url};
use uuid::Uuid;
use vstd::prelude::*;

verus! {

/// The first nanosecond after the Unix epoch that has no four-digit year.
pub const RFC3339_END: i128 = 253_402_300_800_000_000_000;

/// The longest input that is encoded as base64.
pub const BASE64_MAX_INPUT: usize = 0x4000_0000;

/// The unpadded URL-safe base64 text of a sequence of bytes.
pub uninterp spec fn base64url_text(bytes: Seq<u8>) -> Seq<char>;

/// The bytes that an unpadded URL-safe base64 text stands for, `None` for any other text.
pub uninterp spec fn base64url_bytes(text: Seq<char>) -> Option<Seq<u8>>;

/// The RFC 3339 text of a moment, given in nanoseconds after the Unix epoch, in UTC; `None` where
/// its year does not have four digits.
pub uninterp spec fn rfc3339_text(nanos: i128) -> Option<Seq<char>>;

/// The moment of an RFC 3339 text, in nanoseconds after the Unix epoch; `None` for any other text.
pub uninterp spec fn rfc3339_nanos(text: Seq<char>) -> Option<i128>;

/// The identifier that a UUID text stands for, in any of the notations that are read.
pub uninterp spec fn uuid_of_text(text: Seq<char>) -> Option<u128>;

/// The parts of an absolute URL, `None` for a text that is none.
pub uninterp spec fn parsed_uri(text: Seq<char>) -> Option<UriView>;

/// The fields of an `application/x-www-form-urlencoded` text.
pub uninterp spec fn form_fields(text: Seq<char>) -> Seq<(Seq<char>, Seq<char>)>;

/// The canonical text of a UUID: 32 lower-case hexadecimal digits in groups of 8, 4, 4, 4 and 12.
pub open spec fn uuid_text(id: u128) -> Seq<char> {
    let digits = hex_text(be_bytes(id as nat, 16));
    digits.subrange(0, 8) + seq!['-'] + digits.subrange(8, 12) + seq!['-'] + digits.subrange(12, 16)
        + seq!['-'] + digits.subrange(16, 20) + seq!['-'] + digits.subrange(20, 32)
}

/// The host of a URL.
pub enum UriHost {
    Domain(String),
    Ipv4([u8; 4]),
    Ipv6([u8; 16]),
}

/// The parts of a URL.
pub struct UriParts {
    pub scheme: String,
    pub username: String,
    pub password: Option<String>,
    pub host: Option<UriHost>,
    pub path: String,
    pub query: Option<String>,
    pub fragment: Option<String>,
}

pub enum HostView {
    Domain(Seq<char>),
    Ipv4(Seq<u8>),
    Ipv6(Seq<u8>),
}

pub struct UriView {
    pub scheme: Seq<char>,
    pub username: Seq<char>,
    pub password: Option<Seq<char>>,
    pub host: Option<HostView>,
    pub path: Seq<char>,
    pub query: Option<Seq<char>>,
    pub fragment: Option<Seq<char>>,
}

impl View for UriHost {
    type V = HostView;

    open spec fn view(&self) -> HostView {
        match *self {
            UriHost::Domain(name) => HostView::Domain(name@),
            UriHost::Ipv4(octets) => HostView::Ipv4(octets@),
            UriHost::Ipv6(octets) => HostView::Ipv6(octets@),
        }
    }
}

impl View for UriParts {
    type V = UriView;

    open spec fn view(&self) -> UriView {
        UriView {
            scheme: self.scheme@,
            username: self.username@,
            password: optional_text(self.password),
            host: match self.host {
                Some(host) => Some(host@),
                None => None,
            },
            path: self.path@,
            query: optional_text(self.query),
            fragment: optional_text(self.fragment),
        }
    }
}

/// The texts of a vector of pairs.
pub open spec fn text_pairs(pairs: Seq<(String, String)>) -> Seq<(Seq<char>, Seq<char>)> {
    Seq::new(pairs.len(), |i: int| (pairs[i].0@, pairs[i].1@))
}

/// `base64::Engine::encode` of `URL_SAFE_NO_PAD`. The text is named, and it decodes to the bytes
/// again. The crate panics only where the size of the text overflows, which the bound rules out.
#[verifier::external_body]
pub(crate) fn base64url_encode(bytes: &[u8]) -> (res: String)
    requires
        bytes@.len() <= BASE64_MAX_INPUT,
    ensures
        res@ == base64url_text(bytes@),
        base64url_bytes(res@) == Some(bytes@),
{
    URL_SAFE_NO_PAD.encode(bytes)
}

/// `base64::Engine::decode` of `URL_SAFE_NO_PAD`. The result is named.
#[verifier::external_body]
pub(crate) fn base64url_decode(text: &str) -> (res: Option<Vec<u8>>)
    ensures
        match res {
            Some(bytes) => base64url_bytes(text@) == Some(bytes@),
            None => base64url_bytes(text@) is None,
        },
{
    URL_SAFE_NO_PAD.decode(text).ok()
}

/// `time::OffsetDateTime::from_unix_timestamp_nanos` and `format` with `Rfc3339`. The text is
/// named. From the epoch on, exactly the years up to 9999 have a text, and it parses to the moment
/// again; of earlier moments no more is stated.
#[verifier::external_body]
pub(crate) fn rfc3339_format(nanos: i128) -> (res: Option<String>)
    ensures
        match res {
            Some(text) => {
                &&& rfc3339_text(nanos) == Some(text@)
                &&& nanos >= 0 ==> rfc3339_nanos(text@) == Some(nanos)
            },
            None => rfc3339_text(nanos) is None,
        },
        nanos >= 0 ==> (res is Some <==> nanos < RFC3339_END),
{
    OffsetDateTime::from_unix_timestamp_nanos(nanos).ok()?.format(&Rfc3339).ok()
}

/// `time::OffsetDateTime::parse` with `Rfc3339` and `unix_timestamp_nanos`. The result is named.
#[verifier::external_body]
pub(crate) fn rfc3339_parse(text: &str) -> (res: Option<i128>)
    ensures
        res == rfc3339_nanos(text@),
{
    Some(OffsetDateTime::parse(text, &Rfc3339).ok()?.unix_timestamp_nanos())
}

/// `uuid::Uuid::to_string`: the canonical text, which parses to the identifier again.
#[verifier::external_body]
pub(crate) fn uuid_to_text(id: u128) -> (res: String)
    ensures
        res@ == uuid_text(id),
        uuid_of_text(res@) == Some(id),
{
    Uuid::from_u128(id).to_string()
}

/// `uuid::Uuid::parse_str`. The result is named.
#[verifier::external_body]
pub(crate) fn uuid_parse(text: &str) -> (res: Option<u128>)
    ensures
        res == uuid_of_text(text@),
{
    Some(Uuid::parse_str(text).ok()?.as_u128())
}

/// The operating system's randomness gave this identifier.
pub open(crate) spec fn drawn_uuid(id: u128) -> bool {
    call_ensures(uuid_random, (), id)
}

/// `uuid::Uuid::new_v4`: a random identifier. Nothing is claimed of it.
#[verifier::external_body]
pub(crate) fn uuid_random() -> u128 {
    Uuid::new_v4().as_u128()
}

/// `url::Url::parse` and the accessors of its parts. The result is named.
#[verifier::external_body]
pub(crate) fn uri_parse(text: &str) -> (res: Option<UriParts>)
    ensures
        match res {
            Some(parts) => parsed_uri(text@) == Some(parts@),
            None => parsed_uri(text@) is None,
        },
{
    let url = Url::parse(text).ok()?;
    Some(UriParts {
        scheme: url.scheme().into(),
        username: url.username().into(),
        password: url.password().map(str::to_owned),
        host: url.host().map(|host| match host {
            Host::Domain(name) => UriHost::Domain(name.into()),
            Host::Ipv4(address) => UriHost::Ipv4(address.octets()),
            Host::Ipv6(address) => UriHost::Ipv6(address.octets()),
        }),
        path: url.path().into(),
        query: url.query().map(str::to_owned),
        fragment: url.fragment().map(str::to_owned),
    })
}

/// `url::form_urlencoded::parse`. The fields are named.
#[verifier::external_body]
pub(crate) fn form_parse(text: &str) -> (res: Vec<(String, String)>)
    ensures
        text_pairs(res@) == form_fields(text@),
{
    form_urlencoded::parse(text.as_bytes()).into_owned().collect()
}

/// Drawn identifiers are those that the operating system's randomness gave.
pub(crate) proof fn identifiers_come_from_the_system(id: u128)
    ensures
        drawn_uuid(id) <==> call_ensures(uuid_random, (), id),
{
}

} // verus!
