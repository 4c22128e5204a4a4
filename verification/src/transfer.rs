//! Session-secret handling and fail-closed download persistence.
pub mod laws;

use crate::formats::{
    form_fields, form_parse, parsed_uri, text_pairs, uri_parse, uuid_text, uuid_to_text, HostView,
    UriHost, UriParts, UriView,
};
use crate::secrets::SecretText;
use crate::std_text::{debug_quoted, quote_text};
use crate::text::{
    all_graphic, all_tokens, chars_of, contains_control, find_char, first_position, has_control,
    only_graphic, only_tokens, same_ignoring_ascii_case, same_text, same_text_ignoring_ascii_case,
};
use vstd::prelude::*;
use vstd::string::*;
use vstd::utf8::*;

verus! {

pub const MAX_FILES_PER_TUNNEL: u16 = 10;

pub const MAX_FILE_BYTES: u64 = 52_428_800;

pub const MAX_FILE_NAME_BYTES: usize = 255;

pub const MAX_MEDIA_TYPE_BYTES: usize = 128;

pub const MAX_CREATED_AT_BYTES: usize = 64;

pub const MAX_PAIRING_URI_BYTES: usize = 2_048;

/// Names that Windows keeps for devices, whatever follows the first dot.
pub const RESERVED_NAMES: [&'static str; 22] = [
    "CON", "PRN", "AUX", "NUL", "COM1", "COM2", "COM3", "COM4", "COM5", "COM6", "COM7", "COM8",
    "COM9", "LPT1", "LPT2", "LPT3", "LPT4", "LPT5", "LPT6", "LPT7", "LPT8", "LPT9",
];

/// A tunnel as the server describes it on creation.
#[derive(Debug, PartialEq, Eq)]
pub struct Tunnel {
    pub tunnel_id: u128,
    pub pairing_uri: String,
    pub desktop_capability: String,
    pub expires_at: String,
    pub status: String,
}

pub struct TunnelView {
    pub tunnel_id: u128,
    pub pairing_uri: Seq<char>,
    pub desktop_capability: Seq<char>,
    pub expires_at: Seq<char>,
    pub status: Seq<char>,
}

impl View for Tunnel {
    type V = TunnelView;

    open spec fn view(&self) -> TunnelView {
        TunnelView {
            tunnel_id: self.tunnel_id,
            pairing_uri: self.pairing_uri@,
            desktop_capability: self.desktop_capability@,
            expires_at: self.expires_at@,
            status: self.status@,
        }
    }
}

/// A file as the server lists it in a tunnel.
#[derive(Debug, PartialEq, Eq)]
pub struct FileDescriptor {
    pub file_id: u128,
    pub name: String,
    pub media_type: String,
    pub size_bytes: u64,
    pub bytes_transferred: u64,
    pub status: String,
    pub created_at: String,
}

pub struct FileView {
    pub file_id: u128,
    pub name: Seq<char>,
    pub media_type: Seq<char>,
    pub size_bytes: u64,
    pub bytes_transferred: u64,
    pub status: Seq<char>,
    pub created_at: Seq<char>,
}

impl View for FileDescriptor {
    type V = FileView;

    open spec fn view(&self) -> FileView {
        FileView {
            file_id: self.file_id,
            name: self.name@,
            media_type: self.media_type@,
            size_bytes: self.size_bytes,
            bytes_transferred: self.bytes_transferred,
            status: self.status@,
            created_at: self.created_at@,
        }
    }
}

impl Clone for FileDescriptor {
    fn clone(&self) -> (res: Self)
        ensures
            res@ == self@,
    {
        FileDescriptor {
            file_id: self.file_id,
            name: self.name.clone(),
            media_type: self.media_type.clone(),
            size_bytes: self.size_bytes,
            bytes_transferred: self.bytes_transferred,
            status: self.status.clone(),
            created_at: self.created_at.clone(),
        }
    }
}

/// The files of a slice.
pub open spec fn files_view(files: Seq<FileDescriptor>) -> Seq<FileView> {
    Seq::new(files.len(), |i: int| files[i]@)
}

#[derive(Clone, Copy, Debug, Eq, PartialEq, Structural)]
pub enum SessionError {
    InvalidTunnel,
}

impl SessionError {
    pub fn message(&self) -> (res: &'static str)
        ensures
            res@ == "server returned a tunnel outside the desktop receive contract"@,
    {
        "server returned a tunnel outside the desktop receive contract"
    }
}

#[derive(Debug, Eq, PartialEq)]
pub enum SaveError {
    UnsafeFileName,
    InvalidMetadata,
    SizeMismatch,
    MissingOutputDirectory,
    /// The file system refused, for the reason given.
    Io(String),
}

/// The sentence shown for an error. It ends with the file system's reason where there is one.
pub open spec fn save_error_text(error: SaveError) -> Seq<char> {
    match error {
        SaveError::UnsafeFileName => "server returned an unsafe file name"@,
        SaveError::InvalidMetadata => "file metadata is outside the desktop receive contract"@,
        SaveError::SizeMismatch => "downloaded byte count did not match the declaration"@,
        SaveError::MissingOutputDirectory => "output directory does not exist"@,
        SaveError::Io(reason) => "cannot persist the downloaded file: "@ + reason@,
    }
}

impl SaveError {
    pub fn message(&self) -> (res: String)
        ensures
            res@ == save_error_text(*self),
    {
        match self {
            SaveError::UnsafeFileName => "server returned an unsafe file name".to_owned(),
            SaveError::InvalidMetadata =>
                "file metadata is outside the desktop receive contract".to_owned(),
            SaveError::SizeMismatch =>
                "downloaded byte count did not match the declaration".to_owned(),
            SaveError::MissingOutputDirectory => "output directory does not exist".to_owned(),
            SaveError::Io(reason) =>
                "cannot persist the downloaded file: ".to_owned().concat(reason.as_str()),
        }
    }
}

#[derive(Clone, Copy, Debug, Eq, PartialEq, Structural)]
pub enum DescriptorError {
    TooManyFiles,
    DuplicateFileId,
    InvalidMetadata,
}

/// The sentence shown for an error.
pub open spec fn descriptor_error_text(error: DescriptorError) -> Seq<char> {
    match error {
        DescriptorError::TooManyFiles => "snapshot contains too many files"@,
        DescriptorError::DuplicateFileId => "snapshot contains duplicate file identifiers"@,
        DescriptorError::InvalidMetadata =>
            "file metadata is outside the desktop receive contract"@,
    }
}

impl DescriptorError {
    pub fn message(&self) -> (res: &'static str)
        ensures
            res@ == descriptor_error_text(*self),
    {
        match self {
            DescriptorError::TooManyFiles => "snapshot contains too many files",
            DescriptorError::DuplicateFileId => "snapshot contains duplicate file identifiers",
            DescriptorError::InvalidMetadata =>
                "file metadata is outside the desktop receive contract",
        }
    }
}

/// A bearer secret: 32 to 512 ASCII letters, digits, `-` and `_`.
pub open spec fn bounded_secret(secret: Seq<char>) -> bool {
    32 <= secret.len() <= 512 && all_tokens(secret)
}

/// A text of 1 to `max` bytes without control characters.
pub open spec fn bounded_line(text: Seq<char>, max: nat) -> bool {
    1 <= encode_utf8(text).len() <= max && !has_control(text)
}

/// A host that only this machine answers for.
pub open spec fn loopback(host: HostView) -> bool {
    match host {
        HostView::Domain(name) => same_ignoring_ascii_case(name, "localhost"@),
        HostView::Ipv4(octets) => octets[0] == 127,
        HostView::Ipv6(octets) => (forall|i: int| 0 <= i < 15 ==> #[trigger] octets[i] == 0)
            && octets[15] == 1,
    }
}

/// The pairing secret must not cross the network in the clear.
pub open spec fn secure_origin(uri: UriView) -> bool {
    match uri.host {
        None => false,
        Some(host) => uri.scheme == "https"@ || (uri.scheme == "http"@ && loopback(host)),
    }
}

/// The path that pairs with a tunnel.
pub open spec fn tunnel_path(tunnel_id: u128) -> Seq<char> {
    "/t/"@ + uuid_text(tunnel_id)
}

/// The desktop receive contract for a tunnel whose pairing URI has these parts and these fields
/// in its fragment.
pub open spec fn tunnel_contract(
    tunnel: TunnelView,
    uri: UriView,
    fields: Seq<(Seq<char>, Seq<char>)>,
) -> bool {
    &&& tunnel.tunnel_id != 0
    &&& tunnel.status == "waiting"@
    &&& encode_utf8(tunnel.pairing_uri).len() <= MAX_PAIRING_URI_BYTES
    &&& !has_control(tunnel.pairing_uri)
    &&& secure_origin(uri)
    &&& uri.username.len() == 0
    &&& uri.password is None
    &&& uri.query is None
    &&& uri.path == tunnel_path(tunnel.tunnel_id)
    &&& fields.len() == 1 && fields[0].0 == "c"@ && bounded_secret(fields[0].1)
    &&& bounded_secret(tunnel.desktop_capability)
    &&& bounded_line(tunnel.expires_at, 64)
}

/// The fields in a URL's fragment.
pub open spec fn fragment_fields(uri: UriView) -> Seq<(Seq<char>, Seq<char>)> {
    match uri.fragment {
        Some(fragment) => form_fields(fragment),
        None => Seq::empty(),
    }
}

/// A tunnel that a desktop may receive through.
pub open spec fn valid_tunnel(tunnel: TunnelView) -> bool {
    parsed_uri(tunnel.pairing_uri) matches Some(uri) && tunnel_contract(
        tunnel,
        uri,
        fragment_fields(uri),
    )
}

/// Whether a text is a bearer secret.
pub fn is_bounded_secret(secret: &str) -> (res: bool)
    ensures
        res == bounded_secret(secret@),
{
    let length: usize = secret.unicode_len();
    32 <= length && length <= 512 && only_tokens(secret)
}

/// Whether a text has 1 to `max` bytes and no control characters.
pub fn is_bounded_line(text: &str, max: usize) -> (res: bool)
    ensures
        res == bounded_line(text@, max as nat),
{
    let length: usize = text.as_bytes().len();
    1 <= length && length <= max && !contains_control(text)
}

/// Whether only this machine answers for a host.
pub fn is_loopback(host: &UriHost) -> (res: bool)
    ensures
        res == loopback(host@),
{
    match host {
        UriHost::Domain(name) => same_text_ignoring_ascii_case(name.as_str(), "localhost"),
        UriHost::Ipv4(octets) => octets[0] == 127,
        UriHost::Ipv6(octets) => {
            let mut i: usize = 0;
            while i < 15
                invariant
                    i <= 15,
                    host@ == HostView::Ipv6(octets@),
                    forall|j: int| 0 <= j < i ==> octets@[j] == 0,
                decreases 15 - i,
            {
                if octets[i] != 0 {
                    assert(octets@[i as int] != 0);
                    return false;
                }
                i += 1;
            }
            octets[15] == 1
        },
    }
}

/// Whether a URL's origin keeps the pairing secret off the network or encrypted on it.
pub fn has_secure_origin(uri: &UriParts) -> (res: bool)
    ensures
        res == secure_origin(uri@),
{
    match &uri.host {
        None => false,
        Some(host) => same_text(uri.scheme.as_str(), "https") || (same_text(
            uri.scheme.as_str(),
            "http",
        ) && is_loopback(host)),
    }
}

/// Whether a tunnel keeps the contract, given the parts of its pairing URI and the fields in its
/// fragment.
pub fn check_tunnel(tunnel: &Tunnel, uri: &UriParts, fields: &Vec<(String, String)>) -> (res: bool)
    ensures
        res == tunnel_contract(tunnel@, uri@, text_pairs(fields@)),
{
    let expected_path = "/t/".to_owned().concat(uuid_to_text(tunnel.tunnel_id).as_str());
    let path_matches = same_text(uri.path.as_str(), expected_path.as_str());
    let pairing_secret_is_bounded = fields.len() == 1 && same_text(fields[0].0.as_str(), "c")
        && is_bounded_secret(fields[0].1.as_str());
    tunnel.tunnel_id != 0 && same_text(tunnel.status.as_str(), "waiting")
        && tunnel.pairing_uri.as_str().as_bytes().len() <= MAX_PAIRING_URI_BYTES
        && !contains_control(tunnel.pairing_uri.as_str()) && has_secure_origin(uri)
        && uri.username.as_str().unicode_len() == 0 && uri.password.is_none()
        && uri.query.is_none() && path_matches && pairing_secret_is_bounded
        && is_bounded_secret(tunnel.desktop_capability.as_str()) && is_bounded_line(
        tunnel.expires_at.as_str(),
        64,
    )
}

/// Whether a desktop may receive through a tunnel.
pub fn validate_tunnel(tunnel: &Tunnel) -> (res: Result<(), SessionError>)
    ensures
        res == (if valid_tunnel(tunnel@) {
            Ok(())
        } else {
            Err(SessionError::InvalidTunnel)
        }),
{
    let uri = match uri_parse(tunnel.pairing_uri.as_str()) {
        Some(uri) => uri,
        None => return Err(SessionError::InvalidTunnel),
    };
    let fields = match &uri.fragment {
        Some(fragment) => form_parse(fragment.as_str()),
        None => Vec::new(),
    };
    assert(text_pairs(fields@) =~= fragment_fields(uri@));
    if check_tunnel(tunnel, &uri, &fields) {
        Ok(())
    } else {
        Err(SessionError::InvalidTunnel)
    }
}

/// A desktop receive session. Credentials are process-only and zeroized when the session is
/// replaced, cancelled, or the process exits.
pub struct ReceiveSession {
    pub tunnel_id: u128,
    pub expires_at: String,
    pairing_uri: SecretText,
    desktop_capability: SecretText,
}

#[verifier::ext_equal]
pub struct ReceiveSessionView {
    pub tunnel_id: u128,
    pub expires_at: Seq<char>,
    pub pairing_uri: Seq<char>,
    pub desktop_capability: Seq<char>,
}

impl View for ReceiveSession {
    type V = ReceiveSessionView;

    closed spec fn view(&self) -> ReceiveSessionView {
        ReceiveSessionView {
            tunnel_id: self.tunnel_id,
            expires_at: self.expires_at@,
            pairing_uri: self.pairing_uri@,
            desktop_capability: self.desktop_capability@,
        }
    }
}

/// The session that a tunnel opens.
pub open spec fn session_of(tunnel: TunnelView) -> ReceiveSessionView {
    ReceiveSessionView {
        tunnel_id: tunnel.tunnel_id,
        expires_at: tunnel.expires_at,
        pairing_uri: tunnel.pairing_uri,
        desktop_capability: tunnel.desktop_capability,
    }
}

/// How a session is written to a log: without its credentials.
pub open spec fn redacted_text(tunnel_id: u128, expires_at: Seq<char>) -> Seq<char> {
    "ReceiveSession { tunnel_id: "@ + uuid_text(tunnel_id) + ", expires_at: "@ + debug_quoted(
        expires_at,
    ) + ", pairing_uri: \"[REDACTED]\", desktop_capability: \"[REDACTED]\" }"@
}

impl ReceiveSession {
    pub fn from_tunnel(tunnel: Tunnel) -> (res: Result<Self, SessionError>)
        ensures
            match res {
                Ok(session) => valid_tunnel(tunnel@) && session@ == session_of(tunnel@),
                Err(error) => !valid_tunnel(tunnel@) && error == SessionError::InvalidTunnel,
            },
    {
        match validate_tunnel(&tunnel) {
            Ok(()) => (),
            Err(error) => return Err(error),
        }
        Ok(
            ReceiveSession {
                tunnel_id: tunnel.tunnel_id,
                expires_at: tunnel.expires_at,
                pairing_uri: SecretText::new(tunnel.pairing_uri),
                desktop_capability: SecretText::new(tunnel.desktop_capability),
            },
        )
    }

    pub fn id(&self) -> (res: u128)
        ensures
            res == self@.tunnel_id,
    {
        self.tunnel_id
    }

    pub fn pairing_uri(&self) -> (res: &str)
        ensures
            res@ == self@.pairing_uri,
    {
        self.pairing_uri.as_str()
    }

    pub fn capability(&self) -> (res: &str)
        ensures
            res@ == self@.desktop_capability,
    {
        self.desktop_capability.as_str()
    }

    /// The session for a log. Neither credential has a part in the text.
    pub fn redacted(&self) -> (res: String)
        ensures
            res@ == redacted_text(self@.tunnel_id, self@.expires_at),
    {
        let quoted = quote_text(self.expires_at.as_str());
        join_redacted(self.tunnel_id, quoted.as_str())
    }
}

/// The log line of a session whose quoted expiry is given.
pub fn join_redacted(tunnel_id: u128, quoted_expiry: &str) -> (res: String)
    ensures
        res@ == "ReceiveSession { tunnel_id: "@ + uuid_text(tunnel_id) + ", expires_at: "@
            + quoted_expiry@
            + ", pairing_uri: \"[REDACTED]\", desktop_capability: \"[REDACTED]\" }"@,
{
    let mut text = "ReceiveSession { tunnel_id: ".to_owned();
    text.append(uuid_to_text(tunnel_id).as_str());
    text.append(", expires_at: ");
    text.append(quoted_expiry);
    text.append(", pairing_uri: \"[REDACTED]\", desktop_capability: \"[REDACTED]\" }");
    text
}

/// A character that some file system gives a meaning in paths.
pub open spec fn is_path_punctuation(c: char) -> bool {
    c == '\\' || c == ':' || c == '*' || c == '?' || c == '"' || c == '<' || c == '>' || c == '|'
}

pub open spec fn has_path_punctuation(name: Seq<char>) -> bool {
    exists|i: int| 0 <= i < name.len() && is_path_punctuation(#[trigger] name[i])
}

/// What stands before the first dot.
pub open spec fn stem(name: Seq<char>) -> Seq<char> {
    name.take(first_position(name, '.'))
}

pub open spec fn is_reserved(name: Seq<char>) -> bool {
    exists|i: int|
        0 <= i < RESERVED_NAMES@.len() && same_ignoring_ascii_case(
            stem(name),
            (#[trigger] RESERVED_NAMES@[i])@,
        )
}

/// A name without control characters, path punctuation, a trailing space or dot, and a reserved
/// stem.
pub open spec fn portable_name(name: Seq<char>) -> bool {
    &&& bounded_line(name, MAX_FILE_NAME_BYTES as nat)
    &&& !has_path_punctuation(name)
    &&& name.last() != ' ' && name.last() != '.'
    &&& !is_reserved(name)
}

/// Only slashes, and dots alone between slashes, stand from `start` on: nothing there names a
/// file.
pub open spec fn names_nothing(name: Seq<char>, start: int) -> bool {
    forall|i: int|
        start <= i < name.len() ==> #[trigger] name[i] == '/' || (name[i] == '.' && name[i - 1]
            == '/' && (i + 1 == name.len() || name[i + 1] == '/'))
}

/// The single plain file name that a declared name comes to, `None` where it comes to none.
pub open spec fn destination(name: Seq<char>) -> Option<Seq<char>> {
    let slash = first_position(name, '/');
    let component = name.take(slash);
    if !portable_name(name) || slash == 0 || component == "."@ || component == ".."@
        || !names_nothing(name, slash) {
        None
    } else {
        Some(component)
    }
}

/// Whether a name is portable.
fn is_portable_name(name: &str) -> (res: bool)
    ensures
        res == portable_name(name@),
{
    if !is_bounded_line(name, MAX_FILE_NAME_BYTES) {
        return false;
    }
    let chars = chars_of(name);
    proof {
        if chars@.len() == 0 {
            assert(encode_utf8(name@).len() == 0);
        }
    }
    let mut i: usize = 0;
    while i < chars.len()
        invariant
            i <= chars@.len(),
            chars@ == name@,
            forall|j: int| 0 <= j < i ==> !is_path_punctuation(#[trigger] name@[j]),
        decreases chars@.len() - i,
    {
        let c = chars[i];
        if c == '\\' || c == ':' || c == '*' || c == '?' || c == '"' || c == '<' || c == '>' || c
            == '|' {
            assert(is_path_punctuation(name@[i as int]));
            return false;
        }
        i += 1;
    }
    let last = chars[chars.len() - 1];
    if last == ' ' || last == '.' {
        return false;
    }
    let dot: usize = find_char(&chars, '.');
    let windows_stem = name.substring_char(0, dot);
    assert(windows_stem@ =~= stem(name@));
    let mut k: usize = 0;
    while k < 22
        invariant
            k <= 22,
            windows_stem@ == stem(name@),
            forall|j: int|
                0 <= j < k ==> !same_ignoring_ascii_case(
                    stem(name@),
                    (#[trigger] RESERVED_NAMES@[j])@,
                ),
        decreases 22 - k,
    {
        if same_text_ignoring_ascii_case(windows_stem, RESERVED_NAMES[k]) {
            assert(same_ignoring_ascii_case(stem(name@), RESERVED_NAMES@[k as int]@));
            return false;
        }
        k += 1;
    }
    true
}

/// The plain file name to save a file of that declared name under.
pub fn safe_default_destination(name: &str) -> (res: Result<String, SaveError>)
    ensures
        match res {
            Ok(component) => destination(name@) == Some(component@),
            Err(error) => destination(name@) is None && error == SaveError::UnsafeFileName,
        },
{
    if !is_portable_name(name) {
        return Err(SaveError::UnsafeFileName);
    }
    let chars = chars_of(name);
    let slash: usize = find_char(&chars, '/');
    let component = name.substring_char(0, slash);
    assert(component@ =~= name@.take(slash as int));
    if slash == 0 || same_text(component, ".") || same_text(component, "..") {
        return Err(SaveError::UnsafeFileName);
    }
    let mut i: usize = slash;
    while i < chars.len()
        invariant
            0 < slash <= i <= chars@.len(),
            chars@ == name@,
            slash == first_position(name@, '/'),
            forall|j: int|
                slash <= j < i ==> #[trigger] name@[j] == '/' || (name@[j] == '.' && name@[j - 1]
                    == '/' && (j + 1 == name@.len() || name@[j + 1] == '/')),
        decreases chars@.len() - i,
    {
        let alone = chars[i] == '.' && chars[i - 1] == '/' && (i + 1 == chars.len() || chars[i + 1]
            == '/');
        if chars[i] != '/' && !alone {
            assert(!names_nothing(name@, slash as int)) by {
                assert(name@[i as int] != '/');
            }
            return Err(SaveError::UnsafeFileName);
        }
        i += 1;
    }
    Ok(component.to_owned())
}

/// The progress of a file that the server reports.
#[derive(Clone, Copy, Debug, Eq, PartialEq, Structural)]
pub enum FileStatus {
    Declared,
    Uploading,
    Available,
    Downloaded,
    Rejected,
    Cancelled,
}

/// The word for a status.
pub open spec fn status_word(status: FileStatus) -> Seq<char> {
    match status {
        FileStatus::Declared => "declared"@,
        FileStatus::Uploading => "uploading"@,
        FileStatus::Available => "available"@,
        FileStatus::Downloaded => "downloaded"@,
        FileStatus::Rejected => "rejected"@,
        FileStatus::Cancelled => "cancelled"@,
    }
}

/// The status that a word stands for, `None` for any other word.
pub open spec fn status_of(word: Seq<char>) -> Option<FileStatus> {
    if word == "declared"@ {
        Some(FileStatus::Declared)
    } else if word == "uploading"@ {
        Some(FileStatus::Uploading)
    } else if word == "available"@ {
        Some(FileStatus::Available)
    } else if word == "downloaded"@ {
        Some(FileStatus::Downloaded)
    } else if word == "rejected"@ {
        Some(FileStatus::Rejected)
    } else if word == "cancelled"@ {
        Some(FileStatus::Cancelled)
    } else {
        None
    }
}

/// Every status is read from its own word.
pub proof fn statuses_are_read_from_their_words(status: FileStatus)
    ensures
        status_of(status_word(status)) == Some(status),
{
    reveal_strlit("declared");
    reveal_strlit("uploading");
    reveal_strlit("available");
    reveal_strlit("downloaded");
    reveal_strlit("rejected");
    reveal_strlit("cancelled");
    assert("declared"@[0] == 'd' && "declared"@[1] == 'e');
    assert("uploading"@[0] == 'u');
    assert("available"@[0] == 'a');
    assert("downloaded"@[0] == 'd' && "downloaded"@[1] == 'o');
    assert("rejected"@[0] == 'r');
    assert("cancelled"@[0] == 'c');
}

impl FileStatus {
    /// The status that a word stands for.
    pub fn decode(word: &str) -> (res: Option<Self>)
        ensures
            res == status_of(word@),
    {
        if same_text(word, "declared") {
            Some(FileStatus::Declared)
        } else if same_text(word, "uploading") {
            Some(FileStatus::Uploading)
        } else if same_text(word, "available") {
            Some(FileStatus::Available)
        } else if same_text(word, "downloaded") {
            Some(FileStatus::Downloaded)
        } else if same_text(word, "rejected") {
            Some(FileStatus::Rejected)
        } else if same_text(word, "cancelled") {
            Some(FileStatus::Cancelled)
        } else {
            None
        }
    }
}

/// Metadata that the desktop accepts for a file.
pub open spec fn valid_descriptor(file: FileView) -> bool {
    &&& file.file_id != 0
    &&& bounded_line(file.name, MAX_FILE_NAME_BYTES as nat)
    &&& destination(file.name) is Some
    &&& 1 <= encode_utf8(file.media_type).len() <= MAX_MEDIA_TYPE_BYTES
    &&& all_graphic(file.media_type)
    &&& status_of(file.status) is Some
    &&& file.size_bytes <= MAX_FILE_BYTES
    &&& file.bytes_transferred <= file.size_bytes
    &&& bounded_line(file.created_at, MAX_CREATED_AT_BYTES as nat)
}

/// Whether the desktop accepts a file's metadata.
pub fn validate_file_descriptor(file: &FileDescriptor) -> (res: Result<(), DescriptorError>)
    ensures
        res == (if valid_descriptor(file@) {
            Ok(())
        } else {
            Err(DescriptorError::InvalidMetadata)
        }),
        res is Ok ==> file.file_id != 0 && file.bytes_transferred <= file.size_bytes
            && file.size_bytes <= 52_428_800,
{
    let valid_name = is_bounded_line(file.name.as_str(), MAX_FILE_NAME_BYTES)
        && safe_default_destination(file.name.as_str()).is_ok();
    let media_len: usize = file.media_type.as_str().as_bytes().len();
    let valid_media_type = 1 <= media_len && media_len <= MAX_MEDIA_TYPE_BYTES && only_graphic(
        file.media_type.as_str(),
    );
    let valid_status = FileStatus::decode(file.status.as_str()).is_some();
    let valid_sizes = file.size_bytes <= MAX_FILE_BYTES && file.bytes_transferred
        <= file.size_bytes;
    let valid_created_at = is_bounded_line(file.created_at.as_str(), MAX_CREATED_AT_BYTES);
    if file.file_id != 0 && valid_name && valid_media_type && valid_status && valid_sizes
        && valid_created_at {
        Ok(())
    } else {
        Err(DescriptorError::InvalidMetadata)
    }
}

/// Whether one of the first `n` files has that identifier.
pub open spec fn listed_before(files: Seq<FileView>, n: int, file_id: u128) -> bool {
    exists|i: int| 0 <= i < n && (#[trigger] files[i]).file_id == file_id
}

/// What the first offending file among the first `n` offends against, `None` where none does.
pub open spec fn first_offence(files: Seq<FileView>, n: nat) -> Option<DescriptorError>
    decreases n,
{
    if n == 0 {
        None
    } else {
        let last = files[n - 1];
        match first_offence(files, (n - 1) as nat) {
            Some(error) => Some(error),
            None => if !valid_descriptor(last) {
                Some(DescriptorError::InvalidMetadata)
            } else if listed_before(files, n - 1, last.file_id) {
                Some(DescriptorError::DuplicateFileId)
            } else {
                None
            },
        }
    }
}

/// What a list of files is refused for, if it is.
pub open spec fn snapshot_error(files: Seq<FileView>) -> Option<DescriptorError> {
    if files.len() > MAX_FILES_PER_TUNNEL {
        Some(DescriptorError::TooManyFiles)
    } else {
        first_offence(files, files.len())
    }
}

pub(crate) proof fn lemma_first_offence_stays(files: Seq<FileView>, m: nat, n: nat)
    requires
        m <= n,
        first_offence(files, m) is Some,
    ensures
        first_offence(files, n) == first_offence(files, m),
    decreases n,
{
    if m < n {
        lemma_first_offence_stays(files, m, (n - 1) as nat);
    }
}

pub(crate) proof fn lemma_no_offence(files: Seq<FileView>, n: nat)
    requires
        n <= files.len(),
    ensures
        first_offence(files, n) is None <==> {
            &&& forall|i: int| 0 <= i < n ==> valid_descriptor(#[trigger] files[i])
            &&& forall|i: int, j: int|
                0 <= i < j < n ==> (#[trigger] files[i]).file_id != (#[trigger] files[j]).file_id
        },
    decreases n,
{
    if n > 0 {
        lemma_no_offence(files, (n - 1) as nat);
        if first_offence(files, n) is None {
            assert(!listed_before(files, n - 1, files[n - 1].file_id));
            assert forall|i: int, j: int| 0 <= i < j < n implies (#[trigger] files[i]).file_id != (
            #[trigger] files[j]).file_id by {
                if j == n - 1 {
                    assert(files[i].file_id != files[n - 1].file_id);
                }
            }
        } else if first_offence(files, (n - 1) as nat) is None && valid_descriptor(files[n - 1]) {
            let i = choose|i: int|
                0 <= i < n - 1 && (#[trigger] files[i]).file_id == files[n - 1].file_id;
            assert(files[i].file_id == files[n - 1].file_id);
        }
    }
}

/// A list of files is accepted exactly where it is short enough, every file's metadata is valid
/// and no two files share an identifier.
pub proof fn accepted_snapshots_are_bounded_valid_and_distinct(files: Seq<FileView>)
    ensures
        snapshot_error(files) is None <==> {
            &&& files.len() <= MAX_FILES_PER_TUNNEL
            &&& forall|i: int| 0 <= i < files.len() ==> valid_descriptor(#[trigger] files[i])
            &&& forall|i: int, j: int|
                0 <= i < j < files.len() ==> (#[trigger] files[i]).file_id != (
                #[trigger] files[j]).file_id
        },
{
    lemma_no_offence(files, files.len());
}

/// Whether the desktop accepts a tunnel's list of files.
pub fn validate_snapshot(files: &[FileDescriptor]) -> (res: Result<(), DescriptorError>)
    ensures
        res == (match snapshot_error(files_view(files@)) {
            Some(error) => Err(error),
            None => Ok(()),
        }),
{
    if files.len() > MAX_FILES_PER_TUNNEL as usize {
        return Err(DescriptorError::TooManyFiles);
    }
    let ghost all = files_view(files@);
    let mut i: usize = 0;
    while i < files.len()
        invariant
            i <= files@.len(),
            all == files_view(files@),
            first_offence(all, i as nat) is None,
            files@.len() <= MAX_FILES_PER_TUNNEL,
        decreases files@.len() - i,
    {
        assert(all[i as int] == files@[i as int]@);
        match validate_file_descriptor(&files[i]) {
            Ok(()) => (),
            Err(error) => {
                proof {
                    lemma_first_offence_stays(all, (i + 1) as nat, all.len());
                }
                return Err(error);
            },
        }
        let mut k: usize = 0;
        while k < i
            invariant
                k <= i < files@.len(),
                all == files_view(files@),
                first_offence(all, i as nat) is None,
                valid_descriptor(all[i as int]),
                files@.len() <= MAX_FILES_PER_TUNNEL,
                forall|j: int| 0 <= j < k ==> (#[trigger] all[j]).file_id != all[i as int].file_id,
            decreases i - k,
        {
            if files[k].file_id == files[i].file_id {
                proof {
                    assert(all[k as int].file_id == all[i as int].file_id);
                    assert(listed_before(all, i as int, all[i as int].file_id));
                    lemma_first_offence_stays(all, (i + 1) as nat, all.len());
                }
                return Err(DescriptorError::DuplicateFileId);
            }
            k += 1;
        }
        i += 1;
    }
    Ok(())
}

/// Where a download goes.
#[derive(Debug, PartialEq, Eq)]
pub enum DownloadTarget {
    /// To the path that the user asked for.
    Requested,
    /// Under this name in the working directory.
    Named(String),
}

pub enum TargetView {
    Requested,
    Named(Seq<char>),
}

impl View for DownloadTarget {
    type V = TargetView;

    open spec fn view(&self) -> TargetView {
        match *self {
            DownloadTarget::Requested => TargetView::Requested,
            DownloadTarget::Named(name) => TargetView::Named(name@),
        }
    }
}

/// What to do with `received` downloaded bytes of a file.
pub open spec fn download_plan(file: FileView, received: nat, requested: bool) -> Result<
    TargetView,
    SaveError,
> {
    if !valid_descriptor(file) {
        Err(SaveError::InvalidMetadata)
    } else if received != file.size_bytes {
        Err(SaveError::SizeMismatch)
    } else if requested {
        Ok(TargetView::Requested)
    } else {
        Ok(TargetView::Named(destination(file.name).unwrap()))
    }
}

/// Check a download against its declaration and choose its target. Nothing may be written before
/// this succeeds.
pub fn plan_download(file: &FileDescriptor, received: usize, requested: bool) -> (res: Result<
    DownloadTarget,
    SaveError,
>)
    ensures
        match res {
            Ok(target) => download_plan(file@, received as nat, requested) == Ok::<_, SaveError>(
                target@,
            ),
            Err(error) => download_plan(file@, received as nat, requested) == Err::<TargetView, _>(
                error,
            ),
        },
{
    if validate_file_descriptor(file).is_err() {
        return Err(SaveError::InvalidMetadata);
    }
    if received as u64 != file.size_bytes {
        return Err(SaveError::SizeMismatch);
    }
    if requested {
        return Ok(DownloadTarget::Requested);
    }
    match safe_default_destination(file.name.as_str()) {
        Ok(name) => Ok(DownloadTarget::Named(name)),
        Err(error) => Err(error),
    }
}

/// A chosen name is one plain path component: not empty, not a dot name, without a separator.
pub proof fn chosen_names_are_plain_components(name: Seq<char>, chosen: Seq<char>)
    requires
        destination(name) == Some(chosen),
    ensures
        chosen.len() > 0,
        chosen != "."@,
        chosen != ".."@,
        !chosen.contains('/'),
        !has_control(chosen),
        !has_path_punctuation(chosen),
{
    lemma_first_position_bounds(name, '/');
    let slash = first_position(name, '/');
    assert forall|i: int| 0 <= i < chosen.len() implies !is_path_punctuation(#[trigger] chosen[i]) by {
        assert(!is_path_punctuation(name[i]));
    }
    assert forall|i: int| 0 <= i < chosen.len() implies !crate::text::is_control_char(
        #[trigger] chosen[i],
    ) by {
        assert(!crate::text::is_control_char(name[i]));
    }
}

proof fn lemma_first_position_bounds(s: Seq<char>, c: char)
    ensures
        0 <= first_position(s, c) <= s.len(),
        forall|i: int| 0 <= i < first_position(s, c) ==> #[trigger] s[i] != c,
    decreases s.len(),
{
    if s.len() > 0 && s[0] != c {
        let rest = s.drop_first();
        lemma_first_position_bounds(rest, c);
        assert forall|i: int| 0 <= i < first_position(s, c) implies #[trigger] s[i] != c by {
            if i > 0 {
                assert(s[i] == rest[i - 1]);
            }
        }
    }
}

} // verus!
