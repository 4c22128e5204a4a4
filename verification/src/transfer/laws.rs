//! What the receive contract accepts, said of the fields and in numbers.
use crate::formats::{form_fields, parsed_uri, uuid_text, HostView, UriView};
use crate::std_text::debug_quoted;
use crate::text::laws::{
    ascii_case_is_all_that_may_differ, character_classes_are_ranges_of_code_points,
    control_characters_are_the_c0_and_c1_codes, first_positions_are_first,
};
use crate::text::same_ignoring_ascii_case;
use crate::transfer::{
    bounded_line, bounded_secret, descriptor_error_text, destination, download_plan, files_view,
    first_offence, has_path_punctuation, is_path_punctuation, is_reserved,
    lemma_first_offence_stays, lemma_no_offence, listed_before, names_nothing, portable_name,
    redacted_text, save_error_text, secure_origin, session_of, snapshot_error, status_of, stem,
    tunnel_contract, valid_descriptor, valid_tunnel, DescriptorError, DownloadTarget,
    FileDescriptor, FileStatus, FileView, SaveError, TargetView, Tunnel, TunnelView,
    RESERVED_NAMES,
};
use vstd::prelude::*;
use vstd::utf8::*;

verus! {

/// A line has 1 to `max` bytes and no code point that is a control code.
pub proof fn lines_are_bounded_and_printable(text: Seq<char>, max: nat)
    ensures
        bounded_line(text, max) <==> 1 <= encode_utf8(text).len() <= max && forall|i: int|
            0 <= i < text.len() ==> (#[trigger] text[i]) as int >= 32 && !(127 <= text[i] as int
                <= 159),
{
    control_characters_are_the_c0_and_c1_codes(text);
}

/// A bearer secret has 32 to 512 characters, each an ASCII letter, a digit, `-` or `_`.
pub proof fn secrets_are_bounded_tokens(secret: Seq<char>)
    ensures
        bounded_secret(secret) <==> 32 <= secret.len() <= 512 && forall|i: int|
            0 <= i < secret.len() ==> {
                let code = (#[trigger] secret[i]) as int;
                48 <= code <= 57 || 65 <= code <= 90 || 97 <= code <= 122 || code == 45 || code
                    == 95
            },
{
    character_classes_are_ranges_of_code_points(secret);
}

/// A file's status is one of six words, each of which stands for the status of its name.
pub proof fn statuses_are_six_words(word: Seq<char>)
    ensures
        status_of(word) is Some <==> word == "declared"@ || word == "uploading"@ || word
            == "available"@ || word == "downloaded"@ || word == "rejected"@ || word == "cancelled"@,
        word == "declared"@ <==> status_of(word) == Some(FileStatus::Declared),
        word == "uploading"@ <==> status_of(word) == Some(FileStatus::Uploading),
        word == "available"@ <==> status_of(word) == Some(FileStatus::Available),
        word == "downloaded"@ <==> status_of(word) == Some(FileStatus::Downloaded),
        word == "rejected"@ <==> status_of(word) == Some(FileStatus::Rejected),
        word == "cancelled"@ <==> status_of(word) == Some(FileStatus::Cancelled),
{
    reveal_strlit("declared");
    reveal_strlit("uploading");
    reveal_strlit("available");
    reveal_strlit("downloaded");
    reveal_strlit("rejected");
    reveal_strlit("cancelled");
    assert("declared"@[0] == 'd' && "declared"@[1] == 'e');
    assert("uploading"@[0] == 'u');
    assert("available"@[0] == 'a');
    assert("downloaded"@[0] == 'd' && "downloaded"@[1] == 'o');
    assert("rejected"@[0] == 'r');
    assert("cancelled"@[0] == 'c');
}

/// A file's metadata is accepted exactly where it has an identifier and a safe name, a media type
/// of 1 to 128 visible ASCII characters, one of the six statuses, at most 52,428,800 bytes of
/// which no more than all were transferred, and a creation time of 1 to 64 bytes without control
/// characters.
pub proof fn files_are_accepted_under_these_conditions(file: FileView)
    ensures
        valid_descriptor(file) <==> {
            &&& file.file_id != 0
            &&& destination(file.name) is Some
            &&& 1 <= encode_utf8(file.media_type).len() <= 128
            &&& forall|i: int|
                0 <= i < file.media_type.len() ==> 33 <= (#[trigger] file.media_type[i]) as int
                    <= 126
            &&& file.status == "declared"@ || file.status == "uploading"@ || file.status
                == "available"@ || file.status == "downloaded"@ || file.status == "rejected"@
                || file.status == "cancelled"@
            &&& file.size_bytes <= 52_428_800
            &&& file.bytes_transferred <= file.size_bytes
            &&& 1 <= encode_utf8(file.created_at).len() <= 64
            &&& forall|i: int|
                0 <= i < file.created_at.len() ==> (#[trigger] file.created_at[i]) as int >= 32
                    && !(127 <= file.created_at[i] as int <= 159)
        },
{
    statuses_are_six_words(file.status);
    character_classes_are_ranges_of_code_points(file.media_type);
    lines_are_bounded_and_printable(file.created_at, 64);
}

/// A file that is otherwise in order is accepted, and its bytes are saved, exactly where it is at
/// most 52,428,800 bytes large.
pub proof fn large_files_are_accepted_up_to_the_limit(file: FileView, other: FileView)
    requires
        valid_descriptor(other),
        file == (FileView { size_bytes: file.size_bytes, ..other }),
        file.bytes_transferred <= file.size_bytes,
    ensures
        valid_descriptor(file) <==> file.size_bytes <= 52_428_800,
        snapshot_error(seq![file]) is None <==> file.size_bytes <= 52_428_800,
        download_plan(file, file.size_bytes as nat, true) is Ok <==> file.size_bytes <= 52_428_800,
{
    files_are_accepted_under_these_conditions(file);
    files_are_accepted_under_these_conditions(other);
    lemma_no_offence(seq![file], 1);
    assert(seq![file][0] == file);
}

/// A name has a portable form under which it can be saved: 1 to 255 bytes without control
/// characters, without the characters that some system gives a meaning in paths, not ending in a
/// space or a dot.
pub proof fn portable_names_are_plain_on_every_system(name: Seq<char>)
    ensures
        portable_name(name) <==> {
            &&& 1 <= encode_utf8(name).len() <= 255
            &&& forall|i: int|
                0 <= i < name.len() ==> {
                    let c = #[trigger] name[i];
                    &&& c as int >= 32 && !(127 <= c as int <= 159)
                    &&& c != '\\' && c != ':' && c != '*' && c != '?' && c != '"' && c != '<' && c
                        != '>' && c != '|'
                }
            &&& name.last() != ' ' && name.last() != '.'
            &&& !is_reserved(name)
        },
{
    lines_are_bounded_and_printable(name, 255);
    if !has_path_punctuation(name) {
        assert forall|i: int| 0 <= i < name.len() implies !is_path_punctuation(#[trigger] name[i]) by {}
    }
    if has_path_punctuation(name) {
        let i = choose|i: int| 0 <= i < name.len() && is_path_punctuation(#[trigger] name[i]);
        assert(is_path_punctuation(name[i]));
    }
}

/// A reserved name written with a digit, against its first three letters and the digit.
proof fn lemma_numbered(stem: Seq<char>, word: Seq<char>, letters: Seq<char>)
    requires
        word.len() == 4,
        letters == word.take(3),
        '1' <= word[3] <= '9',
    ensures
        same_ignoring_ascii_case(stem, word) <==> stem.len() == 4 && same_ignoring_ascii_case(
            stem.take(3),
            letters,
        ) && stem[3] == word[3],
{
    ascii_case_is_all_that_may_differ(stem, word);
    ascii_case_is_all_that_may_differ(stem.take(3), letters);
    if stem.len() == 4 {
        if same_ignoring_ascii_case(stem, word) {
            assert(stem[3] as int == word[3] as int);
            assert forall|i: int| 0 <= i < 3 implies ({
                let x = (#[trigger] stem.take(3)[i]) as int;
                let y = letters[i] as int;
                x == y || (65 <= x <= 90 && y == x + 32) || (65 <= y <= 90 && x == y + 32)
            }) by {
                assert(stem[i] == stem.take(3)[i]);
            }
        }
        if same_ignoring_ascii_case(stem.take(3), letters) && stem[3] == word[3] {
            assert forall|i: int| 0 <= i < 4 implies ({
                let x = (#[trigger] stem[i]) as int;
                let y = word[i] as int;
                x == y || (65 <= x <= 90 && y == x + 32) || (65 <= y <= 90 && x == y + 32)
            }) by {
                if i < 3 {
                    assert(stem.take(3)[i] == stem[i]);
                    assert(letters[i] == word[i]);
                }
            }
        }
    }
}

/// A name is reserved where, regardless of case, what stands before its first dot is CON, PRN, AUX
/// or NUL, or COM or LPT with a digit from 1 to 9.
pub proof fn device_names_are_reserved(name: Seq<char>, dot: int)
    requires
        0 <= dot <= name.len(),
        forall|j: int| 0 <= j < dot ==> #[trigger] name[j] != '.',
        dot < name.len() ==> name[dot] == '.',
    ensures
        is_reserved(name) <==> {
            let start = name.take(dot);
            ||| same_ignoring_ascii_case(start, "CON"@)
            ||| same_ignoring_ascii_case(start, "PRN"@)
            ||| same_ignoring_ascii_case(start, "AUX"@)
            ||| same_ignoring_ascii_case(start, "NUL"@)
            ||| dot == 4 && '1' <= name[3] <= '9' && (same_ignoring_ascii_case(
                name.take(3),
                "COM"@,
            ) || same_ignoring_ascii_case(name.take(3), "LPT"@))
        },
{
    first_positions_are_first(name, '.', dot);
    let start = name.take(dot);
    assert(stem(name) == start);
    reveal_strlit("CON");
    reveal_strlit("PRN");
    reveal_strlit("AUX");
    reveal_strlit("NUL");
    reveal_strlit("COM");
    reveal_strlit("LPT");
    reveal_strlit("COM1");
    reveal_strlit("COM2");
    reveal_strlit("COM3");
    reveal_strlit("COM4");
    reveal_strlit("COM5");
    reveal_strlit("COM6");
    reveal_strlit("COM7");
    reveal_strlit("COM8");
    reveal_strlit("COM9");
    reveal_strlit("LPT1");
    reveal_strlit("LPT2");
    reveal_strlit("LPT3");
    reveal_strlit("LPT4");
    reveal_strlit("LPT5");
    reveal_strlit("LPT6");
    reveal_strlit("LPT7");
    reveal_strlit("LPT8");
    reveal_strlit("LPT9");
    let r = RESERVED_NAMES@;
    assert(r[0]@ == "CON"@ && r[1]@ == "PRN"@ && r[2]@ == "AUX"@ && r[3]@ == "NUL"@);
    assert(r[4]@.take(3) =~= "COM"@ && r[5]@.take(3) =~= "COM"@ && r[6]@.take(3) =~= "COM"@);
    assert(r[7]@.take(3) =~= "COM"@ && r[8]@.take(3) =~= "COM"@ && r[9]@.take(3) =~= "COM"@);
    assert(r[10]@.take(3) =~= "COM"@ && r[11]@.take(3) =~= "COM"@ && r[12]@.take(3) =~= "COM"@);
    assert(r[13]@.take(3) =~= "LPT"@ && r[14]@.take(3) =~= "LPT"@ && r[15]@.take(3) =~= "LPT"@);
    assert(r[16]@.take(3) =~= "LPT"@ && r[17]@.take(3) =~= "LPT"@ && r[18]@.take(3) =~= "LPT"@);
    assert(r[19]@.take(3) =~= "LPT"@ && r[20]@.take(3) =~= "LPT"@ && r[21]@.take(3) =~= "LPT"@);
    assert forall|i: int| 4 <= i < 22 implies (same_ignoring_ascii_case(start, (#[trigger] r[i])@)
        <==> start.len() == 4 && same_ignoring_ascii_case(
        start.take(3),
        if i < 13 { "COM"@ } else { "LPT"@ },
    ) && start[3] as int == 49 + (if i < 13 { i - 4 } else { i - 13 })) by {
        lemma_numbered(start, r[i]@, if i < 13 { "COM"@ } else { "LPT"@ });
    }
    if dot == 4 {
        assert(start.take(3) =~= name.take(3));
        let d = name[3] as int - 49;
        if 0 <= d <= 8 {
            assert(same_ignoring_ascii_case(start, r[4 + d]@) <==> same_ignoring_ascii_case(
                name.take(3),
                "COM"@,
            ));
            assert(same_ignoring_ascii_case(start, r[13 + d]@) <==> same_ignoring_ascii_case(
                name.take(3),
                "LPT"@,
            ));
        }
    }
    if is_reserved(name) {
        let i = choose|i: int|
            0 <= i < RESERVED_NAMES@.len() && same_ignoring_ascii_case(
                stem(name),
                (#[trigger] RESERVED_NAMES@[i])@,
            );
        if i >= 4 {
            assert(same_ignoring_ascii_case(start, r[i]@));
        }
    }
    assert(same_ignoring_ascii_case(start, r[0]@) == same_ignoring_ascii_case(start, "CON"@));
    assert(same_ignoring_ascii_case(start, r[1]@) == same_ignoring_ascii_case(start, "PRN"@));
    assert(same_ignoring_ascii_case(start, r[2]@) == same_ignoring_ascii_case(start, "AUX"@));
    assert(same_ignoring_ascii_case(start, r[3]@) == same_ignoring_ascii_case(start, "NUL"@));
}

/// The name that a file is saved under is what stands before the first slash, and nothing but
/// slashes and lone dots may follow it. Empty and dot names, and names that are not portable, are
/// refused.
pub proof fn files_are_saved_under_one_component(name: Seq<char>, slash: int)
    requires
        0 <= slash <= name.len(),
        forall|j: int| 0 <= j < slash ==> #[trigger] name[j] != '/',
        slash < name.len() ==> name[slash] == '/',
    ensures
        destination(name) is Some <==> {
            &&& portable_name(name)
            &&& slash > 0
            &&& name.take(slash) != seq!['.'] && name.take(slash) != seq!['.', '.']
            &&& forall|i: int|
                slash <= i < name.len() ==> #[trigger] name[i] == '/' || (name[i] == '.' && name[i
                    - 1] == '/' && (i + 1 == name.len() || name[i + 1] == '/'))
        },
        destination(name) matches Some(chosen) ==> chosen == name.take(slash),
{
    first_positions_are_first(name, '/', slash);
    reveal_strlit(".");
    reveal_strlit("..");
    assert("."@ =~= seq!['.']);
    assert(".."@ =~= seq!['.', '.']);
    assert(names_nothing(name, slash) == forall|i: int|
        slash <= i < name.len() ==> #[trigger] name[i] == '/' || (name[i] == '.' && name[i - 1]
            == '/' && (i + 1 == name.len() || name[i + 1] == '/')));
}

/// A name without a slash that is portable and no dot name is saved as it is.
pub proof fn plain_names_are_kept(name: Seq<char>)
    requires
        portable_name(name),
        forall|j: int| 0 <= j < name.len() ==> #[trigger] name[j] != '/',
    ensures
        destination(name) == Some(name),
{
    assert(name.len() > 0) by {
        if name.len() == 0 {
            assert(encode_utf8(name).len() == 0);
        }
    }
    files_are_saved_under_one_component(name, name.len() as int);
    assert(name.take(name.len() as int) =~= name);
    assert(name.last() != '.');
    assert(seq!['.'].last() == '.');
    assert(seq!['.', '.'].last() == '.');
}

/// Clear text is accepted for this machine alone: the name `localhost` in any case, an IPv4
/// address that starts with 127, and the IPv6 address that is one.
pub proof fn only_this_machine_is_reached_in_the_clear(uri: UriView)
    ensures
        secure_origin(uri) <==> uri.host is Some && (uri.scheme == "https"@ || (uri.scheme
            == "http"@ && match uri.host->Some_0 {
            HostView::Domain(name) => name.len() == 9 && same_ignoring_ascii_case(
                name,
                "localhost"@,
            ),
            HostView::Ipv4(octets) => octets[0] == 127u8,
            HostView::Ipv6(octets) => octets[15] == 1u8 && !exists|i: int|
                0 <= i < 15 && #[trigger] octets[i] != 0u8,
        })),
{
    reveal_strlit("localhost");
}

/// A tunnel is accepted exactly where it has an identifier, waits, and has a pairing URI of at most
/// 2,048 bytes without control characters, with a secure origin, without user, password and
/// query, whose path names the tunnel and whose fragment holds one bounded secret under `c`, and
/// where its capability is a bounded secret and its expiry a line of at most 64 bytes.
pub proof fn tunnels_are_accepted_under_these_conditions(tunnel: TunnelView)
    ensures
        valid_tunnel(tunnel) <==> {
            &&& tunnel.tunnel_id != 0
            &&& tunnel.status == "waiting"@
            &&& encode_utf8(tunnel.pairing_uri).len() <= 2_048
            &&& forall|i: int|
                0 <= i < tunnel.pairing_uri.len() ==> (#[trigger] tunnel.pairing_uri[i]) as int
                    >= 32 && !(127 <= tunnel.pairing_uri[i] as int <= 159)
            &&& bounded_secret(tunnel.desktop_capability)
            &&& bounded_line(tunnel.expires_at, 64)
            &&& parsed_uri(tunnel.pairing_uri) matches Some(uri) && {
                &&& secure_origin(uri)
                &&& uri.username.len() == 0
                &&& uri.password is None
                &&& uri.query is None
                &&& uri.path == "/t/"@ + uuid_text(tunnel.tunnel_id)
                &&& uri.fragment matches Some(fragment) && form_fields(fragment).len() == 1
                    && form_fields(fragment)[0].0 == "c"@ && bounded_secret(
                    form_fields(fragment)[0].1,
                )
            }
        },
{
    control_characters_are_the_c0_and_c1_codes(tunnel.pairing_uri);
}

/// With the parts of its URI at hand, a tunnel is accepted under the same conditions.
pub proof fn tunnels_are_checked_against_the_parts_of_their_uri(
    tunnel: TunnelView,
    uri: UriView,
    fields: Seq<(Seq<char>, Seq<char>)>,
)
    ensures
        tunnel_contract(tunnel, uri, fields) <==> {
            &&& tunnel.tunnel_id != 0
            &&& tunnel.status == "waiting"@
            &&& encode_utf8(tunnel.pairing_uri).len() <= 2_048
            &&& forall|i: int|
                0 <= i < tunnel.pairing_uri.len() ==> (#[trigger] tunnel.pairing_uri[i]) as int
                    >= 32 && !(127 <= tunnel.pairing_uri[i] as int <= 159)
            &&& bounded_secret(tunnel.desktop_capability)
            &&& bounded_line(tunnel.expires_at, 64)
            &&& secure_origin(uri)
            &&& uri.username.len() == 0
            &&& uri.password is None
            &&& uri.query is None
            &&& uri.path == "/t/"@ + uuid_text(tunnel.tunnel_id)
            &&& fields.len() == 1 && fields[0].0 == "c"@ && bounded_secret(fields[0].1)
        },
{
    control_characters_are_the_c0_and_c1_codes(tunnel.pairing_uri);
}

/// A session has the identifier, expiry and both credentials of its tunnel; of these only the
/// first two are written to a log.
pub proof fn sessions_hold_the_tunnel_and_hide_its_credentials(
    tunnel: TunnelView,
    other: TunnelView,
)
    ensures
        session_of(tunnel).tunnel_id == tunnel.tunnel_id,
        session_of(tunnel).expires_at == tunnel.expires_at,
        session_of(tunnel).pairing_uri == tunnel.pairing_uri,
        session_of(tunnel).desktop_capability == tunnel.desktop_capability,
        redacted_text(tunnel.tunnel_id, tunnel.expires_at) == "ReceiveSession { tunnel_id: "@
            + uuid_text(tunnel.tunnel_id) + ", expires_at: "@ + debug_quoted(tunnel.expires_at)
            + ", pairing_uri: \"[REDACTED]\", desktop_capability: \"[REDACTED]\" }"@,
        tunnel.tunnel_id == other.tunnel_id && tunnel.expires_at == other.expires_at ==>
            redacted_text(session_of(tunnel).tunnel_id, session_of(tunnel).expires_at)
            == redacted_text(session_of(other).tunnel_id, session_of(other).expires_at),
{
}

/// A list is accepted exactly where it has at most ten files, each with valid metadata and an
/// identifier of its own.
pub proof fn lists_hold_at_most_ten_distinct_files(files: Seq<FileView>)
    ensures
        snapshot_error(files) is None <==> {
            &&& files.len() <= 10
            &&& forall|i: int| 0 <= i < files.len() ==> valid_descriptor(#[trigger] files[i])
            &&& forall|i: int, j: int|
                0 <= i < j < files.len() ==> (#[trigger] files[i]).file_id != (
                #[trigger] files[j]).file_id
        },
        snapshot_error(files) == Some(DescriptorError::TooManyFiles) <==> files.len() > 10,
{
    lemma_no_offence(files, files.len());
    lemma_offences(files, files.len());
}

proof fn lemma_offences(files: Seq<FileView>, n: nat)
    ensures
        first_offence(files, n) != Some(DescriptorError::TooManyFiles),
    decreases n,
{
    if n > 0 {
        lemma_offences(files, (n - 1) as nat);
    }
}

/// A short list is refused for its first file that is not in order: for its metadata, or, where
/// that is valid, for the identifier of an earlier file.
pub proof fn lists_are_refused_for_their_first_offence(files: Seq<FileView>, i: int)
    requires
        files.len() <= 10,
        0 <= i < files.len(),
        forall|j: int| 0 <= j < i ==> valid_descriptor(#[trigger] files[j]),
        forall|j: int, k: int|
            0 <= j < k < i ==> (#[trigger] files[j]).file_id != (#[trigger] files[k]).file_id,
    ensures
        !valid_descriptor(files[i]) ==> snapshot_error(files) == Some(
            DescriptorError::InvalidMetadata,
        ),
        valid_descriptor(files[i]) && (exists|j: int|
            0 <= j < i && (#[trigger] files[j]).file_id == files[i].file_id) ==> snapshot_error(
            files,
        ) == Some(DescriptorError::DuplicateFileId),
{
    lemma_no_offence(files, i as nat);
    if !valid_descriptor(files[i]) || exists|j: int|
        0 <= j < i && (#[trigger] files[j]).file_id == files[i].file_id {
        if valid_descriptor(files[i]) {
            assert(listed_before(files, i, files[i].file_id));
        }
        lemma_first_offence_stays(files, (i + 1) as nat, files.len());
    }
}

/// Bytes are saved only where the metadata is valid and they are exactly as many as declared; to
/// where the user said, or else under the name that the file has by itself.
pub proof fn downloads_are_saved_as_declared(file: FileView, received: nat, requested: bool)
    ensures
        ({
            let plan = download_plan(file, received, requested);
            &&& plan == Err::<TargetView, _>(SaveError::InvalidMetadata) <==> !valid_descriptor(
                file,
            )
            &&& plan == Err::<TargetView, _>(SaveError::SizeMismatch) <==> valid_descriptor(file)
                && received != file.size_bytes
            &&& plan is Ok <==> valid_descriptor(file) && received == file.size_bytes
            &&& plan is Ok && requested ==> plan->Ok_0 is Requested
            &&& plan is Ok && !requested ==> plan->Ok_0 is Named && destination(file.name) == Some(
                plan->Ok_0->Named_0,
            )
        }),
{
}

/// Every refusal has its own sentence.
pub proof fn transfer_refusals_are_named(error: DescriptorError, save: SaveError)
    ensures
        descriptor_error_text(error) == (match error {
            DescriptorError::TooManyFiles => "snapshot contains too many files",
            DescriptorError::DuplicateFileId => "snapshot contains duplicate file identifiers",
            DescriptorError::InvalidMetadata =>
                "file metadata is outside the desktop receive contract",
        })@,
        save_error_text(save) == (match save {
            SaveError::UnsafeFileName => "server returned an unsafe file name"@,
            SaveError::InvalidMetadata => "file metadata is outside the desktop receive contract"@,
            SaveError::SizeMismatch => "downloaded byte count did not match the declaration"@,
            SaveError::MissingOutputDirectory => "output directory does not exist"@,
            SaveError::Io(reason) => "cannot persist the downloaded file: "@ + reason@,
        }),
{
}

/// Tunnels and files are seen field by field, and lists of files file by file.
pub proof fn tunnels_and_files_are_seen_as_they_are(
    tunnel: Tunnel,
    files: Seq<FileDescriptor>,
    i: int,
)
    ensures
        tunnel@.tunnel_id == tunnel.tunnel_id,
        tunnel@.pairing_uri == tunnel.pairing_uri@,
        tunnel@.desktop_capability == tunnel.desktop_capability@,
        tunnel@.expires_at == tunnel.expires_at@,
        tunnel@.status == tunnel.status@,
        files_view(files).len() == files.len(),
        0 <= i < files.len() ==> {
            let seen = files_view(files)[i];
            &&& seen == files[i]@
            &&& seen.file_id == files[i].file_id
            &&& seen.name == files[i].name@
            &&& seen.media_type == files[i].media_type@
            &&& seen.size_bytes == files[i].size_bytes
            &&& seen.bytes_transferred == files[i].bytes_transferred
            &&& seen.status == files[i].status@
            &&& seen.created_at == files[i].created_at@
        },
{
}

/// A target is seen as it is.
pub proof fn targets_are_seen_as_they_are(target: DownloadTarget)
    ensures
        match target {
            DownloadTarget::Requested => target@ is Requested,
            DownloadTarget::Named(name) => target@ == TargetView::Named(name@),
        },
{
}

} // verus!
