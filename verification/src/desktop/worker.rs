//! What is asked of the network worker and what it answers.
use crate::lifecycle::{Effect, EffectKind, OperationId};
use crate::secrets::SecretText;
use crate::text::{optional_text, texts};
use crate::transfer::{
    files_view, session_of, valid_tunnel, FileDescriptor, FileView, ReceiveSession,
    ReceiveSessionView, SaveError, Tunnel, TunnelView, MAX_FILES_PER_TUNNEL, MAX_FILE_BYTES,
};
use vstd::prelude::*;

verus! {

/// How long a new tunnel stays open.
pub const TUNNEL_LIFETIME_SECONDS: u32 = 600;

/// An operation for the worker.
pub struct Request {
    pub operation: OperationId,
    pub kind: RequestKind,
}

pub enum RequestKind {
    Create { base_url: String, application_id: String },
    Refresh { base_url: String, tunnel_id: u128, capability: SecretText },
    Download {
        base_url: String,
        tunnel_id: u128,
        capability: SecretText,
        file: FileDescriptor,
        destination: Option<String>,
        force: bool,
    },
    Cancel { base_url: String, tunnel_id: u128, capability: SecretText },
}

pub struct RequestView {
    pub operation: OperationId,
    pub kind: RequestKindView,
}

pub enum RequestKindView {
    Create { base_url: Seq<char>, application_id: Seq<char> },
    Refresh { base_url: Seq<char>, tunnel_id: u128, capability: Seq<char> },
    Download {
        base_url: Seq<char>,
        tunnel_id: u128,
        capability: Seq<char>,
        file: FileView,
        destination: Option<Seq<char>>,
        force: bool,
    },
    Cancel { base_url: Seq<char>, tunnel_id: u128, capability: Seq<char> },
}

impl View for RequestKind {
    type V = RequestKindView;

    open spec fn view(&self) -> RequestKindView {
        match *self {
            RequestKind::Create { base_url, application_id } => RequestKindView::Create {
                base_url: base_url@,
                application_id: application_id@,
            },
            RequestKind::Refresh { base_url, tunnel_id, capability } => RequestKindView::Refresh {
                base_url: base_url@,
                tunnel_id,
                capability: capability@,
            },
            RequestKind::Download {
                base_url,
                tunnel_id,
                capability,
                file,
                destination,
                force,
            } => RequestKindView::Download {
                base_url: base_url@,
                tunnel_id,
                capability: capability@,
                file: file@,
                destination: optional_text(destination),
                force,
            },
            RequestKind::Cancel { base_url, tunnel_id, capability } => RequestKindView::Cancel {
                base_url: base_url@,
                tunnel_id,
                capability: capability@,
            },
        }
    }
}

impl View for Request {
    type V = RequestView;

    open spec fn view(&self) -> RequestView {
        RequestView { operation: self.operation, kind: self.kind@ }
    }
}

/// The request is of the kind that the effect calls for.
pub open spec fn request_matches(effect: EffectKind, request: RequestKindView) -> bool {
    match request {
        RequestKindView::Create { .. } => effect == EffectKind::Create,
        RequestKindView::Refresh { .. } => effect == EffectKind::Refresh,
        RequestKindView::Download { .. } => effect == EffectKind::Download,
        RequestKindView::Cancel { .. } => effect == EffectKind::Cancel,
    }
}

/// Whether a request is of the kind that an effect calls for.
pub fn effect_matches_request(effect: EffectKind, request: &RequestKind) -> (res: bool)
    ensures
        res == request_matches(effect, request@),
{
    match request {
        RequestKind::Create { .. } => effect == EffectKind::Create,
        RequestKind::Refresh { .. } => effect == EffectKind::Refresh,
        RequestKind::Download { .. } => effect == EffectKind::Download,
        RequestKind::Cancel { .. } => effect == EffectKind::Cancel,
    }
}

/// The effect that a request was made for.
pub fn effect_of(request: &Request) -> (res: Effect)
    ensures
        res.operation == request@.operation,
        request_matches(res.kind, request@.kind),
{
    let kind = match &request.kind {
        RequestKind::Create { .. } => EffectKind::Create,
        RequestKind::Refresh { .. } => EffectKind::Refresh,
        RequestKind::Download { .. } => EffectKind::Download,
        RequestKind::Cancel { .. } => EffectKind::Cancel,
    };
    Effect { operation: request.operation, kind }
}

/// The worker's answer to an operation.
pub struct Response {
    pub operation: OperationId,
    pub kind: ResponseKind,
}

pub enum ResponseKind {
    Created(ReceiveSession),
    Snapshot(Vec<FileDescriptor>),
    Downloaded,
    Cancelled,
    Failed(&'static str),
}

pub enum ResponseKindView {
    Created(ReceiveSessionView),
    Snapshot(Seq<FileView>),
    Downloaded,
    Cancelled,
    Failed(Seq<char>),
}

impl View for ResponseKind {
    type V = ResponseKindView;

    open spec fn view(&self) -> ResponseKindView {
        match *self {
            ResponseKind::Created(session) => ResponseKindView::Created(session@),
            ResponseKind::Snapshot(files) => ResponseKindView::Snapshot(files_view(files@)),
            ResponseKind::Downloaded => ResponseKindView::Downloaded,
            ResponseKind::Cancelled => ResponseKindView::Cancelled,
            ResponseKind::Failed(message) => ResponseKindView::Failed(message@),
        }
    }
}

/// Why a call of the service failed.
#[derive(Clone, Copy, Debug, Eq, PartialEq, Structural)]
pub enum ClientFailure {
    /// The service answered with this HTTP status.
    Api(u16),
    InvalidBaseUrl,
    UnsupportedScheme,
    InsecureTransport,
    InvalidTimeout,
    Transport,
}

/// The sentence shown for a failed call. It says nothing of what was sent or received.
pub open spec fn failure_text(failure: ClientFailure) -> Seq<char> {
    match failure {
        ClientFailure::Api(status) => if status == 404 || status == 410 {
            "The tunnel expired or is no longer available."@
        } else if status == 401 || status == 403 {
            "This session is no longer authorized."@
        } else {
            "The network request failed. Check the connection and try again."@
        },
        ClientFailure::InvalidBaseUrl
        | ClientFailure::UnsupportedScheme
        | ClientFailure::InsecureTransport
        | ClientFailure::InvalidTimeout => "The service address is not allowed."@,
        ClientFailure::Transport =>
            "The network request failed. Check the connection and try again."@,
    }
}

/// The answer to an operation whose call failed.
pub fn failed(failure: ClientFailure) -> (res: ResponseKind)
    ensures
        res@ == ResponseKindView::Failed(failure_text(failure)),
{
    match failure {
        ClientFailure::Api(status) => if status == 404 || status == 410 {
            ResponseKind::Failed("The tunnel expired or is no longer available.")
        } else if status == 401 || status == 403 {
            ResponseKind::Failed("This session is no longer authorized.")
        } else {
            ResponseKind::Failed("The network request failed. Check the connection and try again.")
        },
        ClientFailure::InvalidBaseUrl => ResponseKind::Failed("The service address is not allowed."),
        ClientFailure::UnsupportedScheme =>
            ResponseKind::Failed("The service address is not allowed."),
        ClientFailure::InsecureTransport =>
            ResponseKind::Failed("The service address is not allowed."),
        ClientFailure::InvalidTimeout => ResponseKind::Failed("The service address is not allowed."),
        ClientFailure::Transport =>
            ResponseKind::Failed("The network request failed. Check the connection and try again."),
    }
}

/// The answer to an operation for an address that the client refuses.
pub fn address_refused() -> (res: ResponseKind)
    ensures
        res@ == ResponseKindView::Failed("The service address is not allowed."@),
{
    ResponseKind::Failed("The service address is not allowed.")
}

/// What the service is asked for when a tunnel is created.
#[derive(Debug, PartialEq, Eq)]
pub struct CreateTunnelRequest {
    pub application_id: String,
    pub accept: Vec<String>,
    pub max_files: u16,
    pub max_file_bytes: u64,
    pub expires_in_seconds: u32,
}

/// Ask for a tunnel for any media type, within the bounds that the desktop receives.
pub fn create_request(application_id: String) -> (res: CreateTunnelRequest)
    ensures
        res.application_id@ == application_id@,
        texts(res.accept@) == seq!["*/*"@],
        res.max_files == MAX_FILES_PER_TUNNEL,
        res.max_files == 10,
        res.max_file_bytes == MAX_FILE_BYTES,
        res.max_file_bytes == 52_428_800,
        res.expires_in_seconds == TUNNEL_LIFETIME_SECONDS,
        res.expires_in_seconds == 600,
{
    let mut accept: Vec<String> = Vec::new();
    accept.push("*/*".to_owned());
    assert(texts(accept@) =~= seq!["*/*"@]);
    CreateTunnelRequest {
        application_id,
        accept,
        max_files: MAX_FILES_PER_TUNNEL,
        max_file_bytes: MAX_FILE_BYTES,
        expires_in_seconds: TUNNEL_LIFETIME_SECONDS,
    }
}

/// The answer to a creation.
pub open spec fn created_outcome(outcome: Result<TunnelView, ClientFailure>) -> ResponseKindView {
    match outcome {
        Err(failure) => ResponseKindView::Failed(failure_text(failure)),
        Ok(tunnel) => if valid_tunnel(tunnel) {
            ResponseKindView::Created(session_of(tunnel))
        } else {
            ResponseKindView::Failed(
                "server returned a tunnel outside the desktop receive contract"@,
            )
        },
    }
}

/// The answer to a creation. A tunnel outside the receive contract is refused.
pub fn created(outcome: Result<Tunnel, ClientFailure>) -> (res: ResponseKind)
    ensures
        res@ == created_outcome(
            match outcome {
                Ok(tunnel) => Ok(tunnel@),
                Err(failure) => Err(failure),
            },
        ),
{
    match outcome {
        Err(failure) => failed(failure),
        Ok(tunnel) => match ReceiveSession::from_tunnel(tunnel) {
            Ok(session) => ResponseKind::Created(session),
            Err(error) => ResponseKind::Failed(error.message()),
        },
    }
}

/// The answer to a refresh.
pub fn refreshed(outcome: Result<Vec<FileDescriptor>, ClientFailure>) -> (res: ResponseKind)
    ensures
        res@ == (match outcome {
            Ok(files) => ResponseKindView::Snapshot(files_view(files@)),
            Err(failure) => ResponseKindView::Failed(failure_text(failure)),
        }),
{
    match outcome {
        Ok(files) => ResponseKind::Snapshot(files),
        Err(failure) => failed(failure),
    }
}

/// The answer to a download whose bytes arrived, once they were saved or not.
pub fn saved(outcome: Result<(), SaveError>) -> (res: ResponseKind)
    ensures
        res@ == (match outcome {
            Ok(()) => ResponseKindView::Downloaded,
            Err(_) => ResponseKindView::Failed(
                "The downloaded file could not be safely written at that location."@,
            ),
        }),
{
    match outcome {
        Ok(()) => ResponseKind::Downloaded,
        Err(_) =>
            ResponseKind::Failed("The downloaded file could not be safely written at that location."),
    }
}

/// The answer to a cancellation.
pub fn cancelled(outcome: Result<(), ClientFailure>) -> (res: ResponseKind)
    ensures
        res@ == (match outcome {
            Ok(()) => ResponseKindView::Cancelled,
            Err(failure) => ResponseKindView::Failed(failure_text(failure)),
        }),
{
    match outcome {
        Ok(()) => ResponseKind::Cancelled,
        Err(failure) => failed(failure),
    }
}

} // verus!
