//! The image-registry interaction: resolving or creating the repository,
//! turning the registry's authorization token into docker credentials,
//! and the push flow that sequences those calls.
//!
//! The token arrives base64-encoded as `user:password`.  Decoding leans
//! on the base64 crate behind a trusted wrapper; everything after the
//! decode — the split at the colon and the UTF-8 reading — is verified.

use vstd::prelude::*;

verus! {

use vstd::slice::slice_subrange;
use vstd::slice::slice_to_vec;
use vstd::utf8::valid_utf8;
use vstd::utf8::decode_utf8;
use crate::errors::DeployError;
use crate::errors::RemoteOp;

/// The byte the registry token separates user and password with.
pub const COLON: u8 = 58;

/// What the standard base64 alphabet decodes a string to, if anything.
/// The result is a function of the input characters alone.
pub uninterp spec fn base64_standard_decoded(s: Seq<char>) -> Option<Seq<u8>>;

/// Relies on base64's `Engine::decode` with the `STANDARD` engine: the
/// decode is deterministic in the input, succeeds exactly on well-formed
/// standard-alphabet base64, and returns its decoded bytes.
#[verifier::external_body]
fn base64_decode(s: &str) -> (r: Result<Vec<u8>, String>)
    ensures
        r matches Ok(v) ==> base64_standard_decoded(s@) == Some(v@),
        r is Err ==> base64_standard_decoded(s@) is None,
{
    match base64::Engine::decode(&base64::prelude::BASE64_STANDARD, s) {
        Ok(v) => Ok(v),
        Err(e) => Err(format!("{}", e)),
    }
}

/// Relies on `String::from_utf8`: it succeeds exactly on valid UTF-8 and
/// returns the string those bytes encode.
#[verifier::external_body]
fn bytes_into_string(b: Vec<u8>) -> (r: Result<String, String>)
    ensures
        r matches Ok(s) ==> valid_utf8(b@) && s@ == decode_utf8(b@),
        r is Err ==> !valid_utf8(b@),
{
    match String::from_utf8(b) {
        Ok(s) => Ok(s),
        Err(e) => Err(format!("{}", e)),
    }
}

/// The segments of `d` between colons, in order; one segment at least,
/// and empty segments where colons touch.
pub open spec fn split_colon(d: Seq<u8>) -> Seq<Seq<u8>>
    decreases d.len(),
{
    if d.len() == 0 {
        seq![Seq::<u8>::empty()]
    } else if d[0] == COLON {
        seq![Seq::<u8>::empty()] + split_colon(d.drop_first())
    } else {
        let rest = split_colon(d.drop_first());
        seq![seq![d[0]] + rest[0]] + rest.drop_first()
    }
}

proof fn lemma_split_nonempty(d: Seq<u8>)
    ensures
        split_colon(d).len() >= 1,
    decreases d.len(),
{
    if d.len() == 0 {
    } else {
        lemma_split_nonempty(d.drop_first());
    }
}

proof fn lemma_split_no_colon(d: Seq<u8>)
    requires
        forall|k: int| 0 <= k < d.len() ==> d[k] != COLON,
    ensures
        split_colon(d) == seq![d],
    decreases d.len(),
{
    if d.len() == 0 {
        assert(d =~= Seq::<u8>::empty());
        assert(split_colon(d) =~= seq![d]);
    } else {
        lemma_split_no_colon(d.drop_first());
        lemma_split_nonempty(d.drop_first());
        assert(seq![d[0]] + d.drop_first() =~= d);
        assert(split_colon(d) =~= seq![d]);
    }
}

proof fn lemma_split_at_first_colon(d: Seq<u8>, i: int)
    requires
        0 <= i < d.len(),
        d[i] == COLON,
        forall|k: int| 0 <= k < i ==> d[k] != COLON,
    ensures
        split_colon(d)[0] == d.subrange(0, i),
        split_colon(d).drop_first() == split_colon(d.subrange(i + 1, d.len() as int)),
    decreases i,
{
    if i == 0 {
        assert(d.drop_first() =~= d.subrange(1, d.len() as int));
        assert(split_colon(d)[0] =~= d.subrange(0, 0));
        assert(split_colon(d).drop_first() =~= split_colon(d.drop_first()));
    } else {
        let tail = d.drop_first();
        lemma_split_at_first_colon(tail, i - 1);
        lemma_split_nonempty(tail);
        assert(seq![d[0]] + tail.subrange(0, i - 1) =~= d.subrange(0, i));
        assert(tail.subrange(i, tail.len() as int) =~= d.subrange(i + 1, d.len() as int));
        assert(split_colon(d)[0] =~= d.subrange(0, i));
        assert(split_colon(d).drop_first() =~= split_colon(tail).drop_first());
    }
}

/// The first two colon-separated segments of `d`, where `d` holds a
/// colon at all.
fn split_first_two(d: &Vec<u8>) -> (r: Option<(Vec<u8>, Vec<u8>)>)
    ensures
        r matches Some(p) ==> split_colon(d@).len() >= 2 && p.0@ == split_colon(d@)[0] && p.1@
            == split_colon(d@)[1],
        r is None ==> split_colon(d@).len() == 1,
{
    let n = d.len();
    let mut i: usize = 0;
    while i < n && d[i] != COLON
        invariant
            0 <= i <= n,
            n == d@.len(),
            forall|k: int| 0 <= k < i ==> d@[k] != COLON,
        decreases n - i,
    {
        i += 1;
    }
    if i == n {
        proof {
            lemma_split_no_colon(d@);
        }
        return None;
    }
    let mut j: usize = i + 1;
    while j < n && d[j] != COLON
        invariant
            i + 1 <= j <= n,
            n == d@.len(),
            forall|k: int| i + 1 <= k < j ==> d@[k] != COLON,
        decreases n - j,
    {
        j += 1;
    }
    let first = slice_to_vec(slice_subrange(d.as_slice(), 0, i));
    let second = slice_to_vec(slice_subrange(d.as_slice(), i + 1, j));
    proof {
        lemma_split_at_first_colon(d@, i as int);
        let tail = d@.subrange(i + 1, d@.len() as int);
        lemma_split_nonempty(tail);
        assert(split_colon(d@)[1] == split_colon(d@).drop_first()[0]);
        if j < n {
            lemma_split_at_first_colon(tail, j - i - 1);
            assert(tail.subrange(0, j - i - 1) =~= d@.subrange(i + 1, j as int));
        } else {
            assert(forall|k: int| 0 <= k < tail.len() ==> tail[k] != COLON);
            lemma_split_no_colon(tail);
            assert(tail =~= d@.subrange(i + 1, j as int));
        }
    }
    Some((first, second))
}

/// What a registry token yields once decoded: the user name and password
/// read from the first two colon-separated segments, where the token is
/// well-formed base64, holds a colon, and both segments are valid UTF-8.
pub open spec fn token_fields(t: Seq<char>) -> Option<(Seq<char>, Seq<char>)> {
    match base64_standard_decoded(t) {
        None => None,
        Some(d) => {
            let segs = split_colon(d);
            if segs.len() >= 2 && valid_utf8(segs[0]) && valid_utf8(segs[1]) {
                Some((decode_utf8(segs[0]), decode_utf8(segs[1])))
            } else {
                None
            }
        },
    }
}

/// Turns the registry's base64 authorization token into the user name
/// and password it encodes, rejecting every malformed token.
pub fn parse_registry_token(token: &str) -> (r: Result<(String, String), DeployError>)
    ensures
        r matches Ok(c) ==> (token_fields(token@) matches Some(f) && c.0@ == f.0 && c.1@ == f.1),
        r is Err ==> token_fields(token@) is None && (r matches Err(e) && e
            is RegistryTokenMalformed),
{
    let decoded = match base64_decode(token) {
        Ok(v) => v,
        Err(_) => {
            return Err(DeployError::RegistryTokenMalformed);
        },
    };
    let parts = match split_first_two(&decoded) {
        Some(p) => p,
        None => {
            return Err(DeployError::RegistryTokenMalformed);
        },
    };
    let (user_bytes, pass_bytes) = parts;
    let user = match bytes_into_string(user_bytes) {
        Ok(s) => s,
        Err(_) => {
            return Err(DeployError::RegistryTokenMalformed);
        },
    };
    let pass = match bytes_into_string(pass_bytes) {
        Ok(s) => s,
        Err(_) => {
            return Err(DeployError::RegistryTokenMalformed);
        },
    };
    Ok((user, pass))
}

/// The tag every pushed image is addressed under.
pub const LATEST_TAG: &'static str = "latest";

/// Short-lived credentials for pushing to the registry.
pub struct RegistryCredentials {
    pub username: String,
    pub password: String,
    pub server_address: String,
}

impl RegistryCredentials {
    /// An equal copy.
    pub fn duplicate(&self) -> (r: RegistryCredentials)
        ensures
            r == *self,
    {
        RegistryCredentials {
            username: self.username.clone(),
            password: self.password.clone(),
            server_address: self.server_address.clone(),
        }
    }
}

/// Where an image push stands.
pub enum PushState {
    /// Asking the registry whether the repository exists.
    DescribingRepository,
    /// It does not; creating it.
    CreatingRepository,
    /// Repository resolved; tagging the built image against it.
    Tagging { repo_uri: String },
    /// Tagged; obtaining short-lived push credentials.
    FetchingToken { repo_uri: String },
    /// Credentials in hand; streaming the push.
    Pushing { repo_uri: String, credentials: RegistryCredentials },
    /// The image is addressable under the repository URI.
    Complete { repo_uri: String },
    /// The push aborted.
    Failed { error: DeployError },
}

/// The remote call an image push asks for next.
pub enum PushAction {
    DescribeRepository { repository_name: String },
    CreateRepository { repository_name: String },
    TagImage { image_name: String, repo_uri: String, tag: &'static str },
    FetchRegistryToken,
    PushImage { repo_uri: String, tag: &'static str, credentials: RegistryCredentials },
}

/// The outcome of the last remote call of an image push.
pub enum PushEvent {
    /// The repository exists; its URI came back with the answer.
    RepositoryFound { uri: String },
    /// The repository was not found.
    RepositoryMissing,
    /// The repository was created.
    RepositoryCreated { uri: String },
    /// The image is tagged.
    Tagged,
    /// The token-issuing call answered; either field may be absent.
    TokenFetched { token: Option<String>, proxy_endpoint: Option<String> },
    /// The push stream drained without error.
    Pushed,
    /// The call failed for any other reason.
    CallFailed { message: String },
}

/// An image push: resolves or creates the destination repository, tags
/// the built image, authenticates with short-lived credentials obtained
/// from the registry's token-issuing capability, and streams the push.
pub struct PushFlow {
    pub image_name: String,
    pub state: PushState,
}

/// The remote call an image push asks for in each state.
pub open spec fn push_action(f: PushFlow) -> Option<PushAction> {
    match f.state {
        PushState::DescribingRepository => Some(
            PushAction::DescribeRepository { repository_name: f.image_name },
        ),
        PushState::CreatingRepository => Some(
            PushAction::CreateRepository { repository_name: f.image_name },
        ),
        PushState::Tagging { repo_uri } => Some(
            PushAction::TagImage { image_name: f.image_name, repo_uri, tag: LATEST_TAG },
        ),
        PushState::FetchingToken { .. } => Some(PushAction::FetchRegistryToken),
        PushState::Pushing { repo_uri, credentials } => Some(
            PushAction::PushImage { repo_uri, tag: LATEST_TAG, credentials },
        ),
        PushState::Complete { .. } => None,
        PushState::Failed { .. } => None,
    }
}

/// How an image push advances on an outcome: the relation between the
/// flow before, the outcome, and the flow after.  The token outcome is
/// relational because the credentials are read out of the decoded token.
pub open spec fn push_step_rel(pre: PushFlow, ev: PushEvent, post: PushFlow) -> bool {
    &&& post.image_name == pre.image_name
    &&& match (pre.state, ev) {
        (PushState::DescribingRepository, PushEvent::RepositoryFound { uri }) => post.state == (
        PushState::Tagging { repo_uri: uri }),
        (PushState::DescribingRepository, PushEvent::RepositoryMissing) => post.state
            == PushState::CreatingRepository,
        (PushState::DescribingRepository, PushEvent::CallFailed { message }) => post.state == (
        PushState::Failed {
            error: DeployError::FatalRemote {
                operation: RemoteOp::DescribeRepository,
                message,
            },
        }),
        (PushState::CreatingRepository, PushEvent::RepositoryCreated { uri }) => post.state == (
        PushState::Tagging { repo_uri: uri }),
        (PushState::CreatingRepository, PushEvent::CallFailed { message }) => post.state == (
        PushState::Failed {
            error: DeployError::FatalRemote { operation: RemoteOp::CreateRepository, message },
        }),
        (PushState::Tagging { repo_uri }, PushEvent::Tagged) => post.state == (
        PushState::FetchingToken { repo_uri }),
        (PushState::Tagging { .. }, PushEvent::CallFailed { message }) => post.state == (
        PushState::Failed {
            error: DeployError::FatalRemote { operation: RemoteOp::TagImage, message },
        }),
        (
            PushState::FetchingToken { repo_uri },
            PushEvent::TokenFetched { token, proxy_endpoint },
        ) => {
            match (token, proxy_endpoint) {
                (Some(t), Some(ep)) => {
                    match token_fields(t@) {
                        Some(f) => post.state matches PushState::Pushing {
                            repo_uri: u,
                            credentials,
                        } && u == repo_uri && credentials.username@ == f.0
                            && credentials.password@ == f.1 && credentials.server_address == ep,
                        None => post.state == (PushState::Failed {
                            error: DeployError::RegistryTokenMalformed,
                        }),
                    }
                },
                _ => post.state == (PushState::Failed {
                    error: DeployError::RegistryTokenMalformed,
                }),
            }
        },
        (PushState::FetchingToken { .. }, PushEvent::CallFailed { message }) => post.state == (
        PushState::Failed {
            error: DeployError::FatalRemote {
                operation: RemoteOp::FetchRegistryToken,
                message,
            },
        }),
        (PushState::Pushing { repo_uri, .. }, PushEvent::Pushed) => post.state == (
        PushState::Complete { repo_uri }),
        (PushState::Pushing { .. }, PushEvent::CallFailed { message }) => post.state == (
        PushState::Failed {
            error: DeployError::FatalRemote { operation: RemoteOp::PushImage, message },
        }),
        (PushState::Complete { repo_uri }, _) => post.state == (PushState::Complete { repo_uri }),
        (PushState::Failed { error }, _) => post.state == (PushState::Failed { error }),
        _ => post.state == (PushState::Failed { error: DeployError::UnexpectedEvent }),
    }
}

impl PushFlow {
    /// A fresh push for the image built under the given name.
    pub fn new(image_name: String) -> (r: PushFlow)
        ensures
            r.image_name == image_name,
            r.state == PushState::DescribingRepository,
    {
        PushFlow { image_name, state: PushState::DescribingRepository }
    }

    /// The remote call to perform next; nothing once the push has ended.
    pub fn pending_action(&self) -> (r: Option<PushAction>)
        ensures
            r == push_action(*self),
    {
        match &self.state {
            PushState::DescribingRepository => Some(
                PushAction::DescribeRepository { repository_name: self.image_name.clone() },
            ),
            PushState::CreatingRepository => Some(
                PushAction::CreateRepository { repository_name: self.image_name.clone() },
            ),
            PushState::Tagging { repo_uri } => Some(
                PushAction::TagImage {
                    image_name: self.image_name.clone(),
                    repo_uri: repo_uri.clone(),
                    tag: LATEST_TAG,
                },
            ),
            PushState::FetchingToken { .. } => Some(PushAction::FetchRegistryToken),
            PushState::Pushing { repo_uri, credentials } => Some(
                PushAction::PushImage {
                    repo_uri: repo_uri.clone(),
                    tag: LATEST_TAG,
                    credentials: credentials.duplicate(),
                },
            ),
            PushState::Complete { .. } => None,
            PushState::Failed { .. } => None,
        }
    }

    /// Advance on the outcome of the call last asked for.
    pub fn step(self, ev: PushEvent) -> (r: PushFlow)
        ensures
            push_step_rel(self, ev, r),
    {
        let PushFlow { image_name, state } = self;
        let state = match (state, ev) {
            (PushState::DescribingRepository, PushEvent::RepositoryFound { uri }) => {
                PushState::Tagging { repo_uri: uri }
            },
            (PushState::DescribingRepository, PushEvent::RepositoryMissing) => {
                PushState::CreatingRepository
            },
            (PushState::DescribingRepository, PushEvent::CallFailed { message }) => {
                PushState::Failed {
                    error: DeployError::FatalRemote {
                        operation: RemoteOp::DescribeRepository,
                        message,
                    },
                }
            },
            (PushState::CreatingRepository, PushEvent::RepositoryCreated { uri }) => {
                PushState::Tagging { repo_uri: uri }
            },
            (PushState::CreatingRepository, PushEvent::CallFailed { message }) => {
                PushState::Failed {
                    error: DeployError::FatalRemote {
                        operation: RemoteOp::CreateRepository,
                        message,
                    },
                }
            },
            (PushState::Tagging { repo_uri }, PushEvent::Tagged) => PushState::FetchingToken {
                repo_uri,
            },
            (PushState::Tagging { .. }, PushEvent::CallFailed { message }) => PushState::Failed {
                error: DeployError::FatalRemote { operation: RemoteOp::TagImage, message },
            },
            (
                PushState::FetchingToken { repo_uri },
                PushEvent::TokenFetched { token, proxy_endpoint },
            ) => {
                match (token, proxy_endpoint) {
                    (Some(t), Some(ep)) => {
                        match parse_registry_token(t.as_str()) {
                            Ok((username, password)) => PushState::Pushing {
                                repo_uri,
                                credentials: RegistryCredentials {
                                    username,
                                    password,
                                    server_address: ep,
                                },
                            },
                            Err(_) => PushState::Failed {
                                error: DeployError::RegistryTokenMalformed,
                            },
                        }
                    },
                    _ => PushState::Failed { error: DeployError::RegistryTokenMalformed },
                }
            },
            (PushState::FetchingToken { .. }, PushEvent::CallFailed { message }) => {
                PushState::Failed {
                    error: DeployError::FatalRemote {
                        operation: RemoteOp::FetchRegistryToken,
                        message,
                    },
                }
            },
            (PushState::Pushing { repo_uri, .. }, PushEvent::Pushed) => PushState::Complete {
                repo_uri,
            },
            (PushState::Pushing { .. }, PushEvent::CallFailed { message }) => PushState::Failed {
                error: DeployError::FatalRemote { operation: RemoteOp::PushImage, message },
            },
            (PushState::Complete { repo_uri }, _) => PushState::Complete { repo_uri },
            (PushState::Failed { error }, _) => PushState::Failed { error },
            _ => PushState::Failed { error: DeployError::UnexpectedEvent },
        };
        PushFlow { image_name, state }
    }
}

} // verus!
