//! Provisioning flows for the long-lived shared resources: the execution
//! role, the artifact bucket, and the artefact upload.  Each flow is a
//! state machine: it asks for one remote call at a time and advances on
//! the call's outcome.  Creation is create-if-absent — "already exists"
//! answers are absorbed, never surfaced — and the two consistency waits
//! are bounded, failing the run when they time out.

use vstd::prelude::*;

verus! {

use vstd::string::StringExecFns;
use crate::errors::DeployError;
use crate::errors::RemoteOp;
use crate::text::is_tar_gz;
use crate::text::is_tar_gz_path;

/// The fixed trust policy scoping role assumption to the serving
/// platform's service principal.
pub const TRUST_POLICY: &'static str = r#"{
        "Version": "2012-10-17",
        "Statement": [
            {
                "Effect": "Allow",
                "Principal": {
                    "Service": "sagemaker.amazonaws.com"
                },
                "Action": "sts:AssumeRole"
            }
        ]
    }"#;

/// The fixed managed permission policy attached to a freshly created role.
pub const SAGEMAKER_POLICY_ARN: &'static str = "arn:aws:iam::aws:policy/AmazonSageMakerFullAccess";

/// The location constraint a freshly created bucket is placed under.
pub const BUCKET_LOCATION: &'static str = "eu-west-2";

/// Where an ensure-role pass stands.
pub enum RoleState {
    /// Asking the identity service to create the role.
    Creating,
    /// The role already existed; asking for its ARN instead.
    Fetching,
    /// Created; waiting for the role to become consistently readable.
    AwaitingVisibility { arn: String },
    /// Visible; attaching the managed permission policy.
    AttachingPolicy { arn: String },
    /// The role exists, is visible, and carries the policy.
    Complete { arn: String },
    /// The pass aborted.
    Failed { error: DeployError },
}

/// The remote call an ensure-role pass asks for next.
pub enum RoleAction {
    CreateRole { role_name: String, trust_policy: &'static str },
    FetchRole { role_name: String },
    AwaitRoleVisible { role_name: String },
    AttachPolicy { role_name: String, policy_arn: &'static str },
}

/// The outcome of the last remote call of an ensure-role pass.
pub enum RoleEvent {
    /// The role was created; its ARN came back with the answer.
    Created { arn: String },
    /// Creation was refused because the role already exists.
    AlreadyExists,
    /// The existing role was fetched.
    Fetched { arn: String },
    /// The bounded wait saw the role.
    Visible,
    /// The bounded wait ran out.
    VisibilityTimedOut,
    /// The managed policy is attached.
    PolicyAttached,
    /// The call failed for any other reason.
    CallFailed { message: String },
}

/// How an ensure-role pass advances on an outcome.
pub open spec fn role_step(s: RoleState, ev: RoleEvent) -> RoleState {
    match (s, ev) {
        (RoleState::Creating, RoleEvent::Created { arn }) => RoleState::AwaitingVisibility { arn },
        (RoleState::Creating, RoleEvent::AlreadyExists) => RoleState::Fetching,
        (RoleState::Creating, RoleEvent::CallFailed { message }) => RoleState::Failed {
            error: DeployError::FatalRemote { operation: RemoteOp::CreateRole, message },
        },
        (RoleState::Fetching, RoleEvent::Fetched { arn }) => RoleState::Complete { arn },
        (RoleState::Fetching, RoleEvent::CallFailed { message }) => RoleState::Failed {
            error: DeployError::FatalRemote { operation: RemoteOp::FetchRole, message },
        },
        (RoleState::AwaitingVisibility { arn }, RoleEvent::Visible) => RoleState::AttachingPolicy {
            arn,
        },
        (RoleState::AwaitingVisibility { .. }, RoleEvent::VisibilityTimedOut) => RoleState::Failed {
            error: DeployError::TransientRemote { operation: RemoteOp::AwaitRole },
        },
        (RoleState::AwaitingVisibility { .. }, RoleEvent::CallFailed { message }) => {
            RoleState::Failed {
                error: DeployError::FatalRemote { operation: RemoteOp::AwaitRole, message },
            }
        },
        (RoleState::AttachingPolicy { arn }, RoleEvent::PolicyAttached) => RoleState::Complete {
            arn,
        },
        (RoleState::AttachingPolicy { .. }, RoleEvent::CallFailed { message }) => {
            RoleState::Failed {
                error: DeployError::FatalRemote { operation: RemoteOp::AttachPolicy, message },
            }
        },
        (RoleState::Complete { arn }, _) => RoleState::Complete { arn },
        (RoleState::Failed { error }, _) => RoleState::Failed { error },
        _ => RoleState::Failed { error: DeployError::UnexpectedEvent },
    }
}

/// An ensure-role pass: creates the role with the fixed trust policy,
/// waits for it to become visible and attaches the fixed managed policy;
/// where the role already exists, fetches its ARN instead and leaves the
/// policy alone.
pub struct RoleFlow {
    pub role_name: String,
    pub state: RoleState,
}

/// The remote call an ensure-role pass asks for in each state.
pub open spec fn role_action(f: RoleFlow) -> Option<RoleAction> {
    match f.state {
        RoleState::Creating => Some(
            RoleAction::CreateRole { role_name: f.role_name, trust_policy: TRUST_POLICY },
        ),
        RoleState::Fetching => Some(RoleAction::FetchRole { role_name: f.role_name }),
        RoleState::AwaitingVisibility { .. } => Some(
            RoleAction::AwaitRoleVisible { role_name: f.role_name },
        ),
        RoleState::AttachingPolicy { .. } => Some(
            RoleAction::AttachPolicy { role_name: f.role_name, policy_arn: SAGEMAKER_POLICY_ARN },
        ),
        RoleState::Complete { .. } => None,
        RoleState::Failed { .. } => None,
    }
}

impl RoleFlow {
    /// A fresh pass for the given role name.
    pub fn new(role_name: String) -> (r: RoleFlow)
        ensures
            r.role_name == role_name,
            r.state == RoleState::Creating,
    {
        RoleFlow { role_name, state: RoleState::Creating }
    }

    /// The remote call to perform next; nothing once the pass has ended.
    pub fn pending_action(&self) -> (r: Option<RoleAction>)
        ensures
            r == role_action(*self),
    {
        match &self.state {
            RoleState::Creating => Some(
                RoleAction::CreateRole {
                    role_name: self.role_name.clone(),
                    trust_policy: TRUST_POLICY,
                },
            ),
            RoleState::Fetching => Some(
                RoleAction::FetchRole { role_name: self.role_name.clone() },
            ),
            RoleState::AwaitingVisibility { .. } => Some(
                RoleAction::AwaitRoleVisible { role_name: self.role_name.clone() },
            ),
            RoleState::AttachingPolicy { .. } => Some(
                RoleAction::AttachPolicy {
                    role_name: self.role_name.clone(),
                    policy_arn: SAGEMAKER_POLICY_ARN,
                },
            ),
            RoleState::Complete { .. } => None,
            RoleState::Failed { .. } => None,
        }
    }

    /// Advance on the outcome of the call last asked for.
    pub fn step(self, ev: RoleEvent) -> (r: RoleFlow)
        ensures
            r.role_name == self.role_name,
            r.state == role_step(self.state, ev),
    {
        let RoleFlow { role_name, state } = self;
        let state = match (state, ev) {
            (RoleState::Creating, RoleEvent::Created { arn }) => RoleState::AwaitingVisibility {
                arn,
            },
            (RoleState::Creating, RoleEvent::AlreadyExists) => RoleState::Fetching,
            (RoleState::Creating, RoleEvent::CallFailed { message }) => RoleState::Failed {
                error: DeployError::FatalRemote { operation: RemoteOp::CreateRole, message },
            },
            (RoleState::Fetching, RoleEvent::Fetched { arn }) => RoleState::Complete { arn },
            (RoleState::Fetching, RoleEvent::CallFailed { message }) => RoleState::Failed {
                error: DeployError::FatalRemote { operation: RemoteOp::FetchRole, message },
            },
            (RoleState::AwaitingVisibility { arn }, RoleEvent::Visible) => {
                RoleState::AttachingPolicy { arn }
            },
            (RoleState::AwaitingVisibility { .. }, RoleEvent::VisibilityTimedOut) => {
                RoleState::Failed {
                    error: DeployError::TransientRemote { operation: RemoteOp::AwaitRole },
                }
            },
            (RoleState::AwaitingVisibility { .. }, RoleEvent::CallFailed { message }) => {
                RoleState::Failed {
                    error: DeployError::FatalRemote { operation: RemoteOp::AwaitRole, message },
                }
            },
            (RoleState::AttachingPolicy { arn }, RoleEvent::PolicyAttached) => RoleState::Complete {
                arn,
            },
            (RoleState::AttachingPolicy { .. }, RoleEvent::CallFailed { message }) => {
                RoleState::Failed {
                    error: DeployError::FatalRemote { operation: RemoteOp::AttachPolicy, message },
                }
            },
            (RoleState::Complete { arn }, _) => RoleState::Complete { arn },
            (RoleState::Failed { error }, _) => RoleState::Failed { error },
            _ => RoleState::Failed { error: DeployError::UnexpectedEvent },
        };
        RoleFlow { role_name, state }
    }
}

/// Where an ensure-bucket pass stands.
pub enum BucketState {
    /// Probing the bucket's metadata to see whether it exists.
    Probing,
    /// Absent (or unreadable); creating it with the location constraint.
    CreatingBucket,
    /// The bucket exists.
    Complete,
    /// The pass aborted.
    Failed { error: DeployError },
}

/// The remote call an ensure-bucket pass asks for next.
pub enum BucketAction {
    HeadBucket { bucket_name: String },
    CreateBucket { bucket_name: String, location: &'static str },
}

/// The outcome of the last remote call of an ensure-bucket pass.
pub enum BucketEvent {
    /// The metadata probe found the bucket.
    Exists,
    /// The metadata probe did not find it.
    Missing,
    /// The bucket was created.
    Created,
    /// Creation was refused because the bucket already exists.
    AlreadyExists,
    /// The call failed for any other reason.
    CallFailed { message: String },
}

/// How an ensure-bucket pass advances on an outcome.  A failed probe
/// counts as absent, and an "already exists" answer to the create call
/// is success.
pub open spec fn bucket_step(s: BucketState, ev: BucketEvent) -> BucketState {
    match (s, ev) {
        (BucketState::Probing, BucketEvent::Exists) => BucketState::Complete,
        (BucketState::Probing, BucketEvent::Missing) => BucketState::CreatingBucket,
        (BucketState::Probing, BucketEvent::CallFailed { .. }) => BucketState::CreatingBucket,
        (BucketState::CreatingBucket, BucketEvent::Created) => BucketState::Complete,
        (BucketState::CreatingBucket, BucketEvent::AlreadyExists) => BucketState::Complete,
        (BucketState::CreatingBucket, BucketEvent::CallFailed { message }) => BucketState::Failed {
            error: DeployError::FatalRemote { operation: RemoteOp::CreateBucket, message },
        },
        (BucketState::Complete, _) => BucketState::Complete,
        (BucketState::Failed { error }, _) => BucketState::Failed { error },
        _ => BucketState::Failed { error: DeployError::UnexpectedEvent },
    }
}

/// An ensure-bucket pass: probes first, creates only if absent, and
/// absorbs an "already exists" answer as success.
pub struct BucketFlow {
    pub bucket_name: String,
    pub state: BucketState,
}

/// The remote call an ensure-bucket pass asks for in each state.
pub open spec fn bucket_action(f: BucketFlow) -> Option<BucketAction> {
    match f.state {
        BucketState::Probing => Some(BucketAction::HeadBucket { bucket_name: f.bucket_name }),
        BucketState::CreatingBucket => Some(
            BucketAction::CreateBucket { bucket_name: f.bucket_name, location: BUCKET_LOCATION },
        ),
        BucketState::Complete => None,
        BucketState::Failed { .. } => None,
    }
}

impl BucketFlow {
    /// A fresh pass for the given bucket name.
    pub fn new(bucket_name: String) -> (r: BucketFlow)
        ensures
            r.bucket_name == bucket_name,
            r.state == BucketState::Probing,
    {
        BucketFlow { bucket_name, state: BucketState::Probing }
    }

    /// The remote call to perform next; nothing once the pass has ended.
    pub fn pending_action(&self) -> (r: Option<BucketAction>)
        ensures
            r == bucket_action(*self),
    {
        match &self.state {
            BucketState::Probing => Some(
                BucketAction::HeadBucket { bucket_name: self.bucket_name.clone() },
            ),
            BucketState::CreatingBucket => Some(
                BucketAction::CreateBucket {
                    bucket_name: self.bucket_name.clone(),
                    location: BUCKET_LOCATION,
                },
            ),
            BucketState::Complete => None,
            BucketState::Failed { .. } => None,
        }
    }

    /// Advance on the outcome of the call last asked for.
    pub fn step(self, ev: BucketEvent) -> (r: BucketFlow)
        ensures
            r.bucket_name == self.bucket_name,
            r.state == bucket_step(self.state, ev),
    {
        let BucketFlow { bucket_name, state } = self;
        let state = match (state, ev) {
            (BucketState::Probing, BucketEvent::Exists) => BucketState::Complete,
            (BucketState::Probing, BucketEvent::Missing) => BucketState::CreatingBucket,
            (BucketState::Probing, BucketEvent::CallFailed { .. }) => BucketState::CreatingBucket,
            (BucketState::CreatingBucket, BucketEvent::Created) => BucketState::Complete,
            (BucketState::CreatingBucket, BucketEvent::AlreadyExists) => BucketState::Complete,
            (BucketState::CreatingBucket, BucketEvent::CallFailed { message }) => {
                BucketState::Failed {
                    error: DeployError::FatalRemote { operation: RemoteOp::CreateBucket, message },
                }
            },
            (BucketState::Complete, _) => BucketState::Complete,
            (BucketState::Failed { error }, _) => BucketState::Failed { error },
            _ => BucketState::Failed { error: DeployError::UnexpectedEvent },
        };
        BucketFlow { bucket_name, state }
    }
}

/// Where an artefact upload stands.
pub enum UploadState {
    /// Uploading the object.
    Putting,
    /// Uploaded; waiting for the object to be confirmed visible.
    AwaitingObject,
    /// The object is durably visible under the flow's remote path.
    Complete,
    /// The upload aborted.
    Failed { error: DeployError },
}

/// The remote call an upload asks for next.
pub enum UploadAction {
    PutObject { bucket_name: String, key: String, local_path: String },
    AwaitObjectVisible { bucket_name: String, key: String },
}

/// The outcome of the last remote call of an upload.
pub enum UploadEvent {
    /// The object was stored.
    Stored,
    /// The bounded wait saw the object.
    ObjectVisible,
    /// The bounded wait ran out.
    VisibilityTimedOut,
    /// The call failed for any other reason.
    CallFailed { message: String },
}

/// How an upload advances on an outcome.
pub open spec fn upload_step(s: UploadState, ev: UploadEvent) -> UploadState {
    match (s, ev) {
        (UploadState::Putting, UploadEvent::Stored) => UploadState::AwaitingObject,
        (UploadState::Putting, UploadEvent::CallFailed { message }) => UploadState::Failed {
            error: DeployError::FatalRemote { operation: RemoteOp::PutObject, message },
        },
        (UploadState::AwaitingObject, UploadEvent::ObjectVisible) => UploadState::Complete,
        (UploadState::AwaitingObject, UploadEvent::VisibilityTimedOut) => UploadState::Failed {
            error: DeployError::TransientRemote { operation: RemoteOp::AwaitObject },
        },
        (UploadState::AwaitingObject, UploadEvent::CallFailed { message }) => UploadState::Failed {
            error: DeployError::FatalRemote { operation: RemoteOp::AwaitObject, message },
        },
        (UploadState::Complete, _) => UploadState::Complete,
        (UploadState::Failed { error }, _) => UploadState::Failed { error },
        _ => UploadState::Failed { error: DeployError::UnexpectedEvent },
    }
}

/// An artefact upload: the archive-format policy check runs locally at
/// construction, the object is then stored and its visibility awaited
/// before the remote path is handed on.
pub struct UploadFlow {
    pub bucket_name: String,
    pub key: String,
    pub local_path: String,
    /// The address the uploaded object is reachable under.
    pub remote_path: String,
    pub state: UploadState,
}

/// The remote call an upload asks for in each state.
pub open spec fn upload_action(f: UploadFlow) -> Option<UploadAction> {
    match f.state {
        UploadState::Putting => Some(
            UploadAction::PutObject {
                bucket_name: f.bucket_name,
                key: f.key,
                local_path: f.local_path,
            },
        ),
        UploadState::AwaitingObject => Some(
            UploadAction::AwaitObjectVisible { bucket_name: f.bucket_name, key: f.key },
        ),
        UploadState::Complete => None,
        UploadState::Failed { .. } => None,
    }
}

impl UploadFlow {
    /// A fresh upload.  An artefact whose file name does not denote a
    /// gzip-compressed tar archive is rejected here, before any remote
    /// call is asked for.
    pub fn new(local_path: String, bucket_name: String, key: String) -> (r: UploadFlow)
        ensures
            r.bucket_name == bucket_name,
            r.key == key,
            r.local_path == local_path,
            r.remote_path@ == "s3://"@ + bucket_name@ + "/"@ + key@,
            is_tar_gz_path(local_path@) ==> r.state == UploadState::Putting,
            !is_tar_gz_path(local_path@) ==> r.state == (UploadState::Failed {
                error: DeployError::ArtefactNotTarGz,
            }) && upload_action(r) is None,
    {
        let mut remote_path = String::from_str("s3://");
        remote_path.append(bucket_name.as_str());
        remote_path.append("/");
        remote_path.append(key.as_str());
        let state = if is_tar_gz(local_path.as_str()) {
            UploadState::Putting
        } else {
            UploadState::Failed { error: DeployError::ArtefactNotTarGz }
        };
        UploadFlow { bucket_name, key, local_path, remote_path, state }
    }

    /// The remote call to perform next; nothing once the upload has ended.
    pub fn pending_action(&self) -> (r: Option<UploadAction>)
        ensures
            r == upload_action(*self),
    {
        match &self.state {
            UploadState::Putting => Some(
                UploadAction::PutObject {
                    bucket_name: self.bucket_name.clone(),
                    key: self.key.clone(),
                    local_path: self.local_path.clone(),
                },
            ),
            UploadState::AwaitingObject => Some(
                UploadAction::AwaitObjectVisible {
                    bucket_name: self.bucket_name.clone(),
                    key: self.key.clone(),
                },
            ),
            UploadState::Complete => None,
            UploadState::Failed { .. } => None,
        }
    }

    /// Advance on the outcome of the call last asked for.
    pub fn step(self, ev: UploadEvent) -> (r: UploadFlow)
        ensures
            r.bucket_name == self.bucket_name,
            r.key == self.key,
            r.local_path == self.local_path,
            r.remote_path == self.remote_path,
            r.state == upload_step(self.state, ev),
    {
        let UploadFlow { bucket_name, key, local_path, remote_path, state } = self;
        let state = match (state, ev) {
            (UploadState::Putting, UploadEvent::Stored) => UploadState::AwaitingObject,
            (UploadState::Putting, UploadEvent::CallFailed { message }) => UploadState::Failed {
                error: DeployError::FatalRemote { operation: RemoteOp::PutObject, message },
            },
            (UploadState::AwaitingObject, UploadEvent::ObjectVisible) => UploadState::Complete,
            (UploadState::AwaitingObject, UploadEvent::VisibilityTimedOut) => UploadState::Failed {
                error: DeployError::TransientRemote { operation: RemoteOp::AwaitObject },
            },
            (UploadState::AwaitingObject, UploadEvent::CallFailed { message }) => {
                UploadState::Failed {
                    error: DeployError::FatalRemote { operation: RemoteOp::AwaitObject, message },
                }
            },
            (UploadState::Complete, _) => UploadState::Complete,
            (UploadState::Failed { error }, _) => UploadState::Failed { error },
            _ => UploadState::Failed { error: DeployError::UnexpectedEvent },
        };
        UploadFlow { bucket_name, key, local_path, remote_path, state }
    }
}

/// An ensure-role pass run against a sequence of outcomes, in order.
pub open spec fn run_role(s: RoleState, evs: Seq<RoleEvent>) -> RoleState
    decreases evs.len(),
{
    if evs.len() == 0 {
        s
    } else {
        run_role(role_step(s, evs[0]), evs.drop_first())
    }
}

/// An ensure-bucket pass run against a sequence of outcomes, in order.
pub open spec fn run_bucket(s: BucketState, evs: Seq<BucketEvent>) -> BucketState
    decreases evs.len(),
{
    if evs.len() == 0 {
        s
    } else {
        run_bucket(bucket_step(s, evs[0]), evs.drop_first())
    }
}

/// The outcomes a well-behaved identity service answers one ensure-role
/// pass with: the directory maps existing role names to their ARNs,
/// `fresh` is the ARN a creation would mint, and `stored` is the ARN the
/// directory already holds for the name, where it holds one.
pub open spec fn role_service_events(
    roles: Map<Seq<char>, Seq<char>>,
    name: Seq<char>,
    fresh: String,
    stored: String,
) -> Seq<RoleEvent> {
    if roles.contains_key(name) {
        seq![RoleEvent::AlreadyExists, RoleEvent::Fetched { arn: stored }]
    } else {
        seq![RoleEvent::Created { arn: fresh }, RoleEvent::Visible, RoleEvent::PolicyAttached]
    }
}

/// The directory after one ensure-role pass: unchanged where the role
/// existed, extended by the minted ARN where it did not.
pub open spec fn roles_after_ensure(
    roles: Map<Seq<char>, Seq<char>>,
    name: Seq<char>,
    fresh: String,
) -> Map<Seq<char>, Seq<char>> {
    if roles.contains_key(name) {
        roles
    } else {
        roles.insert(name, fresh@)
    }
}

/// One ensure-role pass against a well-behaved identity service always
/// completes, and the ARN it returns is the one the directory holds for
/// the name afterwards.
pub proof fn lemma_ensure_role_completes(
    roles: Map<Seq<char>, Seq<char>>,
    name: Seq<char>,
    fresh: String,
    stored: String,
)
    requires
        roles.contains_key(name) ==> stored@ == roles[name],
    ensures
        run_role(RoleState::Creating, role_service_events(roles, name, fresh, stored))
            matches RoleState::Complete { arn } && arn@ == roles_after_ensure(
            roles,
            name,
            fresh,
        )[name],
{
    let evs = role_service_events(roles, name, fresh, stored);
    if roles.contains_key(name) {
        let s1 = role_step(RoleState::Creating, evs[0]);
        let t1 = evs.drop_first();
        assert(s1 == RoleState::Fetching);
        assert(run_role(RoleState::Creating, evs) == run_role(s1, t1));
        let s2 = role_step(s1, t1[0]);
        let t2 = t1.drop_first();
        assert(t1[0] == RoleEvent::Fetched { arn: stored });
        assert(s2 == RoleState::Complete { arn: stored });
        assert(run_role(s1, t1) == run_role(s2, t2));
        assert(t2.len() == 0);
        assert(run_role(s2, t2) == s2);
    } else {
        let s1 = role_step(RoleState::Creating, evs[0]);
        let t1 = evs.drop_first();
        assert(evs[0] == RoleEvent::Created { arn: fresh });
        assert(s1 == RoleState::AwaitingVisibility { arn: fresh });
        assert(run_role(RoleState::Creating, evs) == run_role(s1, t1));
        let s2 = role_step(s1, t1[0]);
        let t2 = t1.drop_first();
        assert(t1[0] == RoleEvent::Visible);
        assert(s2 == RoleState::AttachingPolicy { arn: fresh });
        assert(run_role(s1, t1) == run_role(s2, t2));
        let s3 = role_step(s2, t2[0]);
        let t3 = t2.drop_first();
        assert(t2[0] == RoleEvent::PolicyAttached);
        assert(s3 == RoleState::Complete { arn: fresh });
        assert(run_role(s2, t2) == run_role(s3, t3));
        assert(t3.len() == 0);
        assert(run_role(s3, t3) == s3);
    }
}

/// Ensuring the same role twice in succession never errors the second
/// time and returns the same ARN both times, and the second pass leaves
/// the directory as the first pass left it.
pub proof fn ensure_role_idempotent(
    roles: Map<Seq<char>, Seq<char>>,
    name: Seq<char>,
    fresh1: String,
    stored1: String,
    fresh2: String,
    stored2: String,
)
    requires
        roles.contains_key(name) ==> stored1@ == roles[name],
        stored2@ == roles_after_ensure(roles, name, fresh1)[name],
    ensures
        ({
            let after = roles_after_ensure(roles, name, fresh1);
            let first = run_role(RoleState::Creating, role_service_events(
                roles,
                name,
                fresh1,
                stored1,
            ));
            let second = run_role(RoleState::Creating, role_service_events(
                after,
                name,
                fresh2,
                stored2,
            ));
            &&& first matches RoleState::Complete { arn: a1 } && second
                matches RoleState::Complete { arn: a2 } && a1@ == a2@
            &&& roles_after_ensure(after, name, fresh2) == after
        }),
{
    let after = roles_after_ensure(roles, name, fresh1);
    lemma_ensure_role_completes(roles, name, fresh1, stored1);
    assert(after.contains_key(name));
    lemma_ensure_role_completes(after, name, fresh2, stored2);
}

/// The outcomes a well-behaved object store answers one ensure-bucket
/// pass with, given the buckets existing before the pass.
pub open spec fn bucket_service_events(buckets: Set<Seq<char>>, name: Seq<char>) -> Seq<
    BucketEvent,
> {
    if buckets.contains(name) {
        seq![BucketEvent::Exists]
    } else {
        seq![BucketEvent::Missing, BucketEvent::Created]
    }
}

/// The buckets after one ensure-bucket pass.
pub open spec fn buckets_after_ensure(buckets: Set<Seq<char>>, name: Seq<char>) -> Set<Seq<char>> {
    buckets.insert(name)
}

/// One ensure-bucket pass against a well-behaved object store always
/// completes.
pub proof fn lemma_ensure_bucket_completes(buckets: Set<Seq<char>>, name: Seq<char>)
    ensures
        run_bucket(BucketState::Probing, bucket_service_events(buckets, name))
            == BucketState::Complete,
{
    let evs = bucket_service_events(buckets, name);
    if buckets.contains(name) {
        let s1 = bucket_step(BucketState::Probing, evs[0]);
        let t1 = evs.drop_first();
        assert(s1 == BucketState::Complete);
        assert(run_bucket(BucketState::Probing, evs) == run_bucket(s1, t1));
        assert(t1.len() == 0);
        assert(run_bucket(s1, t1) == s1);
    } else {
        let s1 = bucket_step(BucketState::Probing, evs[0]);
        let t1 = evs.drop_first();
        assert(s1 == BucketState::CreatingBucket);
        assert(run_bucket(BucketState::Probing, evs) == run_bucket(s1, t1));
        let s2 = bucket_step(s1, t1[0]);
        let t2 = t1.drop_first();
        assert(t1[0] == BucketEvent::Created);
        assert(s2 == BucketState::Complete);
        assert(run_bucket(s1, t1) == run_bucket(s2, t2));
        assert(t2.len() == 0);
        assert(run_bucket(s2, t2) == s2);
    }
}

/// Ensuring the same bucket twice in succession never errors the second
/// time, and the second pass leaves the store as the first pass left it.
pub proof fn ensure_bucket_idempotent(buckets: Set<Seq<char>>, name: Seq<char>)
    ensures
        run_bucket(BucketState::Probing, bucket_service_events(buckets, name))
            == BucketState::Complete,
        run_bucket(
            BucketState::Probing,
            bucket_service_events(buckets_after_ensure(buckets, name), name),
        ) == BucketState::Complete,
        buckets_after_ensure(buckets_after_ensure(buckets, name), name) == buckets_after_ensure(
            buckets,
            name,
        ),
{
    lemma_ensure_bucket_completes(buckets, name);
    lemma_ensure_bucket_completes(buckets_after_ensure(buckets, name), name);
    assert(buckets_after_ensure(buckets_after_ensure(buckets, name), name)
        =~= buckets_after_ensure(buckets, name));
}

} // verus!
