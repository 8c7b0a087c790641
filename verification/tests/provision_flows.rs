use sageturner::errors::DeployError;
use sageturner::provision::BucketAction;
use sageturner::provision::BucketEvent;
use sageturner::provision::BucketFlow;
use sageturner::provision::BucketState;
use sageturner::provision::RoleAction;
use sageturner::provision::RoleEvent;
use sageturner::provision::RoleFlow;
use sageturner::provision::RoleState;
use sageturner::provision::UploadAction;
use sageturner::provision::UploadEvent;
use sageturner::provision::UploadFlow;
use sageturner::provision::UploadState;

/// An in-memory identity service: role names and the ARNs they carry.
struct FakeIdentity {
    roles: Vec<(String, String)>,
    minted: usize,
}

impl FakeIdentity {
    fn new() -> FakeIdentity {
        FakeIdentity { roles: Vec::new(), minted: 0 }
    }

    fn lookup(&self, name: &str) -> Option<String> {
        self.roles.iter().find(|(n, _)| n == name).map(|(_, a)| a.clone())
    }

    fn answer(&mut self, action: RoleAction) -> RoleEvent {
        match action {
            RoleAction::CreateRole { role_name, trust_policy } => {
                assert!(trust_policy.contains("sagemaker.amazonaws.com"));
                assert!(trust_policy.contains("sts:AssumeRole"));
                if self.lookup(&role_name).is_some() {
                    RoleEvent::AlreadyExists
                } else {
                    self.minted += 1;
                    let arn = format!("arn:aws:iam::1:role/{}#{}", role_name, self.minted);
                    self.roles.push((role_name, arn.clone()));
                    RoleEvent::Created { arn }
                }
            }
            RoleAction::FetchRole { role_name } => match self.lookup(&role_name) {
                Some(arn) => RoleEvent::Fetched { arn },
                None => RoleEvent::CallFailed { message: "no such role".to_string() },
            },
            RoleAction::AwaitRoleVisible { .. } => RoleEvent::Visible,
            RoleAction::AttachPolicy { policy_arn, .. } => {
                assert_eq!(policy_arn, "arn:aws:iam::aws:policy/AmazonSageMakerFullAccess");
                RoleEvent::PolicyAttached
            }
        }
    }

    fn ensure_role(&mut self, name: &str) -> Result<String, String> {
        let mut flow = RoleFlow::new(name.to_string());
        loop {
            match flow.pending_action() {
                Some(action) => {
                    let ev = self.answer(action);
                    flow = flow.step(ev);
                }
                None => break,
            }
        }
        match flow.state {
            RoleState::Complete { arn } => Ok(arn),
            RoleState::Failed { error } => Err(error.message()),
            _ => Err("flow stopped early".to_string()),
        }
    }
}

#[test]
fn ensure_role_twice_returns_the_same_arn_without_error() {
    let mut identity = FakeIdentity::new();
    let first = identity.ensure_role("sageturner-role-sagemaker").unwrap();
    let second = identity.ensure_role("sageturner-role-sagemaker").unwrap();
    assert_eq!(first, second);
    assert_eq!(identity.roles.len(), 1);
}

#[test]
fn ensure_role_times_out_when_never_visible() {
    let mut flow = RoleFlow::new("slow-role".to_string());
    flow = flow.step(RoleEvent::Created { arn: "arn:aws:iam::1:role/slow-role".to_string() });
    flow = flow.step(RoleEvent::VisibilityTimedOut);
    match flow.state {
        RoleState::Failed { error } => {
            assert!(matches!(error, DeployError::TransientRemote { .. }));
            assert_eq!(error.message(), "timed out while waiting for the role to be created");
        }
        _ => panic!("expected a failed flow"),
    }
}

#[test]
fn a_flow_refuses_an_event_its_state_cannot_accept() {
    let mut flow = RoleFlow::new("role".to_string());
    flow = flow.step(RoleEvent::PolicyAttached);
    assert!(matches!(
        flow.state,
        RoleState::Failed { error: DeployError::UnexpectedEvent }
    ));
    // The absorbing state swallows everything that follows.
    flow = flow.step(RoleEvent::Created { arn: "arn".to_string() });
    assert!(matches!(flow.state, RoleState::Failed { .. }));
    assert!(flow.pending_action().is_none());
}

/// An in-memory object store: the buckets that exist.
struct FakeStore {
    buckets: Vec<String>,
}

impl FakeStore {
    fn answer(&mut self, action: BucketAction) -> BucketEvent {
        match action {
            BucketAction::HeadBucket { bucket_name } => {
                if self.buckets.iter().any(|b| *b == bucket_name) {
                    BucketEvent::Exists
                } else {
                    BucketEvent::Missing
                }
            }
            BucketAction::CreateBucket { bucket_name, location } => {
                assert_eq!(location, "eu-west-2");
                if self.buckets.iter().any(|b| *b == bucket_name) {
                    BucketEvent::AlreadyExists
                } else {
                    self.buckets.push(bucket_name);
                    BucketEvent::Created
                }
            }
        }
    }

    fn ensure_bucket(&mut self, name: &str) -> Result<(), String> {
        let mut flow = BucketFlow::new(name.to_string());
        loop {
            match flow.pending_action() {
                Some(action) => {
                    let ev = self.answer(action);
                    flow = flow.step(ev);
                }
                None => break,
            }
        }
        match flow.state {
            BucketState::Complete => Ok(()),
            BucketState::Failed { error } => Err(error.message()),
            _ => Err("flow stopped early".to_string()),
        }
    }
}

#[test]
fn ensure_bucket_twice_succeeds_both_times() {
    let mut store = FakeStore { buckets: Vec::new() };
    store.ensure_bucket("sageturner-sagemaker-models").unwrap();
    store.ensure_bucket("sageturner-sagemaker-models").unwrap();
    assert_eq!(store.buckets.len(), 1);
}

#[test]
fn ensure_bucket_tolerates_racing_creation() {
    // The probe misses, but the create call answers "already exists":
    // still success.
    let mut flow = BucketFlow::new("bucket".to_string());
    flow = flow.step(BucketEvent::Missing);
    flow = flow.step(BucketEvent::AlreadyExists);
    assert!(matches!(flow.state, BucketState::Complete));
}

#[test]
fn upload_rejects_wrong_archive_name_before_any_call() {
    let flow = UploadFlow::new(
        "weights/model.zip".to_string(),
        "bucket".to_string(),
        "demo/ts/model.zip".to_string(),
    );
    assert!(matches!(
        flow.state,
        UploadState::Failed { error: DeployError::ArtefactNotTarGz }
    ));
    assert!(flow.pending_action().is_none());
}

#[test]
fn upload_walks_put_then_wait_and_returns_the_remote_path() {
    let mut flow = UploadFlow::new(
        "weights/model.tar.gz".to_string(),
        "sageturner-sagemaker-models".to_string(),
        "demo/010120250101/model.tar.gz".to_string(),
    );
    assert!(matches!(
        flow.pending_action(),
        Some(UploadAction::PutObject { bucket_name, key, local_path })
            if bucket_name == "sageturner-sagemaker-models"
                && key == "demo/010120250101/model.tar.gz"
                && local_path == "weights/model.tar.gz"
    ));
    flow = flow.step(UploadEvent::Stored);
    assert!(matches!(flow.pending_action(), Some(UploadAction::AwaitObjectVisible { .. })));
    flow = flow.step(UploadEvent::ObjectVisible);
    assert!(matches!(flow.state, UploadState::Complete));
    assert_eq!(
        flow.remote_path,
        "s3://sageturner-sagemaker-models/demo/010120250101/model.tar.gz"
    );
}

#[test]
fn upload_times_out_when_object_never_visible() {
    let mut flow = UploadFlow::new(
        "model.tar.gz".to_string(),
        "bucket".to_string(),
        "k/model.tar.gz".to_string(),
    );
    flow = flow.step(UploadEvent::Stored);
    flow = flow.step(UploadEvent::VisibilityTimedOut);
    match flow.state {
        UploadState::Failed { error } => {
            assert_eq!(error.message(), "timed out while waiting for the artefact to be visible");
        }
        _ => panic!("expected a failed flow"),
    }
}
