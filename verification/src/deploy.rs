//! The deployment orchestrator.  A validated configuration is resolved
//! once into a `DeployPlan` — every name, override and derived identity
//! is fixed before any remote call — and a `Deployment` then walks the
//! pipeline: build, push, role, (bucket, upload where an artefact is
//! configured), model, endpoint config, endpoint.  The machine asks for
//! one remote call at a time and advances on the call's outcome; every
//! failure falls into one absorbing state, and no stage is revisited.

use vstd::prelude::*;

verus! {

use vstd::string::StringExecFns;
use vstd::pervasive::unreached;
use crate::config::CodeDirProbe;
use crate::config::ContainerMode;
use crate::config::EndpointType;
use crate::config::ModelConfig;
use crate::config::validate_config;
use crate::config::validate_spec;
use crate::container::dockerfile_for;
use crate::container::dockerfile_text;
use crate::errors::DeployError;
use crate::errors::RemoteOp;
use crate::errors::ValidationError;
use crate::provision::BucketFlow;
use crate::provision::BucketState;
use crate::provision::BucketEvent;
use crate::provision::BucketAction;
use crate::provision::bucket_action;
use crate::provision::bucket_step;
use crate::provision::RoleFlow;
use crate::provision::RoleState;
use crate::provision::RoleEvent;
use crate::provision::RoleAction;
use crate::provision::role_action;
use crate::provision::role_step;
use crate::provision::UploadFlow;
use crate::provision::UploadState;
use crate::provision::UploadEvent;
use crate::provision::UploadAction;
use crate::provision::upload_action;
use crate::provision::upload_step;
use crate::pyserve::SERVE_CODE;
use crate::pyserve::get_serve_code;
use crate::registry::PushFlow;
use crate::registry::PushState;
use crate::registry::PushEvent;
use crate::registry::PushAction;
use crate::registry::push_action;
use crate::registry::push_step_rel;
use crate::text::file_name;
use crate::text::file_name_of;
use crate::text::is_tar_gz_path;
use crate::text::join_packages;
use crate::text::join_spaced;

/// The well-known role name used when the config carries no override.
pub const DEFAULT_ROLE_NAME: &'static str = "sageturner-role-sagemaker";

/// The well-known bucket name used when the config carries no override.
pub const DEFAULT_BUCKET_NAME: &'static str = "sageturner-sagemaker-models";

/// The single production variant every endpoint config describes.
pub const VARIANT_NAME: &'static str = "sageturner-variant-1";

/// How the container image is produced.
pub enum BuildPlan {
    /// Build the caller-owned build context as it stands.
    Provided { context_dir: String, image_name: String },
    /// Synthesize a build context from the code directory, the generated
    /// entry-point server, and the parameterized build definition.
    Generated {
        code_dir: String,
        image_name: String,
        dockerfile: String,
        serve_code: String,
        python_packages: String,
        system_packages: String,
        python_version: String,
    },
}

impl BuildPlan {
    /// An equal copy.
    pub fn duplicate(&self) -> (r: BuildPlan)
        ensures
            r == *self,
    {
        match self {
            BuildPlan::Provided { context_dir, image_name } => BuildPlan::Provided {
                context_dir: context_dir.clone(),
                image_name: image_name.clone(),
            },
            BuildPlan::Generated {
                code_dir,
                image_name,
                dockerfile,
                serve_code,
                python_packages,
                system_packages,
                python_version,
            } => BuildPlan::Generated {
                code_dir: code_dir.clone(),
                image_name: image_name.clone(),
                dockerfile: dockerfile.clone(),
                serve_code: serve_code.clone(),
                python_packages: python_packages.clone(),
                system_packages: system_packages.clone(),
                python_version: python_version.clone(),
            },
        }
    }
}

/// The capacity topology the endpoint is provisioned under.
pub enum EndpointPlan {
    Serverless { memory: i32, max_concurrency: i32, provisioned_concurrency: i32 },
    Server { instance_type: String, initial_instance_count: i32 },
}

/// Everything a run needs, resolved once from the validated config
/// before any remote call: the derived identity, the resolved resource
/// names, and the build and endpoint shapes.
pub struct DeployPlan {
    /// The configured model name, also the image and repository name.
    pub model_name: String,
    /// The generation instant the identity is derived from.
    pub timestamp: String,
    /// The registered model's name: the model name plus the timestamp.
    pub model_version_name: String,
    /// Derived from the model version name.
    pub endpoint_config_name: String,
    /// Derived from the model version name.
    pub endpoint_name: String,
    /// The artifact bucket: the override where present and non-empty,
    /// the well-known default otherwise.
    pub bucket_name: String,
    /// The execution role: the override where present and non-empty,
    /// the well-known default otherwise.
    pub role_name: String,
    /// The configured artefact path, if any.
    pub artefact: Option<String>,
    /// The object key the artefact is stored under, if any.
    pub artefact_key: Option<String>,
    pub build: BuildPlan,
    pub endpoint: EndpointPlan,
}

/// The bucket name the run uses: an override present and non-empty wins.
pub open spec fn resolved_bucket(mc: ModelConfig) -> Seq<char> {
    match mc.overrides {
        Some(o) => match o.bucket_name {
            Some(b) => if b@.len() > 0 {
                b@
            } else {
                DEFAULT_BUCKET_NAME@
            },
            None => DEFAULT_BUCKET_NAME@,
        },
        None => DEFAULT_BUCKET_NAME@,
    }
}

/// The role name the run uses: an override present and non-empty wins.
pub open spec fn resolved_role(mc: ModelConfig) -> Seq<char> {
    match mc.overrides {
        Some(o) => match o.role_arn {
            Some(r) => if r@.len() > 0 {
                r@
            } else {
                DEFAULT_ROLE_NAME@
            },
            None => DEFAULT_ROLE_NAME@,
        },
        None => DEFAULT_ROLE_NAME@,
    }
}

/// The package lists a build-arg string is joined from.
pub open spec fn opt_packages(o: Option<Vec<String>>) -> Seq<Seq<char>> {
    match o {
        Some(v) => v.deep_view(),
        None => Seq::empty(),
    }
}

/// What a plan resolved from `mc` at `timestamp` holds.
pub open spec fn plan_matches(
    mc: ModelConfig,
    et: EndpointType,
    cm: ContainerMode,
    timestamp: String,
    p: DeployPlan,
) -> bool {
    &&& p.model_name == mc.name
    &&& p.timestamp == timestamp
    &&& p.model_version_name@ == mc.name@ + timestamp@
    &&& p.endpoint_config_name@ == mc.name@ + timestamp@ + "-"@ + timestamp@
    &&& p.endpoint_name@ == mc.name@ + timestamp@ + "-"@ + timestamp@
    &&& p.bucket_name@ == resolved_bucket(mc)
    &&& p.role_name@ == resolved_role(mc)
    &&& p.artefact == mc.artefact
    &&& match mc.artefact {
        Some(a) => p.artefact_key matches Some(k) && k@ == mc.name@ + "/"@ + timestamp@ + "/"@
            + file_name_of(a@),
        None => p.artefact_key is None,
    }
    &&& match cm {
        ContainerMode::Provide => mc.container.provide_container matches Some(pc) && (
        p.build matches BuildPlan::Provided { context_dir, image_name } && context_dir
            == pc.docker_dir && image_name == mc.name),
        ContainerMode::Generate => mc.container.generate_container matches Some(g) && (
        p.build matches BuildPlan::Generated {
            code_dir,
            image_name,
            dockerfile,
            serve_code,
            python_packages,
            system_packages,
            python_version,
        } && code_dir == g.code_dir && image_name == mc.name && dockerfile@ == dockerfile_text(
            g.install_cuda,
        ) && serve_code@ == SERVE_CODE@ && python_packages@ == join_spaced(
            opt_packages(g.python_packages),
        ) && system_packages@ == join_spaced(opt_packages(g.system_packages)) && python_version
            == g.python_version),
    }
    &&& match et {
        EndpointType::Serverless => mc.compute.serverless matches Some(s) && p.endpoint == (
        EndpointPlan::Serverless {
            memory: s.memory,
            max_concurrency: s.max_concurrency,
            provisioned_concurrency: s.provisioned_concurrency,
        }),
        EndpointType::Server => mc.compute.server matches Some(s) && (
        p.endpoint matches EndpointPlan::Server { instance_type, initial_instance_count }
            && instance_type == s.instance_type && initial_instance_count
            == s.initial_instance_count),
    }
}

/// Resolves a configuration into a plan: validation first, then every
/// naming decision, taken once.  Rejected configurations come back with
/// the validation error and nothing else happens.
pub fn plan_deployment(
    mc: ModelConfig,
    endpoint_type: EndpointType,
    container_mode: ContainerMode,
    probe: CodeDirProbe,
    timestamp: String,
) -> (r: Result<DeployPlan, ValidationError>)
    ensures
        validate_spec(mc, endpoint_type, container_mode, probe) matches Err(e) ==> r == Err::<
            DeployPlan,
            ValidationError,
        >(e),
        validate_spec(mc, endpoint_type, container_mode, probe) is Ok ==> (r matches Ok(p)
            && plan_matches(mc, endpoint_type, container_mode, timestamp, p)),
{
    if let Err(e) = validate_config(&mc, &endpoint_type, &container_mode, &probe) {
        return Err(e);
    }
    let mut model_version_name = mc.name.clone();
    model_version_name.append(timestamp.as_str());
    let mut endpoint_config_name = model_version_name.clone();
    endpoint_config_name.append("-");
    endpoint_config_name.append(timestamp.as_str());
    let endpoint_name = endpoint_config_name.clone();
    let bucket_name = match &mc.overrides {
        Some(o) => match &o.bucket_name {
            Some(b) => if !b.as_str().is_empty() {
                b.clone()
            } else {
                String::from_str(DEFAULT_BUCKET_NAME)
            },
            None => String::from_str(DEFAULT_BUCKET_NAME),
        },
        None => String::from_str(DEFAULT_BUCKET_NAME),
    };
    let role_name = match &mc.overrides {
        Some(o) => match &o.role_arn {
            Some(r) => if !r.as_str().is_empty() {
                r.clone()
            } else {
                String::from_str(DEFAULT_ROLE_NAME)
            },
            None => String::from_str(DEFAULT_ROLE_NAME),
        },
        None => String::from_str(DEFAULT_ROLE_NAME),
    };
    let artefact_key = match &mc.artefact {
        Some(a) => {
            let mut k = mc.name.clone();
            k.append("/");
            k.append(timestamp.as_str());
            k.append("/");
            let fname = file_name(a.as_str());
            k.append(fname.as_str());
            Some(k)
        },
        None => None,
    };
    let ModelConfig { name, artefact, container, compute, overrides: _ } = mc;
    let build = match container_mode {
        ContainerMode::Provide => {
            match container.provide_container {
                Some(pc) => BuildPlan::Provided {
                    context_dir: pc.docker_dir,
                    image_name: name.clone(),
                },
                None => unreached(),
            }
        },
        ContainerMode::Generate => {
            match container.generate_container {
                Some(g) => {
                    let python_packages = match &g.python_packages {
                        Some(v) => join_packages(v),
                        None => String::new(),
                    };
                    let system_packages = match &g.system_packages {
                        Some(v) => join_packages(v),
                        None => String::new(),
                    };
                    BuildPlan::Generated {
                        code_dir: g.code_dir,
                        image_name: name.clone(),
                        dockerfile: dockerfile_for(g.install_cuda),
                        serve_code: get_serve_code(),
                        python_packages,
                        system_packages,
                        python_version: g.python_version,
                    }
                },
                None => unreached(),
            }
        },
    };
    let endpoint = match endpoint_type {
        EndpointType::Serverless => match compute.serverless {
            Some(s) => EndpointPlan::Serverless {
                memory: s.memory,
                max_concurrency: s.max_concurrency,
                provisioned_concurrency: s.provisioned_concurrency,
            },
            None => unreached(),
        },
        EndpointType::Server => match compute.server {
            Some(s) => EndpointPlan::Server {
                instance_type: s.instance_type,
                initial_instance_count: s.initial_instance_count,
            },
            None => unreached(),
        },
    };
    Ok(
        DeployPlan {
            model_name: name,
            timestamp,
            model_version_name,
            endpoint_config_name,
            endpoint_name,
            bucket_name,
            role_name,
            artefact,
            artefact_key,
            build,
            endpoint,
        },
    )
}

/// Where a run stands in the pipeline.
pub enum Phase {
    /// Producing the container image.
    Building,
    /// Publishing the image to the registry.
    Pushing { push: PushFlow },
    /// Ensuring the execution role.
    EnsuringRole { image_uri: String, role: RoleFlow },
    /// Ensuring the artifact bucket; entered only when an artefact is
    /// configured.
    EnsuringBucket { image_uri: String, role_arn: String, bucket: BucketFlow },
    /// Uploading the artefact; entered only when one is configured.
    UploadingArtefact { image_uri: String, role_arn: String, upload: UploadFlow },
    /// Registering the model version.
    RegisteringModel { image_uri: String, role_arn: String, artefact_location: Option<String> },
    /// Creating the endpoint configuration.
    CreatingEndpointConfig { role_arn: String },
    /// Creating the endpoint from its configuration.
    CreatingEndpoint,
    /// The endpoint-creation call succeeded.
    Done,
    /// The run aborted; absorbing.
    Failed { error: DeployError },
}

/// The remote call a run asks for next.
pub enum DeployAction {
    /// Produce the image the plan describes.
    BuildImage { build: BuildPlan },
    Push { action: PushAction },
    Role { action: RoleAction },
    Bucket { action: BucketAction },
    Upload { action: UploadAction },
    /// One remote call registering the model version; the artefact
    /// location, where present, becomes the model's data location.
    CreateModel {
        model_version_name: String,
        execution_role_arn: String,
        image_uri: String,
        artefact_location: Option<String>,
    },
    CreateServerlessEndpointConfig {
        endpoint_config_name: String,
        model_version_name: String,
        variant_name: &'static str,
        memory: i32,
        max_concurrency: i32,
        provisioned_concurrency: i32,
    },
    /// The fixed-instance shape carries the execution role explicitly,
    /// unlike the elastic one, where the role was bound at model
    /// registration.
    CreateServerEndpointConfig {
        endpoint_config_name: String,
        model_version_name: String,
        variant_name: &'static str,
        instance_type: String,
        initial_instance_count: i32,
        execution_role_arn: String,
    },
    CreateEndpoint { endpoint_name: String, endpoint_config_name: String },
}

/// The outcome of the last remote call of a run.
pub enum DeployEvent {
    ImageBuilt,
    BuildFailed { message: String },
    Push { event: PushEvent },
    Role { event: RoleEvent },
    Bucket { event: BucketEvent },
    Upload { event: UploadEvent },
    ModelRegistered,
    EndpointConfigCreated,
    EndpointCreated,
    /// The model, endpoint-config or endpoint call failed.
    CallFailed { message: String },
}

/// A deployment run: the immutable plan and the moving phase.
pub struct Deployment {
    pub plan: DeployPlan,
    pub phase: Phase,
}

/// The remote call a run asks for in each phase.
pub open spec fn deploy_action(d: Deployment) -> Option<DeployAction> {
    match d.phase {
        Phase::Building => Some(DeployAction::BuildImage { build: d.plan.build }),
        Phase::Pushing { push } => match push_action(push) {
            Some(a) => Some(DeployAction::Push { action: a }),
            None => None,
        },
        Phase::EnsuringRole { role, .. } => match role_action(role) {
            Some(a) => Some(DeployAction::Role { action: a }),
            None => None,
        },
        Phase::EnsuringBucket { bucket, .. } => match bucket_action(bucket) {
            Some(a) => Some(DeployAction::Bucket { action: a }),
            None => None,
        },
        Phase::UploadingArtefact { upload, .. } => match upload_action(upload) {
            Some(a) => Some(DeployAction::Upload { action: a }),
            None => None,
        },
        Phase::RegisteringModel { image_uri, role_arn, artefact_location } => Some(
            DeployAction::CreateModel {
                model_version_name: d.plan.model_version_name,
                execution_role_arn: role_arn,
                image_uri,
                artefact_location,
            },
        ),
        Phase::CreatingEndpointConfig { role_arn } => match d.plan.endpoint {
            EndpointPlan::Serverless { memory, max_concurrency, provisioned_concurrency } => Some(
                DeployAction::CreateServerlessEndpointConfig {
                    endpoint_config_name: d.plan.endpoint_config_name,
                    model_version_name: d.plan.model_version_name,
                    variant_name: VARIANT_NAME,
                    memory,
                    max_concurrency,
                    provisioned_concurrency,
                },
            ),
            EndpointPlan::Server { instance_type, initial_instance_count } => Some(
                DeployAction::CreateServerEndpointConfig {
                    endpoint_config_name: d.plan.endpoint_config_name,
                    model_version_name: d.plan.model_version_name,
                    variant_name: VARIANT_NAME,
                    instance_type,
                    initial_instance_count,
                    execution_role_arn: role_arn,
                },
            ),
        },
        Phase::CreatingEndpoint => Some(
            DeployAction::CreateEndpoint {
                endpoint_name: d.plan.endpoint_name,
                endpoint_config_name: d.plan.endpoint_config_name,
            },
        ),
        Phase::Done => None,
        Phase::Failed { .. } => None,
    }
}

/// How a run advances on an outcome: the relation between the run
/// before, the outcome, and the run after.
pub open spec fn deploy_step_rel(pre: Deployment, ev: DeployEvent, post: Deployment) -> bool {
    &&& post.plan == pre.plan
    &&& match (pre.phase, ev) {
        (Phase::Building, DeployEvent::ImageBuilt) => post.phase == (Phase::Pushing {
            push: PushFlow {
                image_name: pre.plan.model_name,
                state: PushState::DescribingRepository,
            },
        }),
        (Phase::Building, DeployEvent::BuildFailed { message }) => post.phase == (Phase::Failed {
            error: DeployError::FatalRemote { operation: RemoteOp::BuildImage, message },
        }),
        (Phase::Pushing { push }, DeployEvent::Push { event }) => exists|p2: PushFlow|
            {
                &&& #[trigger] push_step_rel(push, event, p2)
                &&& match p2.state {
                    PushState::Complete { repo_uri } => post.phase matches Phase::EnsuringRole {
                        image_uri,
                        role,
                    } && image_uri@ == repo_uri@ + ":latest"@ && role == (RoleFlow {
                        role_name: pre.plan.role_name,
                        state: RoleState::Creating,
                    }),
                    PushState::Failed { error } => post.phase == (Phase::Failed { error }),
                    _ => post.phase == (Phase::Pushing { push: p2 }),
                }
            },
        (Phase::EnsuringRole { image_uri, role }, DeployEvent::Role { event }) => {
            let s2 = role_step(role.state, event);
            match s2 {
                RoleState::Complete { arn } => if pre.plan.artefact is Some {
                    post.phase == (Phase::EnsuringBucket {
                        image_uri,
                        role_arn: arn,
                        bucket: BucketFlow {
                            bucket_name: pre.plan.bucket_name,
                            state: BucketState::Probing,
                        },
                    })
                } else {
                    post.phase == (Phase::RegisteringModel {
                        image_uri,
                        role_arn: arn,
                        artefact_location: None,
                    })
                },
                RoleState::Failed { error } => post.phase == (Phase::Failed { error }),
                _ => post.phase == (Phase::EnsuringRole {
                    image_uri,
                    role: RoleFlow { role_name: role.role_name, state: s2 },
                }),
            }
        },
        (Phase::EnsuringBucket { image_uri, role_arn, bucket }, DeployEvent::Bucket { event }) => {
            let s2 = bucket_step(bucket.state, event);
            match s2 {
                BucketState::Complete => match (pre.plan.artefact, pre.plan.artefact_key) {
                    (Some(a), Some(k)) => post.phase matches Phase::UploadingArtefact {
                        image_uri: u2,
                        role_arn: r2,
                        upload,
                    } && u2 == image_uri && r2 == role_arn && upload.local_path == a
                        && upload.bucket_name == pre.plan.bucket_name && upload.key == k
                        && upload.remote_path@ == "s3://"@ + pre.plan.bucket_name@ + "/"@ + k@
                        && upload.state == (if is_tar_gz_path(a@) {
                        UploadState::Putting
                    } else {
                        UploadState::Failed { error: DeployError::ArtefactNotTarGz }
                    }),
                    _ => post.phase == (Phase::Failed { error: DeployError::UnexpectedEvent }),
                },
                BucketState::Failed { error } => post.phase == (Phase::Failed { error }),
                _ => post.phase == (Phase::EnsuringBucket {
                    image_uri,
                    role_arn,
                    bucket: BucketFlow { bucket_name: bucket.bucket_name, state: s2 },
                }),
            }
        },
        (
            Phase::UploadingArtefact { image_uri, role_arn, upload },
            DeployEvent::Upload { event },
        ) => {
            let s2 = upload_step(upload.state, event);
            match s2 {
                UploadState::Complete => post.phase == (Phase::RegisteringModel {
                    image_uri,
                    role_arn,
                    artefact_location: Some(upload.remote_path),
                }),
                UploadState::Failed { error } => post.phase == (Phase::Failed { error }),
                _ => post.phase == (Phase::UploadingArtefact {
                    image_uri,
                    role_arn,
                    upload: UploadFlow {
                        bucket_name: upload.bucket_name,
                        key: upload.key,
                        local_path: upload.local_path,
                        remote_path: upload.remote_path,
                        state: s2,
                    },
                }),
            }
        },
        (Phase::RegisteringModel { role_arn, .. }, DeployEvent::ModelRegistered) => post.phase == (
        Phase::CreatingEndpointConfig { role_arn }),
        (Phase::RegisteringModel { .. }, DeployEvent::CallFailed { message }) => post.phase == (
        Phase::Failed {
            error: DeployError::FatalRemote { operation: RemoteOp::CreateModel, message },
        }),
        (Phase::CreatingEndpointConfig { .. }, DeployEvent::EndpointConfigCreated) => post.phase
            == Phase::CreatingEndpoint,
        (Phase::CreatingEndpointConfig { .. }, DeployEvent::CallFailed { message }) => post.phase
            == (Phase::Failed {
            error: DeployError::FatalRemote {
                operation: RemoteOp::CreateEndpointConfig,
                message,
            },
        }),
        (Phase::CreatingEndpoint, DeployEvent::EndpointCreated) => post.phase == Phase::Done,
        (Phase::CreatingEndpoint, DeployEvent::CallFailed { message }) => post.phase == (
        Phase::Failed {
            error: DeployError::FatalRemote { operation: RemoteOp::CreateEndpoint, message },
        }),
        (Phase::Done, _) => post.phase == Phase::Done,
        (Phase::Failed { error }, _) => post.phase == (Phase::Failed { error }),
        _ => post.phase == (Phase::Failed { error: DeployError::UnexpectedEvent }),
    }
}

impl Deployment {
    /// A fresh run for a resolved plan, standing at the build stage.
    pub fn new(plan: DeployPlan) -> (r: Deployment)
        ensures
            r.plan == plan,
            r.phase == Phase::Building,
    {
        Deployment { plan, phase: Phase::Building }
    }

    /// The remote call to perform next; nothing once the run has ended.
    pub fn next_action(&self) -> (r: Option<DeployAction>)
        ensures
            r == deploy_action(*self),
    {
        match &self.phase {
            Phase::Building => Some(DeployAction::BuildImage { build: self.plan.build.duplicate() }),
            Phase::Pushing { push } => match push.pending_action() {
                Some(a) => Some(DeployAction::Push { action: a }),
                None => None,
            },
            Phase::EnsuringRole { role, .. } => match role.pending_action() {
                Some(a) => Some(DeployAction::Role { action: a }),
                None => None,
            },
            Phase::EnsuringBucket { bucket, .. } => match bucket.pending_action() {
                Some(a) => Some(DeployAction::Bucket { action: a }),
                None => None,
            },
            Phase::UploadingArtefact { upload, .. } => match upload.pending_action() {
                Some(a) => Some(DeployAction::Upload { action: a }),
                None => None,
            },
            Phase::RegisteringModel { image_uri, role_arn, artefact_location } => Some(
                DeployAction::CreateModel {
                    model_version_name: self.plan.model_version_name.clone(),
                    execution_role_arn: role_arn.clone(),
                    image_uri: image_uri.clone(),
                    artefact_location: match artefact_location {
                        Some(l) => Some(l.clone()),
                        None => None,
                    },
                },
            ),
            Phase::CreatingEndpointConfig { role_arn } => match &self.plan.endpoint {
                EndpointPlan::Serverless { memory, max_concurrency, provisioned_concurrency } => {
                    Some(
                        DeployAction::CreateServerlessEndpointConfig {
                            endpoint_config_name: self.plan.endpoint_config_name.clone(),
                            model_version_name: self.plan.model_version_name.clone(),
                            variant_name: VARIANT_NAME,
                            memory: *memory,
                            max_concurrency: *max_concurrency,
                            provisioned_concurrency: *provisioned_concurrency,
                        },
                    )
                },
                EndpointPlan::Server { instance_type, initial_instance_count } => Some(
                    DeployAction::CreateServerEndpointConfig {
                        endpoint_config_name: self.plan.endpoint_config_name.clone(),
                        model_version_name: self.plan.model_version_name.clone(),
                        variant_name: VARIANT_NAME,
                        instance_type: instance_type.clone(),
                        initial_instance_count: *initial_instance_count,
                        execution_role_arn: role_arn.clone(),
                    },
                ),
            },
            Phase::CreatingEndpoint => Some(
                DeployAction::CreateEndpoint {
                    endpoint_name: self.plan.endpoint_name.clone(),
                    endpoint_config_name: self.plan.endpoint_config_name.clone(),
                },
            ),
            Phase::Done => None,
            Phase::Failed { .. } => None,
        }
    }

    /// Advance on the outcome of the call last asked for.
    pub fn step(self, ev: DeployEvent) -> (r: Deployment)
        ensures
            deploy_step_rel(self, ev, r),
    {
        let ghost pre = self;
        let Deployment { plan, phase } = self;
        let phase = match (phase, ev) {
            (Phase::Building, DeployEvent::ImageBuilt) => Phase::Pushing {
                push: PushFlow {
                    image_name: plan.model_name.clone(),
                    state: PushState::DescribingRepository,
                },
            },
            (Phase::Building, DeployEvent::BuildFailed { message }) => Phase::Failed {
                error: DeployError::FatalRemote { operation: RemoteOp::BuildImage, message },
            },
            (Phase::Pushing { push }, DeployEvent::Push { event }) => {
                let ghost push0 = push;
                let p2 = push.step(event);
                let ghost gp2 = p2;
                let PushFlow { image_name, state } = p2;
                let next = match state {
                    PushState::Complete { repo_uri } => {
                        let mut image_uri = repo_uri;
                        image_uri.append(":latest");
                        Phase::EnsuringRole {
                            image_uri,
                            role: RoleFlow {
                                role_name: plan.role_name.clone(),
                                state: RoleState::Creating,
                            },
                        }
                    },
                    PushState::Failed { error } => Phase::Failed { error },
                    other => Phase::Pushing {
                        push: PushFlow { image_name, state: other },
                    },
                };
                proof {
                    assert(push_step_rel(push0, event, gp2));
                }
                next
            },
            (Phase::EnsuringRole { image_uri, role }, DeployEvent::Role { event }) => {
                let r2 = role.step(event);
                let RoleFlow { role_name, state } = r2;
                match state {
                    RoleState::Complete { arn } => {
                        if plan.artefact.is_some() {
                            Phase::EnsuringBucket {
                                image_uri,
                                role_arn: arn,
                                bucket: BucketFlow {
                                    bucket_name: plan.bucket_name.clone(),
                                    state: BucketState::Probing,
                                },
                            }
                        } else {
                            Phase::RegisteringModel {
                                image_uri,
                                role_arn: arn,
                                artefact_location: None,
                            }
                        }
                    },
                    RoleState::Failed { error } => Phase::Failed { error },
                    other => Phase::EnsuringRole {
                        image_uri,
                        role: RoleFlow { role_name, state: other },
                    },
                }
            },
            (
                Phase::EnsuringBucket { image_uri, role_arn, bucket },
                DeployEvent::Bucket { event },
            ) => {
                let b2 = bucket.step(event);
                let BucketFlow { bucket_name, state } = b2;
                match state {
                    BucketState::Complete => {
                        match (&plan.artefact, &plan.artefact_key) {
                            (Some(a), Some(k)) => Phase::UploadingArtefact {
                                image_uri,
                                role_arn,
                                upload: UploadFlow::new(
                                    a.clone(),
                                    plan.bucket_name.clone(),
                                    k.clone(),
                                ),
                            },
                            _ => Phase::Failed { error: DeployError::UnexpectedEvent },
                        }
                    },
                    BucketState::Failed { error } => Phase::Failed { error },
                    other => Phase::EnsuringBucket {
                        image_uri,
                        role_arn,
                        bucket: BucketFlow { bucket_name, state: other },
                    },
                }
            },
            (
                Phase::UploadingArtefact { image_uri, role_arn, upload },
                DeployEvent::Upload { event },
            ) => {
                let u2 = upload.step(event);
                let UploadFlow { bucket_name, key, local_path, remote_path, state } = u2;
                match state {
                    UploadState::Complete => Phase::RegisteringModel {
                        image_uri,
                        role_arn,
                        artefact_location: Some(remote_path),
                    },
                    UploadState::Failed { error } => Phase::Failed { error },
                    other => Phase::UploadingArtefact {
                        image_uri,
                        role_arn,
                        upload: UploadFlow {
                            bucket_name,
                            key,
                            local_path,
                            remote_path,
                            state: other,
                        },
                    },
                }
            },
            (Phase::RegisteringModel { role_arn, .. }, DeployEvent::ModelRegistered) => {
                Phase::CreatingEndpointConfig { role_arn }
            },
            (Phase::RegisteringModel { .. }, DeployEvent::CallFailed { message }) => {
                Phase::Failed {
                    error: DeployError::FatalRemote { operation: RemoteOp::CreateModel, message },
                }
            },
            (Phase::CreatingEndpointConfig { .. }, DeployEvent::EndpointConfigCreated) => {
                Phase::CreatingEndpoint
            },
            (Phase::CreatingEndpointConfig { .. }, DeployEvent::CallFailed { message }) => {
                Phase::Failed {
                    error: DeployError::FatalRemote {
                        operation: RemoteOp::CreateEndpointConfig,
                        message,
                    },
                }
            },
            (Phase::CreatingEndpoint, DeployEvent::EndpointCreated) => Phase::Done,
            (Phase::CreatingEndpoint, DeployEvent::CallFailed { message }) => Phase::Failed {
                error: DeployError::FatalRemote { operation: RemoteOp::CreateEndpoint, message },
            },
            (Phase::Done, _) => Phase::Done,
            (Phase::Failed { error }, _) => Phase::Failed { error },
            _ => Phase::Failed { error: DeployError::UnexpectedEvent },
        };
        Deployment { plan, phase }
    }
}

/// How far along the pipeline a phase stands; the two terminal phases
/// rank highest.
pub open spec fn phase_rank(p: Phase) -> int {
    match p {
        Phase::Building => 0,
        Phase::Pushing { .. } => 1,
        Phase::EnsuringRole { .. } => 2,
        Phase::EnsuringBucket { .. } => 3,
        Phase::UploadingArtefact { .. } => 4,
        Phase::RegisteringModel { .. } => 5,
        Phase::CreatingEndpointConfig { .. } => 6,
        Phase::CreatingEndpoint => 7,
        Phase::Done => 8,
        Phase::Failed { .. } => 9,
    }
}

/// No stage is revisited: every step keeps the phase rank from falling.
pub proof fn lemma_pipeline_monotone(pre: Deployment, ev: DeployEvent, post: Deployment)
    requires
        deploy_step_rel(pre, ev, post),
    ensures
        phase_rank(post.phase) >= phase_rank(pre.phase),
{
}

/// The two terminal phases absorb every further event unchanged.
pub proof fn lemma_terminal_absorbing(pre: Deployment, ev: DeployEvent, post: Deployment)
    requires
        deploy_step_rel(pre, ev, post),
        pre.phase is Done || pre.phase is Failed,
    ensures
        post == pre,
{
    assert(post.plan == pre.plan);
}

/// A run whose plan carries no artefact never stands in a bucket or
/// upload stage, and registers its model without a data location.
pub open spec fn upload_free(d: Deployment) -> bool {
    d.plan.artefact is None ==> match d.phase {
        Phase::EnsuringBucket { .. } => false,
        Phase::UploadingArtefact { .. } => false,
        Phase::RegisteringModel { artefact_location, .. } => artefact_location is None,
        _ => true,
    }
}

/// A fresh run is upload-free, whatever its plan holds.
pub proof fn lemma_fresh_run_upload_free(d: Deployment)
    requires
        d.phase is Building,
    ensures
        upload_free(d),
{
}

/// Every step preserves `upload_free`: a run without an artefact never
/// reaches a bucket or upload stage.
pub proof fn lemma_no_artefact_no_upload(pre: Deployment, ev: DeployEvent, post: Deployment)
    requires
        deploy_step_rel(pre, ev, post),
        upload_free(pre),
    ensures
        upload_free(post),
{
}

/// In an upload-free run without an artefact, no bucket or upload call
/// is ever asked for, and the model is registered without a data
/// location.
pub proof fn lemma_no_artefact_no_upload_action(d: Deployment)
    requires
        upload_free(d),
        d.plan.artefact is None,
    ensures
        match deploy_action(d) {
            Some(DeployAction::CreateModel { artefact_location, .. }) => artefact_location is None,
            Some(a) => !(a is Bucket) && !(a is Upload),
            None => true,
        },
{
}

} // verus!
