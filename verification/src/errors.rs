//! The failure taxonomy of a deployment run.
//!
//! Validation failures are local and always carry the offending field.
//! Remote failures split into transient ones (a bounded consistency wait
//! timed out) and fatal ones (any other remote rejection).  "Already
//! exists" conflicts for shared, long-lived resources are absorbed by the
//! provisioning flows and never surface here.

use vstd::prelude::*;

verus! {

use vstd::string::StringExecFns;

/// A configuration was rejected before any remote call was made.
#[derive(Clone, Copy, Debug, PartialEq, Eq, Structural)]
pub enum ValidationError {
    /// The model name is the empty string.
    EmptyName,
    /// An artefact path is given but is the empty string.
    EmptyArtefact,
    /// Provide mode was selected but the config has no provide section.
    MissingProvideContainer,
    /// Provide mode was selected but the build-context directory is empty.
    EmptyDockerDir,
    /// Generate mode was selected but the config has no generate section.
    MissingGenerateContainer,
    /// Generate mode was selected but the code directory is empty.
    EmptyCodeDir,
    /// The configured code directory does not exist as a directory.
    CodeDirNotDirectory,
    /// The code directory is missing the designated entry-point file.
    MissingEntryPoint,
    /// A serverless endpoint was requested without a serverless compute section.
    MissingServerlessCompute,
    /// A server endpoint was requested without a server compute section.
    MissingServerCompute,
    /// Accelerator install was requested together with a serverless endpoint.
    CudaOnServerless,
}

impl ValidationError {
    /// The human-readable reason for the rejection.
    pub open spec fn message_spec(&self) -> Seq<char> {
        match *self {
            ValidationError::EmptyName => "Invalid sageturner config: model name can't be an empty string"@,
            ValidationError::EmptyArtefact => "Invalid sageturner config: artefact can't be an empty string"@,
            ValidationError::MissingProvideContainer => "Invalid sageturner config: you're trying to deploy in provided container mode, but there's no container.provide_container in your YAML"@,
            ValidationError::EmptyDockerDir => "Invalid sageturner config: you're trying to deploy in provided container mode, but your docker_dir is an empty string"@,
            ValidationError::MissingGenerateContainer => "Invalid sageturner config: you're trying to deploy in generate container mode, but there's no container.generate_container field in your YAML"@,
            ValidationError::EmptyCodeDir => "Invalid sageturner config: you're trying to deploy in generate container mode, but your code field is an empty string. Needs to be path to code with load() and predict()"@,
            ValidationError::CodeDirNotDirectory => "Invalid sageturner config: your code_dir was not a valid directory"@,
            ValidationError::MissingEntryPoint => "Invalid sageturner config: your code_dir did not contain a sageturner.py file. Please add one with a load() and predict() method"@,
            ValidationError::MissingServerlessCompute => "Invalid sageturner config: you're trying to deploy to a serverless endpoint, without compute->serverless field"@,
            ValidationError::MissingServerCompute => "Invalid sageturner config: you're trying to deploy to a server endpoint, without compute->server field"@,
            ValidationError::CudaOnServerless => "Invalid sageturner config: you're trying to generate a container with CUDA installed, but using a Serverless endpoint. Serverless endpoints don't support GPU, set install_cuda to false or deploy to a Server endpoint."@,
        }
    }

    /// The human-readable reason for the rejection.
    pub fn message(&self) -> (r: String)
        ensures
            r@ == self.message_spec(),
    {
        match *self {
            ValidationError::EmptyName => String::from_str("Invalid sageturner config: model name can't be an empty string"),
            ValidationError::EmptyArtefact => String::from_str("Invalid sageturner config: artefact can't be an empty string"),
            ValidationError::MissingProvideContainer => String::from_str("Invalid sageturner config: you're trying to deploy in provided container mode, but there's no container.provide_container in your YAML"),
            ValidationError::EmptyDockerDir => String::from_str("Invalid sageturner config: you're trying to deploy in provided container mode, but your docker_dir is an empty string"),
            ValidationError::MissingGenerateContainer => String::from_str("Invalid sageturner config: you're trying to deploy in generate container mode, but there's no container.generate_container field in your YAML"),
            ValidationError::EmptyCodeDir => String::from_str("Invalid sageturner config: you're trying to deploy in generate container mode, but your code field is an empty string. Needs to be path to code with load() and predict()"),
            ValidationError::CodeDirNotDirectory => String::from_str("Invalid sageturner config: your code_dir was not a valid directory"),
            ValidationError::MissingEntryPoint => String::from_str("Invalid sageturner config: your code_dir did not contain a sageturner.py file. Please add one with a load() and predict() method"),
            ValidationError::MissingServerlessCompute => String::from_str("Invalid sageturner config: you're trying to deploy to a serverless endpoint, without compute->serverless field"),
            ValidationError::MissingServerCompute => String::from_str("Invalid sageturner config: you're trying to deploy to a server endpoint, without compute->server field"),
            ValidationError::CudaOnServerless => String::from_str("Invalid sageturner config: you're trying to generate a container with CUDA installed, but using a Serverless endpoint. Serverless endpoints don't support GPU, set install_cuda to false or deploy to a Server endpoint."),
        }
    }
}

/// The remote operation a failure is attributed to.
#[derive(Clone, Copy, Debug, PartialEq, Eq, Structural)]
pub enum RemoteOp {
    BuildImage,
    DescribeRepository,
    CreateRepository,
    TagImage,
    FetchRegistryToken,
    PushImage,
    CreateRole,
    FetchRole,
    AwaitRole,
    AttachPolicy,
    HeadBucket,
    CreateBucket,
    PutObject,
    AwaitObject,
    CreateModel,
    CreateEndpointConfig,
    CreateEndpoint,
}

impl RemoteOp {
    /// The operation's name as it appears in error messages.
    pub open spec fn label_spec(&self) -> Seq<char> {
        match *self {
            RemoteOp::BuildImage => "building the container image"@,
            RemoteOp::DescribeRepository => "describing the registry repository"@,
            RemoteOp::CreateRepository => "creating the registry repository"@,
            RemoteOp::TagImage => "tagging the container image"@,
            RemoteOp::FetchRegistryToken => "fetching registry credentials"@,
            RemoteOp::PushImage => "pushing the container image"@,
            RemoteOp::CreateRole => "creating the execution role"@,
            RemoteOp::FetchRole => "getting role ARN"@,
            RemoteOp::AwaitRole => "waiting for the role to be created"@,
            RemoteOp::AttachPolicy => "attaching the role policy"@,
            RemoteOp::HeadBucket => "checking if bucket already exists"@,
            RemoteOp::CreateBucket => "creating the bucket"@,
            RemoteOp::PutObject => "uploading the artefact"@,
            RemoteOp::AwaitObject => "waiting for the artefact to be visible"@,
            RemoteOp::CreateModel => "creating the model"@,
            RemoteOp::CreateEndpointConfig => "creating the endpoint config"@,
            RemoteOp::CreateEndpoint => "creating the endpoint"@,
        }
    }

    /// The operation's name as it appears in error messages.
    pub fn label(&self) -> (r: &'static str)
        ensures
            r@ == self.label_spec(),
    {
        match *self {
            RemoteOp::BuildImage => "building the container image",
            RemoteOp::DescribeRepository => "describing the registry repository",
            RemoteOp::CreateRepository => "creating the registry repository",
            RemoteOp::TagImage => "tagging the container image",
            RemoteOp::FetchRegistryToken => "fetching registry credentials",
            RemoteOp::PushImage => "pushing the container image",
            RemoteOp::CreateRole => "creating the execution role",
            RemoteOp::FetchRole => "getting role ARN",
            RemoteOp::AwaitRole => "waiting for the role to be created",
            RemoteOp::AttachPolicy => "attaching the role policy",
            RemoteOp::HeadBucket => "checking if bucket already exists",
            RemoteOp::CreateBucket => "creating the bucket",
            RemoteOp::PutObject => "uploading the artefact",
            RemoteOp::AwaitObject => "waiting for the artefact to be visible",
            RemoteOp::CreateModel => "creating the model",
            RemoteOp::CreateEndpointConfig => "creating the endpoint config",
            RemoteOp::CreateEndpoint => "creating the endpoint",
        }
    }
}

/// Why a deployment run stopped.
#[derive(Debug)]
pub enum DeployError {
    /// The configuration was rejected before any remote call.
    Validation { error: ValidationError },
    /// The artefact file name does not denote a gzip-compressed tar archive.
    ArtefactNotTarGz,
    /// The registry's authorization token could not be turned into credentials.
    RegistryTokenMalformed,
    /// A bounded consistency wait timed out.
    TransientRemote { operation: RemoteOp },
    /// A remote call was rejected for any other reason.
    FatalRemote { operation: RemoteOp, message: String },
    /// An event arrived that the current pipeline stage cannot accept.
    UnexpectedEvent,
}

impl DeployError {
    /// The single terminal message naming the failing operation.
    pub open spec fn message_spec(&self) -> Seq<char> {
        match *self {
            DeployError::Validation { error } => error.message_spec(),
            DeployError::ArtefactNotTarGz => "Artefact needs to be a .tar.gz file"@,
            DeployError::RegistryTokenMalformed => "Couldn't read auth token"@,
            DeployError::TransientRemote { operation } => "timed out while "@ + operation.label_spec(),
            DeployError::FatalRemote { operation, message } => "error while "@ + operation.label_spec() + ": "@ + message@,
            DeployError::UnexpectedEvent => "the pipeline received an event it cannot accept in its current stage"@,
        }
    }

    /// The single terminal message naming the failing operation.
    pub fn message(&self) -> (r: String)
        ensures
            r@ == self.message_spec(),
    {
        match self {
            DeployError::Validation { error } => error.message(),
            DeployError::ArtefactNotTarGz => String::from_str("Artefact needs to be a .tar.gz file"),
            DeployError::RegistryTokenMalformed => String::from_str("Couldn't read auth token"),
            DeployError::TransientRemote { operation } => {
                let mut s = String::from_str("timed out while ");
                s.append(operation.label());
                s
            },
            DeployError::FatalRemote { operation, message } => {
                let mut s = String::from_str("error while ");
                s.append(operation.label());
                s.append(": ");
                s.append(message.as_str());
                s
            },
            DeployError::UnexpectedEvent => String::from_str(
                "the pipeline received an event it cannot accept in its current stage",
            ),
        }
    }
}

} // verus!
