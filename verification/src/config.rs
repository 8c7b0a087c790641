//! The deployment configuration: its data model, the closed selector
//! types for container mode and endpoint type, and the pre-flight
//! validation that rejects impossible or unsafe combinations before any
//! remote call is made.

use vstd::prelude::*;

verus! {

use vstd::string::StringExecFns;
use crate::errors::ValidationError;
use crate::text::lower_seq;
use crate::text::matches_lowered;

/// The two container strategies a deployment can use: synthesize an
/// image from a code directory, or build a user-supplied build context.
#[derive(Clone, Copy, Debug, PartialEq, Eq, Structural)]
pub enum ContainerMode {
    Generate,
    Provide,
}

/// The two serving topologies an endpoint can use: elastic on-demand
/// capacity, or a fixed number of instances.
#[derive(Clone, Copy, Debug, PartialEq, Eq, Structural)]
pub enum EndpointType {
    Serverless,
    Server,
}

impl EndpointType {
    /// The selector read case-insensitively from the command line.
    pub fn parse(s: &str) -> (r: Result<EndpointType, String>)
        ensures
            lower_seq(s@) == "serverless"@ ==> r == Ok::<EndpointType, String>(
                EndpointType::Serverless,
            ),
            lower_seq(s@) == "server"@ ==> r == Ok::<EndpointType, String>(EndpointType::Server),
            lower_seq(s@) != "serverless"@ && lower_seq(s@) != "server"@ ==> (r matches Err(m)
                && m@ == "Invalid endpoint type. serverless or server only, not: "@ + s@),
    {
        proof {
            reveal_strlit("serverless");
            reveal_strlit("server");
            assert("serverless"@.len() == 10);
            assert("server"@.len() == 6);
        }
        if matches_lowered(s, "serverless") {
            Ok(EndpointType::Serverless)
        } else if matches_lowered(s, "server") {
            Ok(EndpointType::Server)
        } else {
            let mut m = String::from_str("Invalid endpoint type. serverless or server only, not: ");
            m.append(s);
            Err(m)
        }
    }

    /// The selector's canonical spelling.
    pub fn as_str(&self) -> (r: &'static str)
        ensures
            *self is Serverless ==> r@ == "serverless"@,
            *self is Server ==> r@ == "server"@,
    {
        match *self {
            EndpointType::Serverless => "serverless",
            EndpointType::Server => "server",
        }
    }
}

impl ContainerMode {
    /// The selector read case-insensitively from the command line.
    pub fn parse(s: &str) -> (r: Result<ContainerMode, String>)
        ensures
            lower_seq(s@) == "generate"@ ==> r == Ok::<ContainerMode, String>(
                ContainerMode::Generate,
            ),
            lower_seq(s@) == "provide"@ ==> r == Ok::<ContainerMode, String>(
                ContainerMode::Provide,
            ),
            lower_seq(s@) != "generate"@ && lower_seq(s@) != "provide"@ ==> (r matches Err(m)
                && m@ == "Invalid container mode. use generate or provide, not: "@ + s@),
    {
        proof {
            reveal_strlit("generate");
            reveal_strlit("provide");
            assert("generate"@.len() == 8);
            assert("provide"@.len() == 7);
        }
        if matches_lowered(s, "generate") {
            Ok(ContainerMode::Generate)
        } else if matches_lowered(s, "provide") {
            Ok(ContainerMode::Provide)
        } else {
            let mut m = String::from_str("Invalid container mode. use generate or provide, not: ");
            m.append(s);
            Err(m)
        }
    }

    /// The selector's canonical spelling.
    pub fn as_str(&self) -> (r: &'static str)
        ensures
            *self is Generate ==> r@ == "generate"@,
            *self is Provide ==> r@ == "provide"@,
    {
        match *self {
            ContainerMode::Generate => "generate",
            ContainerMode::Provide => "provide",
        }
    }
}

/// Configuration for a generate-mode deploy: a code directory whose
/// contents are copied into the container, plus the packages the user's
/// load() and predict() depend on.
#[derive(Debug)]
pub struct GenerateContainerConfig {
    /// Path to a directory containing the designated entry-point file;
    /// the whole directory is copied into the container.
    pub code_dir: String,
    /// Additional system packages to install into the container.
    pub system_packages: Option<Vec<String>>,
    /// Additional python packages to install into the container.
    pub python_packages: Option<Vec<String>>,
    /// Whether to install CUDA.  Never allowed on a serverless endpoint.
    pub install_cuda: bool,
    /// The python version for the generated image.
    pub python_version: String,
}

/// Configuration for a provide-mode deploy: the directory holding the
/// caller-owned Dockerfile and everything its build references.
#[derive(Debug)]
pub struct ProvideContainerConfig {
    pub docker_dir: String,
}

/// Exactly one of the two container strategies is expected to be
/// populated, matching the selected container mode.
#[derive(Debug)]
pub struct Container {
    pub generate_container: Option<GenerateContainerConfig>,
    pub provide_container: Option<ProvideContainerConfig>,
}

/// Compute characteristics of an elastic endpoint.
#[derive(Clone, Copy, Debug, PartialEq, Eq, Structural)]
pub struct ServerlessCompute {
    /// Memory required by a serverless instance, in megabytes.
    pub memory: i32,
    /// Serverless instances kept provisioned at all times.
    pub provisioned_concurrency: i32,
    /// Maximum serverless instances running at the same time.
    pub max_concurrency: i32,
}

/// Compute characteristics of a fixed-instance endpoint.
#[derive(Debug)]
pub struct ServerCompute {
    /// The instance type to run.
    pub instance_type: String,
    pub initial_instance_count: i32,
}

/// Exactly one of the two compute shapes is expected to be populated,
/// matching the selected endpoint type.
#[derive(Debug)]
pub struct Compute {
    pub serverless: Option<ServerlessCompute>,
    pub server: Option<ServerCompute>,
}

/// Overrides for the default role and bucket names.  The named resources
/// are expected to already exist.
#[derive(Debug)]
pub struct Overrides {
    pub bucket_name: Option<String>,
    pub role_arn: Option<String>,
}

/// A parsed deployment configuration.
#[derive(Debug)]
pub struct ModelConfig {
    /// The name of the model.
    pub name: String,
    /// The model artefact path.  If present, it is uploaded to the
    /// artifact store and handed to the model as its data location.
    pub artefact: Option<String>,
    /// Deployment configuration for the container.
    pub container: Container,
    /// Compute characteristics.
    pub compute: Compute,
    /// Optional overrides for the default role and bucket names.
    pub overrides: Option<Overrides>,
}

/// What the filesystem says about the configured code directory,
/// resolved relative to the configuration file's own directory.  The
/// caller probes the filesystem; validation stays pure.
#[derive(Clone, Copy, Debug, PartialEq, Eq, Structural)]
pub struct CodeDirProbe {
    /// The code directory exists and is a directory.
    pub is_directory: bool,
    /// The code directory contains the designated entry-point file.
    pub has_entry_point: bool,
}

/// The validation outcome: the rules apply in order and the first
/// violation wins.
pub open spec fn validate_spec(
    mc: ModelConfig,
    et: EndpointType,
    cm: ContainerMode,
    probe: CodeDirProbe,
) -> Result<(), ValidationError> {
    if mc.name@.len() == 0 {
        Err(ValidationError::EmptyName)
    } else if mc.artefact matches Some(a) && a@.len() == 0 {
        Err(ValidationError::EmptyArtefact)
    } else if cm is Provide && mc.container.provide_container is None {
        Err(ValidationError::MissingProvideContainer)
    } else if cm is Provide && (mc.container.provide_container matches Some(p)
        && p.docker_dir@.len() == 0) {
        Err(ValidationError::EmptyDockerDir)
    } else if cm is Generate && mc.container.generate_container is None {
        Err(ValidationError::MissingGenerateContainer)
    } else if cm is Generate && (mc.container.generate_container matches Some(g)
        && g.code_dir@.len() == 0) {
        Err(ValidationError::EmptyCodeDir)
    } else if cm is Generate && !probe.is_directory {
        Err(ValidationError::CodeDirNotDirectory)
    } else if cm is Generate && !probe.has_entry_point {
        Err(ValidationError::MissingEntryPoint)
    } else if et is Serverless && mc.compute.serverless is None {
        Err(ValidationError::MissingServerlessCompute)
    } else if et is Server && mc.compute.server is None {
        Err(ValidationError::MissingServerCompute)
    } else if et is Serverless && cm is Generate && (mc.container.generate_container matches Some(
        g,
    ) && g.install_cuda) {
        Err(ValidationError::CudaOnServerless)
    } else {
        Ok(())
    }
}

/// Checks a parsed configuration against the requested mode and endpoint
/// type.  Pure and side-effect-free: the filesystem facts validation
/// depends on arrive in `probe`.
pub fn validate_config(
    mc: &ModelConfig,
    endpoint_type: &EndpointType,
    container_mode: &ContainerMode,
    probe: &CodeDirProbe,
) -> (r: Result<(), ValidationError>)
    ensures
        r == validate_spec(*mc, *endpoint_type, *container_mode, *probe),
{
    if mc.name.as_str().is_empty() {
        return Err(ValidationError::EmptyName);
    }
    if let Some(a) = &mc.artefact {
        if a.as_str().is_empty() {
            return Err(ValidationError::EmptyArtefact);
        }
    }
    match container_mode {
        ContainerMode::Provide => {
            match &mc.container.provide_container {
                None => {
                    return Err(ValidationError::MissingProvideContainer);
                },
                Some(p) => {
                    if p.docker_dir.as_str().is_empty() {
                        return Err(ValidationError::EmptyDockerDir);
                    }
                },
            }
        },
        ContainerMode::Generate => {
            match &mc.container.generate_container {
                None => {
                    return Err(ValidationError::MissingGenerateContainer);
                },
                Some(g) => {
                    if g.code_dir.as_str().is_empty() {
                        return Err(ValidationError::EmptyCodeDir);
                    }
                    if !probe.is_directory {
                        return Err(ValidationError::CodeDirNotDirectory);
                    }
                    if !probe.has_entry_point {
                        return Err(ValidationError::MissingEntryPoint);
                    }
                },
            }
        },
    }
    match endpoint_type {
        EndpointType::Serverless => {
            if mc.compute.serverless.is_none() {
                return Err(ValidationError::MissingServerlessCompute);
            }
        },
        EndpointType::Server => {
            if mc.compute.server.is_none() {
                return Err(ValidationError::MissingServerCompute);
            }
        },
    }
    if *endpoint_type == EndpointType::Serverless && *container_mode == ContainerMode::Generate {
        if let Some(g) = &mc.container.generate_container {
            if g.install_cuda {
                return Err(ValidationError::CudaOnServerless);
            }
        }
    }
    Ok(())
}

/// The python version a generated image defaults to.
pub fn default_python() -> (r: String)
    ensures
        r@ == "3.12"@,
{
    String::from_str("3.12")
}

/// In provide mode, a configuration whose build-context directory is
/// missing or empty never validates; once the earlier name and artefact
/// checks pass, the error is precisely the one naming that directory.
pub proof fn provide_mode_requires_docker_dir(
    mc: ModelConfig,
    et: EndpointType,
    probe: CodeDirProbe,
)
    requires
        mc.container.provide_container is None || (mc.container.provide_container matches Some(p)
            && p.docker_dir@.len() == 0),
    ensures
        validate_spec(mc, et, ContainerMode::Provide, probe) is Err,
        mc.name@.len() != 0 && !(mc.artefact matches Some(a) && a@.len() == 0)
            ==> validate_spec(mc, et, ContainerMode::Provide, probe) == Err::<(), ValidationError>(
            if mc.container.provide_container is None {
                ValidationError::MissingProvideContainer
            } else {
                ValidationError::EmptyDockerDir
            },
        ),
{
}

/// In generate mode, a configuration whose code directory is missing or
/// empty never validates; once the earlier name and artefact checks
/// pass, the error is precisely the one naming the code directory.
pub proof fn generate_mode_requires_code_dir(
    mc: ModelConfig,
    et: EndpointType,
    probe: CodeDirProbe,
)
    requires
        mc.container.generate_container is None || (mc.container.generate_container matches Some(g)
            && g.code_dir@.len() == 0),
    ensures
        validate_spec(mc, et, ContainerMode::Generate, probe) is Err,
        mc.name@.len() != 0 && !(mc.artefact matches Some(a) && a@.len() == 0)
            ==> validate_spec(mc, et, ContainerMode::Generate, probe) == Err::<
            (),
            ValidationError,
        >(
            if mc.container.generate_container is None {
                ValidationError::MissingGenerateContainer
            } else {
                ValidationError::EmptyCodeDir
            },
        ),
{
}

/// A generate-mode configuration that asks for an accelerator install
/// never validates against a serverless endpoint, whatever its other
/// fields hold.
pub proof fn serverless_rejects_accelerator(mc: ModelConfig, probe: CodeDirProbe)
    requires
        mc.container.generate_container matches Some(g) && g.install_cuda,
    ensures
        validate_spec(mc, EndpointType::Serverless, ContainerMode::Generate, probe) is Err,
{
}

} // verus!
