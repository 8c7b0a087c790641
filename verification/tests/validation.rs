use sageturner::config::CodeDirProbe;
use sageturner::config::Compute;
use sageturner::config::Container;
use sageturner::config::ContainerMode;
use sageturner::config::EndpointType;
use sageturner::config::GenerateContainerConfig;
use sageturner::config::ModelConfig;
use sageturner::config::Overrides;
use sageturner::config::ProvideContainerConfig;
use sageturner::config::ServerCompute;
use sageturner::config::ServerlessCompute;
use sageturner::config::default_python;
use sageturner::config::validate_config;
use sageturner::errors::ValidationError;

fn probe_ok() -> CodeDirProbe {
    CodeDirProbe { is_directory: true, has_entry_point: true }
}

fn provide_config(name: &str, docker_dir: &str) -> ModelConfig {
    ModelConfig {
        name: name.to_string(),
        artefact: None,
        container: Container {
            generate_container: None,
            provide_container: Some(ProvideContainerConfig { docker_dir: docker_dir.to_string() }),
        },
        compute: Compute {
            serverless: Some(ServerlessCompute {
                memory: 1024,
                provisioned_concurrency: 0,
                max_concurrency: 5,
            }),
            server: None,
        },
        overrides: None,
    }
}

fn generate_config(name: &str, code_dir: &str, cuda: bool) -> ModelConfig {
    ModelConfig {
        name: name.to_string(),
        artefact: None,
        container: Container {
            generate_container: Some(GenerateContainerConfig {
                code_dir: code_dir.to_string(),
                system_packages: None,
                python_packages: None,
                install_cuda: cuda,
                python_version: default_python(),
            }),
            provide_container: None,
        },
        compute: Compute {
            serverless: Some(ServerlessCompute {
                memory: 2048,
                provisioned_concurrency: 1,
                max_concurrency: 2,
            }),
            server: None,
        },
        overrides: None,
    }
}

#[test]
fn valid_provide_serverless_passes() {
    let mc = provide_config("demo", "./ctx");
    let r = validate_config(&mc, &EndpointType::Serverless, &ContainerMode::Provide, &probe_ok());
    assert!(r.is_ok());
}

#[test]
fn empty_name_rejected() {
    let mc = provide_config("", "./ctx");
    let r = validate_config(&mc, &EndpointType::Serverless, &ContainerMode::Provide, &probe_ok());
    assert_eq!(r, Err(ValidationError::EmptyName));
}

#[test]
fn empty_artefact_rejected() {
    let mut mc = provide_config("demo", "./ctx");
    mc.artefact = Some(String::new());
    let r = validate_config(&mc, &EndpointType::Serverless, &ContainerMode::Provide, &probe_ok());
    assert_eq!(r, Err(ValidationError::EmptyArtefact));
}

#[test]
fn provide_mode_without_section_rejected() {
    let mut mc = provide_config("demo", "./ctx");
    mc.container.provide_container = None;
    let r = validate_config(&mc, &EndpointType::Serverless, &ContainerMode::Provide, &probe_ok());
    assert_eq!(r, Err(ValidationError::MissingProvideContainer));
}

#[test]
fn provide_mode_empty_docker_dir_rejected() {
    let mc = provide_config("demo", "");
    let r = validate_config(&mc, &EndpointType::Serverless, &ContainerMode::Provide, &probe_ok());
    assert_eq!(r, Err(ValidationError::EmptyDockerDir));
}

#[test]
fn generate_mode_without_section_rejected() {
    let mut mc = generate_config("demo", "./code", false);
    mc.container.generate_container = None;
    let r = validate_config(&mc, &EndpointType::Serverless, &ContainerMode::Generate, &probe_ok());
    assert_eq!(r, Err(ValidationError::MissingGenerateContainer));
}

#[test]
fn generate_mode_empty_code_dir_rejected() {
    let mc = generate_config("demo", "", false);
    let r = validate_config(&mc, &EndpointType::Serverless, &ContainerMode::Generate, &probe_ok());
    assert_eq!(r, Err(ValidationError::EmptyCodeDir));
}

#[test]
fn generate_mode_missing_directory_rejected() {
    let mc = generate_config("demo", "./code", false);
    let probe = CodeDirProbe { is_directory: false, has_entry_point: false };
    let r = validate_config(&mc, &EndpointType::Serverless, &ContainerMode::Generate, &probe);
    assert_eq!(r, Err(ValidationError::CodeDirNotDirectory));
}

#[test]
fn generate_mode_missing_entry_point_rejected() {
    let mc = generate_config("demo", "./code", false);
    let probe = CodeDirProbe { is_directory: true, has_entry_point: false };
    let r = validate_config(&mc, &EndpointType::Serverless, &ContainerMode::Generate, &probe);
    assert_eq!(r, Err(ValidationError::MissingEntryPoint));
}

#[test]
fn serverless_endpoint_without_compute_rejected() {
    let mut mc = provide_config("demo", "./ctx");
    mc.compute.serverless = None;
    let r = validate_config(&mc, &EndpointType::Serverless, &ContainerMode::Provide, &probe_ok());
    assert_eq!(r, Err(ValidationError::MissingServerlessCompute));
}

#[test]
fn server_endpoint_without_compute_rejected() {
    let mc = provide_config("demo", "./ctx");
    let r = validate_config(&mc, &EndpointType::Server, &ContainerMode::Provide, &probe_ok());
    assert_eq!(r, Err(ValidationError::MissingServerCompute));
}

#[test]
fn cuda_on_serverless_rejected_regardless_of_other_fields() {
    let mc = generate_config("demo", "./code", true);
    let r = validate_config(&mc, &EndpointType::Serverless, &ContainerMode::Generate, &probe_ok());
    assert_eq!(r, Err(ValidationError::CudaOnServerless));

    let mut with_extras = generate_config("other", "./elsewhere", true);
    with_extras.artefact = Some("model.tar.gz".to_string());
    with_extras.overrides = Some(Overrides {
        bucket_name: Some("custom-bucket".to_string()),
        role_arn: None,
    });
    let r2 = validate_config(
        &with_extras,
        &EndpointType::Serverless,
        &ContainerMode::Generate,
        &probe_ok(),
    );
    assert_eq!(r2, Err(ValidationError::CudaOnServerless));
}

#[test]
fn cuda_on_server_endpoint_accepted() {
    let mut mc = generate_config("demo", "./code", true);
    mc.compute.serverless = None;
    mc.compute.server = Some(ServerCompute {
        instance_type: "ml.m5.large".to_string(),
        initial_instance_count: 1,
    });
    let r = validate_config(&mc, &EndpointType::Server, &ContainerMode::Generate, &probe_ok());
    assert!(r.is_ok());
}

#[test]
fn validation_error_wraps_into_the_run_error_unchanged() {
    let e = sageturner::errors::DeployError::Validation { error: ValidationError::EmptyName };
    assert_eq!(e.message(), ValidationError::EmptyName.message());
}

#[test]
fn validation_message_names_the_field() {
    let m = ValidationError::EmptyName.message();
    assert!(m.contains("model name"));
    let m2 = ValidationError::CudaOnServerless.message();
    assert!(m2.contains("CUDA"));
}

#[test]
fn endpoint_type_parse_is_case_insensitive() {
    assert_eq!(EndpointType::parse("serverless"), Ok(EndpointType::Serverless));
    assert_eq!(EndpointType::parse("SERVERless"), Ok(EndpointType::Serverless));
    assert_eq!(EndpointType::parse("Server"), Ok(EndpointType::Server));
    let err = EndpointType::parse("edge").unwrap_err();
    assert_eq!(err, "Invalid endpoint type. serverless or server only, not: edge");
}

#[test]
fn container_mode_parse_is_case_insensitive() {
    assert_eq!(ContainerMode::parse("GENERATE"), Ok(ContainerMode::Generate));
    assert_eq!(ContainerMode::parse("provide"), Ok(ContainerMode::Provide));
    let err = ContainerMode::parse("copy").unwrap_err();
    assert_eq!(err, "Invalid container mode. use generate or provide, not: copy");
}

#[test]
fn selector_spellings_round_trip() {
    assert_eq!(EndpointType::Serverless.as_str(), "serverless");
    assert_eq!(EndpointType::Server.as_str(), "server");
    assert_eq!(ContainerMode::Generate.as_str(), "generate");
    assert_eq!(ContainerMode::Provide.as_str(), "provide");
    assert_eq!(EndpointType::parse(EndpointType::Server.as_str()), Ok(EndpointType::Server));
}

#[test]
fn default_python_version() {
    assert_eq!(default_python(), "3.12");
}
