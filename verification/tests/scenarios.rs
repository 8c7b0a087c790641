use base64::Engine;
use sageturner::config::CodeDirProbe;
use sageturner::config::Compute;
use sageturner::config::Container;
use sageturner::config::ContainerMode;
use sageturner::config::EndpointType;
use sageturner::config::GenerateContainerConfig;
use sageturner::config::ModelConfig;
use sageturner::config::ProvideContainerConfig;
use sageturner::config::ServerCompute;
use sageturner::config::ServerlessCompute;
use sageturner::deploy::BuildPlan;
use sageturner::deploy::DeployAction;
use sageturner::deploy::DeployEvent;
use sageturner::deploy::Deployment;
use sageturner::deploy::Phase;
use sageturner::deploy::plan_deployment;
use sageturner::errors::ValidationError;
use sageturner::provision::BucketAction;
use sageturner::provision::BucketEvent;
use sageturner::provision::RoleAction;
use sageturner::provision::RoleEvent;
use sageturner::provision::UploadAction;
use sageturner::provision::UploadEvent;
use sageturner::registry::PushAction;
use sageturner::registry::PushEvent;

const TS: &str = "010120250101";

fn probe_ok() -> CodeDirProbe {
    CodeDirProbe { is_directory: true, has_entry_point: true }
}

fn base_config(name: &str) -> ModelConfig {
    ModelConfig {
        name: name.to_string(),
        artefact: None,
        container: Container {
            generate_container: None,
            provide_container: Some(ProvideContainerConfig { docker_dir: "./ctx".to_string() }),
        },
        compute: Compute {
            serverless: Some(ServerlessCompute {
                memory: 1024,
                provisioned_concurrency: 0,
                max_concurrency: 5,
            }),
            server: None,
        },
        overrides: None,
    }
}

/// Answers every action a run asks for as a well-behaved set of remote
/// services would, and records one line per call.
fn answer(action: DeployAction, log: &mut Vec<String>) -> DeployEvent {
    match action {
        DeployAction::BuildImage { build } => {
            match build {
                BuildPlan::Provided { context_dir, image_name } => {
                    log.push(format!("build provided {} {}", context_dir, image_name));
                }
                BuildPlan::Generated { code_dir, image_name, .. } => {
                    log.push(format!("build generated {} {}", code_dir, image_name));
                }
            }
            DeployEvent::ImageBuilt
        }
        DeployAction::Push { action } => match action {
            PushAction::DescribeRepository { repository_name } => {
                log.push(format!("describe-repo {}", repository_name));
                DeployEvent::Push {
                    event: PushEvent::RepositoryFound {
                        uri: format!("777.dkr.ecr/{}", repository_name),
                    },
                }
            }
            PushAction::CreateRepository { repository_name } => {
                log.push(format!("create-repo {}", repository_name));
                DeployEvent::Push {
                    event: PushEvent::RepositoryCreated {
                        uri: format!("777.dkr.ecr/{}", repository_name),
                    },
                }
            }
            PushAction::TagImage { image_name, repo_uri, tag } => {
                log.push(format!("tag {} {} {}", image_name, repo_uri, tag));
                DeployEvent::Push { event: PushEvent::Tagged }
            }
            PushAction::FetchRegistryToken => {
                log.push("fetch-token".to_string());
                DeployEvent::Push {
                    event: PushEvent::TokenFetched {
                        token: Some(base64::prelude::BASE64_STANDARD.encode("AWS:pw")),
                        proxy_endpoint: Some("https://777.dkr.ecr".to_string()),
                    },
                }
            }
            PushAction::PushImage { repo_uri, tag, credentials } => {
                log.push(format!(
                    "push {} {} {}:{}",
                    repo_uri, tag, credentials.username, credentials.password
                ));
                DeployEvent::Push { event: PushEvent::Pushed }
            }
        },
        DeployAction::Role { action } => match action {
            RoleAction::CreateRole { role_name, .. } => {
                log.push(format!("create-role {}", role_name));
                DeployEvent::Role {
                    event: RoleEvent::Created { arn: format!("arn:aws:iam::1:role/{}", role_name) },
                }
            }
            RoleAction::FetchRole { role_name } => {
                log.push(format!("fetch-role {}", role_name));
                DeployEvent::Role {
                    event: RoleEvent::Fetched { arn: format!("arn:aws:iam::1:role/{}", role_name) },
                }
            }
            RoleAction::AwaitRoleVisible { role_name } => {
                log.push(format!("await-role {}", role_name));
                DeployEvent::Role { event: RoleEvent::Visible }
            }
            RoleAction::AttachPolicy { role_name, policy_arn } => {
                log.push(format!("attach-policy {} {}", role_name, policy_arn));
                DeployEvent::Role { event: RoleEvent::PolicyAttached }
            }
        },
        DeployAction::Bucket { action } => match action {
            BucketAction::HeadBucket { bucket_name } => {
                log.push(format!("head-bucket {}", bucket_name));
                DeployEvent::Bucket { event: BucketEvent::Missing }
            }
            BucketAction::CreateBucket { bucket_name, location } => {
                log.push(format!("create-bucket {} {}", bucket_name, location));
                DeployEvent::Bucket { event: BucketEvent::Created }
            }
        },
        DeployAction::Upload { action } => match action {
            UploadAction::PutObject { bucket_name, key, local_path } => {
                log.push(format!("put-object {} {} {}", bucket_name, key, local_path));
                DeployEvent::Upload { event: UploadEvent::Stored }
            }
            UploadAction::AwaitObjectVisible { bucket_name, key } => {
                log.push(format!("await-object {} {}", bucket_name, key));
                DeployEvent::Upload { event: UploadEvent::ObjectVisible }
            }
        },
        DeployAction::CreateModel {
            model_version_name,
            execution_role_arn,
            image_uri,
            artefact_location,
        } => {
            log.push(format!(
                "create-model {} {} {} {:?}",
                model_version_name, execution_role_arn, image_uri, artefact_location
            ));
            DeployEvent::ModelRegistered
        }
        DeployAction::CreateServerlessEndpointConfig {
            endpoint_config_name,
            model_version_name,
            variant_name,
            memory,
            max_concurrency,
            provisioned_concurrency,
        } => {
            log.push(format!(
                "create-endpoint-config serverless {} {} {} {} {} {}",
                endpoint_config_name,
                model_version_name,
                variant_name,
                memory,
                max_concurrency,
                provisioned_concurrency
            ));
            DeployEvent::EndpointConfigCreated
        }
        DeployAction::CreateServerEndpointConfig {
            endpoint_config_name,
            model_version_name,
            variant_name,
            instance_type,
            initial_instance_count,
            execution_role_arn,
        } => {
            log.push(format!(
                "create-endpoint-config server {} {} {} {} {} role={}",
                endpoint_config_name,
                model_version_name,
                variant_name,
                instance_type,
                initial_instance_count,
                execution_role_arn
            ));
            DeployEvent::EndpointConfigCreated
        }
        DeployAction::CreateEndpoint { endpoint_name, endpoint_config_name } => {
            log.push(format!("create-endpoint {} {}", endpoint_name, endpoint_config_name));
            DeployEvent::EndpointCreated
        }
    }
}

fn drive(mut run: Deployment, log: &mut Vec<String>) -> Deployment {
    loop {
        match run.next_action() {
            Some(action) => {
                let ev = answer(action, log);
                run = run.step(ev);
            }
            None => break,
        }
    }
    run
}

#[test]
fn scenario_provide_serverless_reaches_done_without_upload() {
    let mc = base_config("demo");
    let plan = plan_deployment(
        mc,
        EndpointType::Serverless,
        ContainerMode::Provide,
        probe_ok(),
        TS.to_string(),
    )
    .unwrap();
    assert_eq!(plan.model_version_name, format!("demo{}", TS));
    assert_eq!(plan.bucket_name, "sageturner-sagemaker-models");
    assert_eq!(plan.role_name, "sageturner-role-sagemaker");

    let mut log = Vec::new();
    let run = drive(Deployment::new(plan), &mut log);
    assert!(matches!(run.phase, Phase::Done));

    assert!(log.iter().any(|l| l == "build provided ./ctx demo"));
    assert!(log.iter().any(|l| l.starts_with("push 777.dkr.ecr/demo latest AWS:pw")));
    assert!(log.iter().any(|l| l.contains(&format!("create-model demo{}", TS))));
    assert!(log.iter().any(|l| l.contains("create-endpoint-config serverless")
        && l.contains("1024 5 0")
        && l.contains("sageturner-variant-1")));
    assert!(log.iter().any(|l| l
        == &format!("create-endpoint demo{0}-{0} demo{0}-{0}", TS)));
    // No artifact was configured, so nothing touched the store.
    assert!(!log.iter().any(|l| l.starts_with("head-bucket")
        || l.starts_with("create-bucket")
        || l.starts_with("put-object")
        || l.starts_with("await-object")));
    // The model carries no data location.
    assert!(log.iter().any(|l| l.starts_with("create-model") && l.ends_with("None")));
}

#[test]
fn scenario_server_endpoint_config_carries_the_execution_role() {
    let mut mc = base_config("demo");
    mc.compute.serverless = None;
    mc.compute.server = Some(ServerCompute {
        instance_type: "ml.m5.large".to_string(),
        initial_instance_count: 1,
    });
    let plan = plan_deployment(
        mc,
        EndpointType::Server,
        ContainerMode::Provide,
        probe_ok(),
        TS.to_string(),
    )
    .unwrap();
    let mut log = Vec::new();
    let run = drive(Deployment::new(plan), &mut log);
    assert!(matches!(run.phase, Phase::Done));
    assert!(log.iter().any(|l| l.contains("create-endpoint-config server")
        && l.contains("ml.m5.large 1")
        && l.contains("role=arn:aws:iam::1:role/sageturner-role-sagemaker")));
    // The elastic shape, by contrast, never names a role.
    assert!(!log.iter().any(|l| l.contains("serverless") && l.contains("role=")));
}

#[test]
fn scenario_artefact_uploads_before_model_registration() {
    let mut mc = base_config("demo");
    mc.artefact = Some("weights/model.tar.gz".to_string());
    let plan = plan_deployment(
        mc,
        EndpointType::Serverless,
        ContainerMode::Provide,
        probe_ok(),
        TS.to_string(),
    )
    .unwrap();
    assert_eq!(
        plan.artefact_key.as_deref(),
        Some(format!("demo/{}/model.tar.gz", TS).as_str())
    );
    let mut log = Vec::new();
    let run = drive(Deployment::new(plan), &mut log);
    assert!(matches!(run.phase, Phase::Done));

    let put = log.iter().position(|l| l.starts_with("put-object")).unwrap();
    let awaited = log.iter().position(|l| l.starts_with("await-object")).unwrap();
    let registered = log.iter().position(|l| l.starts_with("create-model")).unwrap();
    assert!(put < awaited && awaited < registered);
    let expected_location = format!(
        "s3://sageturner-sagemaker-models/demo/{}/model.tar.gz",
        TS
    );
    assert!(log[registered].ends_with(&format!("Some(\"{}\")", expected_location)));
}

#[test]
fn scenario_missing_entry_point_stops_before_any_remote_call() {
    let mc = ModelConfig {
        name: "demo".to_string(),
        artefact: None,
        container: Container {
            generate_container: Some(GenerateContainerConfig {
                code_dir: "./code".to_string(),
                system_packages: None,
                python_packages: None,
                install_cuda: false,
                python_version: "3.12".to_string(),
            }),
            provide_container: None,
        },
        compute: Compute {
            serverless: Some(ServerlessCompute {
                memory: 1024,
                provisioned_concurrency: 0,
                max_concurrency: 5,
            }),
            server: None,
        },
        overrides: None,
    };
    let probe = CodeDirProbe { is_directory: true, has_entry_point: false };
    let r = plan_deployment(
        mc,
        EndpointType::Serverless,
        ContainerMode::Generate,
        probe,
        TS.to_string(),
    );
    assert!(matches!(r, Err(ValidationError::MissingEntryPoint)));
    // No run exists, so the log of remote calls stays empty.
    let log: Vec<String> = Vec::new();
    assert!(log.is_empty());
}

#[test]
fn overrides_win_when_present_and_non_empty() {
    let mut mc = base_config("demo");
    mc.overrides = Some(sageturner::config::Overrides {
        bucket_name: Some("custom-bucket".to_string()),
        role_arn: Some("custom-role".to_string()),
    });
    let plan = plan_deployment(
        mc,
        EndpointType::Serverless,
        ContainerMode::Provide,
        probe_ok(),
        TS.to_string(),
    )
    .unwrap();
    assert_eq!(plan.bucket_name, "custom-bucket");
    assert_eq!(plan.role_name, "custom-role");

    let mut mc2 = base_config("demo");
    mc2.overrides = Some(sageturner::config::Overrides {
        bucket_name: Some(String::new()),
        role_arn: None,
    });
    let plan2 = plan_deployment(
        mc2,
        EndpointType::Serverless,
        ContainerMode::Provide,
        probe_ok(),
        TS.to_string(),
    )
    .unwrap();
    assert_eq!(plan2.bucket_name, "sageturner-sagemaker-models");
    assert_eq!(plan2.role_name, "sageturner-role-sagemaker");
}

#[test]
fn generated_build_plan_carries_the_templates_and_joined_packages() {
    let mc = ModelConfig {
        name: "gen".to_string(),
        artefact: None,
        container: Container {
            generate_container: Some(GenerateContainerConfig {
                code_dir: "./code".to_string(),
                system_packages: Some(vec!["git".to_string(), "curl".to_string()]),
                python_packages: Some(vec!["torch".to_string(), "numpy".to_string()]),
                install_cuda: true,
                python_version: "3.11".to_string(),
            }),
            provide_container: None,
        },
        compute: Compute {
            serverless: None,
            server: Some(ServerCompute {
                instance_type: "ml.g5.xlarge".to_string(),
                initial_instance_count: 2,
            }),
        },
        overrides: None,
    };
    let plan = plan_deployment(
        mc,
        EndpointType::Server,
        ContainerMode::Generate,
        probe_ok(),
        TS.to_string(),
    )
    .unwrap();
    match &plan.build {
        BuildPlan::Generated {
            code_dir,
            image_name,
            dockerfile,
            serve_code,
            python_packages,
            system_packages,
            python_version,
        } => {
            assert_eq!(code_dir, "./code");
            assert_eq!(image_name, "gen");
            assert!(dockerfile.contains("cuda-toolkit-12-8"));
            assert_eq!(dockerfile, &sageturner::container::gpu_dockerfile());
            assert_eq!(serve_code, &sageturner::pyserve::get_serve_code());
            assert_eq!(python_packages, "torch numpy");
            assert_eq!(system_packages, "git curl");
            assert_eq!(python_version, "3.11");
        }
        _ => panic!("expected a generated build plan"),
    }
}
