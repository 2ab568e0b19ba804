use docker_sandbox::docker::absolute;
use docker_sandbox::docker::info_command;
use docker_sandbox::is_running;
use docker_sandbox::CmdError;
use docker_sandbox::ContainerBuilder;
use docker_sandbox::DockerEnv;
use docker_sandbox::MountConfig;
use docker_sandbox::MountPerms;
use docker_sandbox::MountStyle;

fn strings(parts: &[&str]) -> Vec<String> {
    parts.iter().map(|s| s.to_string()).collect()
}

#[test]
fn test_container_build() {
    let env = DockerEnv::new("mcr.microsoft.com/windows/servercore:10.0.16299.967");
    let outcome = Ok(strings(&["10.0.16299.967"]));
    let build = env.build_number(&outcome).unwrap();

    assert_eq!(build, "10.0.16299.967".parse().unwrap());
}

#[test]
fn guest_build_uses_first_line_only() {
    let env = DockerEnv::new("mcr.microsoft.com/windows/servercore:1709");
    let outcome = Ok(strings(&["10.0.16299.967", "stray trailing output"]));
    assert_eq!(
        env.build_number(&outcome).unwrap(),
        "10.0.16299.967".parse().unwrap()
    );

    let empty: Result<Vec<String>, CmdError> = Ok(Vec::new());
    assert!(env.build_number(&empty).is_err());
    let failed = Err(CmdError {
        context: "engine offline".to_string(),
    });
    assert!(env.build_number(&failed).is_err());
}

#[test]
fn guest_build_command_shape() {
    let env = DockerEnv::new("mcr.microsoft.com/windows/servercore:1709");
    let c = env.build_number_command();
    assert_eq!(c.program, "docker");
    assert_eq!(c.args[0], "run");
    assert_eq!(c.args[1], "mcr.microsoft.com/windows/servercore:1709");
    assert_eq!(c.args[2], "powershell");
    assert_eq!(c.args[3], "-Command");
    assert!(c.args[4].contains("CurrentBuildNumber"));
    assert!(c.capture);
}

#[test]
fn locality_is_derived_from_the_reference() {
    assert!(DockerEnv::new("ubuntu").is_local());
    assert!(DockerEnv::new("ubuntu:20.04").is_local());
    assert!(!DockerEnv::new("docker.io/library/ubuntu").is_local());
    assert!(!DockerEnv::new("mcr.microsoft.com/windows/servercore:1709").is_local());
}

#[test]
fn ensure_exists_locally_plans_pull_only_for_remote_images() {
    let local = DockerEnv::new("ubuntu");
    let cmds = local.ensure_exists_locally();
    assert_eq!(cmds.len(), 1);
    assert_eq!(cmds[0].args, strings(&["image", "inspect", "ubuntu"]));

    let remote = DockerEnv::new("docker.io/library/ubuntu");
    let cmds = remote.ensure_exists_locally();
    assert_eq!(cmds.len(), 2);
    assert_eq!(cmds[0].args, strings(&["pull", "docker.io/library/ubuntu"]));
    assert!(!cmds[0].enable_timeout);
    assert_eq!(
        cmds[1].args,
        strings(&["image", "inspect", "docker.io/library/ubuntu"])
    );
}

#[test]
fn daemon_probe() {
    let c = info_command();
    assert_eq!(c.program, "docker");
    assert_eq!(c.args, strings(&["info"]));
    assert!(c.hide_output);

    assert!(is_running(&Ok(Vec::new())));
    assert!(!is_running(&Err(CmdError {
        context: "no daemon".to_string(),
    })));
}

#[test]
fn absolute_resolves_relative_paths() {
    assert_eq!(absolute("data", "/work"), "/work/data");
    assert_eq!(absolute("data", "/work/"), "/work/data");
    assert_eq!(absolute("/var/data", "/work"), "/var/data");
    assert_eq!(absolute("", "/work"), "/work/");
}

#[test]
fn mount_argument_formatting() {
    let ro = MountConfig {
        host_path: "data".to_string(),
        container_path: "/data".to_string(),
        perm: MountPerms::ReadOnly,
    };
    assert_eq!(ro.to_volume_arg("/work"), "/work/data:/data:ro,Z");
    assert_eq!(
        ro.to_mount_arg("/work"),
        "type=bind,src=/work/data,dst=/data,readonly"
    );

    let rw = MountConfig {
        host_path: "data".to_string(),
        container_path: "/data".to_string(),
        perm: MountPerms::ReadWrite,
    };
    assert_eq!(rw.to_volume_arg("/work"), "/work/data:/data:rw,Z");
    assert_eq!(rw.to_mount_arg("/work"), "type=bind,src=/work/data,dst=/data");
}

#[test]
fn create_arguments_volume_style() {
    let env = DockerEnv::new("ubuntu");
    let b = ContainerBuilder::new(&env, MountStyle::Volume)
        .mount("data", "/data", MountPerms::ReadOnly)
        .mount("/cache", "/cache", MountPerms::ReadWrite)
        .env("KEY", "value")
        .workdir("/data")
        .memory_limit(Some(1073741824))
        .enable_networking(false)
        .cmd(strings(&["echo", "hello world"]));
    let c = b.create("/work");
    assert_eq!(c.program, "docker");
    assert!(c.capture);
    assert_eq!(
        c.args,
        strings(&[
            "create",
            "-v",
            "/work/data:/data:ro,Z",
            "-v",
            "/cache:/cache:rw,Z",
            "-e",
            "KEY=value",
            "-w",
            "/data",
            "-m",
            "1073741824",
            "--network",
            "none",
            "ubuntu",
            "echo",
            "hello world",
        ])
    );
}

#[test]
fn create_arguments_mount_style_and_defaults() {
    let env = DockerEnv::new("ubuntu");
    let b = ContainerBuilder::new(&env, MountStyle::Mount).mount(
        "data",
        "/data",
        MountPerms::ReadOnly,
    );
    let c = b.create("/work");
    assert_eq!(
        c.args,
        strings(&[
            "create",
            "--mount",
            "type=bind,src=/work/data,dst=/data,readonly",
            "ubuntu",
        ])
    );

    // Nothing configured: just the operation and the image; networking stays
    // enabled, no limit, no workdir.
    let plain = ContainerBuilder::new(&env, MountStyle::Volume).create("/work");
    assert_eq!(plain.args, strings(&["create", "ubuntu"]));
}

#[test]
fn duplicate_env_keys_are_kept_in_order() {
    let env = DockerEnv::new("ubuntu");
    let c = ContainerBuilder::new(&env, MountStyle::Volume)
        .env("K", "first")
        .env("K", "second")
        .create("/work");
    assert_eq!(
        c.args,
        strings(&["create", "-e", "K=first", "-e", "K=second", "ubuntu"])
    );
}
