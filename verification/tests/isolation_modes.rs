use docker_sandbox::build_number;
use docker_sandbox::container_isolation;
use docker_sandbox::container_isolation_for_env;
use docker_sandbox::ContainerIsolation;
use docker_sandbox::DockerEnv;
use docker_sandbox::Error;
use docker_sandbox::HostVersionInfo;
use docker_sandbox::IncompatibilityReason;
use docker_sandbox::IsolationCache;
use docker_sandbox::ResolveFailure;
use docker_sandbox::WindowsBuild;

#[test]
fn test_container_isolation() {
    let win2016: WindowsBuild = "10.0.14393.953".parse().unwrap();
    let win1709: WindowsBuild = "10.0.16299.967".parse().unwrap();
    let win1803: WindowsBuild = "10.0.17134.590".parse().unwrap();

    assert_eq!(
        container_isolation(win1803, win1709).unwrap(),
        ContainerIsolation::HyperV
    );
    assert_eq!(
        container_isolation(win1803, win2016).unwrap(),
        ContainerIsolation::HyperV
    );

    assert_eq!(
        container_isolation(win1709, win1709).unwrap(),
        ContainerIsolation::Process
    );
    assert!(container_isolation(win2016, win1709).is_err());
}

#[test]
fn test_revision_number_mismatch() {
    let host2016: WindowsBuild = "10.0.14393.196".parse().unwrap();
    let guest2016: WindowsBuild = "10.0.14393.257".parse().unwrap();

    assert!(container_isolation(host2016, guest2016).is_err());

    let host1803: WindowsBuild = "10.0.17134.196".parse().unwrap();
    let guest1803: WindowsBuild = "10.0.17134.257".parse().unwrap();

    assert_eq!(
        container_isolation(host1803, guest1803).unwrap(),
        ContainerIsolation::Process
    );
}

#[test]
fn isolation_failure_reasons() {
    let mk = |s: &str| s.parse::<WindowsBuild>().unwrap();
    assert!(matches!(
        container_isolation(mk("11.0.1.0"), mk("10.0.1.0")),
        Err(Error::IsolationIncompatible {
            reason: IncompatibilityReason::MajorVersionMismatch
        })
    ));
    assert!(matches!(
        container_isolation(mk("10.1.1.0"), mk("10.0.1.0")),
        Err(Error::IsolationIncompatible {
            reason: IncompatibilityReason::MinorVersionMismatch
        })
    ));
    assert!(matches!(
        container_isolation(mk("10.0.14393.953"), mk("10.0.16299.967")),
        Err(Error::IsolationIncompatible {
            reason: IncompatibilityReason::HostOlderThanGuest
        })
    ));
    assert!(matches!(
        container_isolation(mk("10.0.14393.196"), mk("10.0.14393.257")),
        Err(Error::IsolationIncompatible {
            reason: IncompatibilityReason::RevisionMismatch
        })
    ));
}

#[test]
fn revision_threshold_is_exact() {
    let mk = |s: &str| s.parse::<WindowsBuild>().unwrap();
    // At the baseline build, revision drift is tolerated.
    assert_eq!(
        container_isolation(mk("10.0.16299.1"), mk("10.0.16299.2")).unwrap(),
        ContainerIsolation::Process
    );
    // One build below, it is not.
    assert!(container_isolation(mk("10.0.16298.1"), mk("10.0.16298.2")).is_err());
    // Equal revisions need no tolerance, whatever the build.
    assert_eq!(
        container_isolation(mk("10.0.14393.953"), mk("10.0.14393.953")).unwrap(),
        ContainerIsolation::Process
    );
}

#[test]
fn test_build_number() {
    let info = HostVersionInfo {
        major: 10,
        minor: 0,
        build: "17763".to_string(),
        revision: 245,
    };
    assert_eq!(build_number(&info).unwrap().major, 10);
}

#[test]
fn host_build_assembles_all_fields() {
    let info = HostVersionInfo {
        major: 10,
        minor: 0,
        build: "16299".to_string(),
        revision: 967,
    };
    let b = build_number(&info).unwrap();
    assert_eq!(b, "10.0.16299.967".parse().unwrap());
}

#[test]
fn host_build_rejects_textual_build() {
    let info = HostVersionInfo {
        major: 10,
        minor: 0,
        build: "1776x".to_string(),
        revision: 245,
    };
    assert!(matches!(build_number(&info), Err(Error::VersionParseFailure)));
}

#[test]
fn cache_computes_once_and_shares() {
    let mut cache = IsolationCache::new();
    let env = DockerEnv::new("mcr.microsoft.com/windows/servercore:1709");
    let host: WindowsBuild = "10.0.17134.590".parse().unwrap();
    let guest: WindowsBuild = "10.0.16299.967".parse().unwrap();

    assert_eq!(cache.lookup(&env), None);
    let first = container_isolation_for_env(&mut cache, &env, host, Ok(guest));
    assert_eq!(first, Ok(ContainerIsolation::HyperV));

    // A later call for the same identity ignores its own guest outcome —
    // even a failing one — and observes the stored resolution.
    let second = container_isolation_for_env(&mut cache, &env, host, Err(Error::VersionParseFailure));
    assert_eq!(second, Ok(ContainerIsolation::HyperV));
    assert_eq!(cache.lookup(&env), Some(Ok(ContainerIsolation::HyperV)));
}

#[test]
fn cache_shares_failures_and_keeps_identities_apart() {
    let mut cache = IsolationCache::new();
    let host: WindowsBuild = "10.0.17134.590".parse().unwrap();

    let broken = DockerEnv::new("registry.example.com/broken");
    let r = container_isolation_for_env(&mut cache, &broken, host, Err(Error::VersionParseFailure));
    assert_eq!(r, Err(ResolveFailure::GuestVersionUnparsable));
    // The failure is cached and shared, not recomputed.
    let guest: WindowsBuild = "10.0.16299.967".parse().unwrap();
    let again = container_isolation_for_env(&mut cache, &broken, host, Ok(guest));
    assert_eq!(again, Err(ResolveFailure::GuestVersionUnparsable));

    // Another identity resolves independently and disturbs nothing.
    let healthy = DockerEnv::new("registry.example.com/healthy");
    assert_eq!(cache.lookup(&healthy), None);
    let r2 = container_isolation_for_env(&mut cache, &healthy, host, Ok(guest));
    assert_eq!(r2, Ok(ContainerIsolation::HyperV));
    assert_eq!(cache.lookup(&broken), Some(Err(ResolveFailure::GuestVersionUnparsable)));

    let r3 = container_isolation_for_env(
        &mut cache,
        &healthy,
        host,
        Err(Error::CommandFailure {
            context: "engine offline".to_string(),
        }),
    );
    assert_eq!(r3, Ok(ContainerIsolation::HyperV));
}

#[test]
fn cache_maps_query_failures() {
    let mut cache = IsolationCache::new();
    let host: WindowsBuild = "10.0.17134.590".parse().unwrap();
    let env = DockerEnv::new("registry.example.com/unreachable");
    let r = container_isolation_for_env(
        &mut cache,
        &env,
        host,
        Err(Error::CommandFailure {
            context: "engine offline".to_string(),
        }),
    );
    assert_eq!(r, Err(ResolveFailure::GuestQueryFailed));
}
