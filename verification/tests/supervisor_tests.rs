use app_shell::supervisor::failure_message;
use app_shell::supervisor::PlatformProfile;
use app_shell::supervisor::StartAction;
use app_shell::supervisor::StartFailure;
use app_shell::supervisor::Supervisor;

fn expect_launch(a: StartAction) -> app_shell::supervisor::LaunchPlan {
    match a {
        StartAction::Launch(p) => p,
        StartAction::AlreadyRunning => panic!("expected a launch plan"),
    }
}

#[test]
fn status_false_before_any_start() {
    let sup = Supervisor::new();
    assert!(!sup.status());
}

#[test]
fn fresh_mobile_install_provisions_and_starts() {
    let mut sup = Supervisor::new();
    assert!(!sup.status());

    let plan = expect_launch(sup.plan_start(PlatformProfile::IosEmbedded, true, "/data/app", false));

    let prov = plan.provisioning.expect("first launch must provision");
    let dirs: Vec<&str> = prov.directories.iter().map(|d| d.as_str()).collect();
    assert_eq!(
        dirs,
        vec![
            "/data/app/laravel/storage/app/public",
            "/data/app/laravel/storage/framework/cache",
            "/data/app/laravel/storage/framework/sessions",
            "/data/app/laravel/storage/framework/views",
            "/data/app/laravel/storage/logs",
            "/data/app/laravel/database",
            "/data/app/laravel/bootstrap/cache",
        ]
    );
    assert_eq!(prov.sentinel, "/data/app/laravel/.initialized");

    let env: Vec<(&str, &str)> = plan.env.iter().map(|p| (p.0.as_str(), p.1.as_str())).collect();
    assert_eq!(
        env,
        vec![
            ("STORAGE_PATH", "/data/app/laravel/storage"),
            ("BOOTSTRAP_CACHE", "/data/app/laravel/bootstrap/cache"),
            ("DATABASE_PATH", "/data/app/laravel/database"),
            ("DB_DATABASE", "/data/app/laravel/database/database.sqlite"),
        ]
    );

    assert_eq!(plan.binary, "php-iphoneos-arm64");
    let args: Vec<&str> = plan.args.iter().map(|a| a.as_str()).collect();
    assert_eq!(args, vec!["-S", "127.0.0.1:8080", "-t", "/data/app/laravel"]);
    assert_eq!(plan.working_dir.as_deref(), Some("/data/app/laravel"));

    let r = sup.finish_start(PlatformProfile::IosEmbedded, Ok(()));
    assert_eq!(r, Ok("Server started successfully".to_string()));
    assert!(sup.status());
}

#[test]
fn second_launch_with_sentinel_skips_provisioning() {
    let sup = Supervisor::new();
    let plan = expect_launch(sup.plan_start(PlatformProfile::AndroidEmbedded, true, "/data/app", true));
    assert!(plan.provisioning.is_none());
    assert_eq!(plan.binary, "php-android-aarch64");
    let args: Vec<&str> = plan.args.iter().map(|a| a.as_str()).collect();
    assert_eq!(args, vec!["-S", "127.0.0.1:8080", "-t", "/data/app/laravel"]);
    assert_eq!(plan.working_dir.as_deref(), Some("/data/app/laravel"));
}

#[test]
fn ios_simulator_gets_simulator_binary() {
    let sup = Supervisor::new();
    let plan = expect_launch(sup.plan_start(PlatformProfile::IosEmbedded, false, "/data/app", true));
    assert_eq!(plan.binary, "php-iphonesimulator-arm64");
}

#[test]
fn desktop_plan_is_bare_sidecar_launch() {
    let sup = Supervisor::new();
    let plan = expect_launch(sup.plan_start(PlatformProfile::DesktopDefault, false, "", false));
    assert!(plan.provisioning.is_none());
    assert!(plan.env.is_empty());
    assert_eq!(plan.binary, "frankenphp");
    let args: Vec<&str> = plan.args.iter().map(|a| a.as_str()).collect();
    assert_eq!(args, vec!["php-server", "--listen", "127.0.0.1:8080"]);
    assert!(plan.working_dir.is_none());
}

#[test]
fn desktop_serialized_parallel_starts_spawn_once() {
    // Two callers race; the host's lock serializes them, so the second
    // runs against the state the first left behind.
    let mut sup = Supervisor::new();
    let mut spawns: u32 = 0;
    let mut successes: u32 = 0;

    for _caller in 0..2 {
        match sup.plan_start(PlatformProfile::DesktopDefault, false, "", false) {
            StartAction::Launch(_plan) => {
                spawns += 1;
                let r = sup.finish_start(PlatformProfile::DesktopDefault, Ok(()));
                assert!(r.is_ok());
                successes += 1;
            }
            StartAction::AlreadyRunning => {
                successes += 1;
            }
        }
    }

    assert_eq!(spawns, 1);
    assert_eq!(successes, 2);
    assert!(sup.status());
}

#[test]
fn spawn_failure_reports_reason_and_retries() {
    let mut sup = Supervisor::new();

    let first = expect_launch(sup.plan_start(PlatformProfile::DesktopDefault, false, "", false));
    assert_eq!(first.binary, "frankenphp");
    let r = sup.finish_start(
        PlatformProfile::DesktopDefault,
        Err(StartFailure::Spawn("No such file or directory".to_string())),
    );
    let msg = r.expect_err("a failed spawn must surface an error");
    assert_eq!(msg, "Failed to start server: No such file or directory");
    assert!(msg.contains("No such file or directory"));
    assert!(!sup.status());

    // Not short-circuited: the next call reaches the spawn step again.
    let second = sup.plan_start(PlatformProfile::DesktopDefault, false, "", false);
    let _plan = expect_launch(second);
    let r = sup.finish_start(PlatformProfile::DesktopDefault, Ok(()));
    assert!(r.is_ok());
    assert!(sup.status());
}

#[test]
fn status_stays_true_after_success() {
    let mut sup = Supervisor::new();
    let _plan = expect_launch(sup.plan_start(PlatformProfile::DesktopDefault, false, "", false));
    sup.finish_start(PlatformProfile::DesktopDefault, Ok(())).unwrap();
    for _ in 0..3 {
        assert!(sup.status());
        match sup.plan_start(PlatformProfile::DesktopDefault, false, "", false) {
            StartAction::AlreadyRunning => {}
            StartAction::Launch(_) => panic!("a running supervisor must short-circuit"),
        }
    }
}

#[test]
fn already_running_start_reports_success() {
    let mut sup = Supervisor::new();
    let _plan = expect_launch(sup.plan_start(PlatformProfile::DesktopDefault, false, "", false));
    sup.finish_start(PlatformProfile::DesktopDefault, Ok(())).unwrap();
    match sup.plan_start(PlatformProfile::DesktopDefault, false, "", false) {
        StartAction::AlreadyRunning => {
            let m = app_shell::supervisor::already_running_message();
            assert_eq!(m, "Server is already running");
        }
        StartAction::Launch(_) => panic!("a running supervisor must short-circuit"),
    }
}

#[test]
fn failure_messages_name_each_stage() {
    let mobile = PlatformProfile::AndroidEmbedded;
    let desktop = PlatformProfile::DesktopDefault;

    assert_eq!(
        failure_message(mobile, &StartFailure::AppDataDir("denied".to_string())),
        "Failed to get app data directory: denied"
    );
    assert_eq!(
        failure_message(
            mobile,
            &StartFailure::CreateDirectory("/data/app/laravel/database".to_string(), "read-only".to_string()),
        ),
        "Failed to create directory /data/app/laravel/database: read-only"
    );
    assert_eq!(
        failure_message(mobile, &StartFailure::MarkInitialized("disk full".to_string())),
        "Failed to mark as initialized: disk full"
    );
    assert_eq!(
        failure_message(mobile, &StartFailure::SidecarLookup("not registered".to_string())),
        "Failed to spawn PHP binary: not registered"
    );
    assert_eq!(
        failure_message(mobile, &StartFailure::Spawn("EPERM".to_string())),
        "Failed to start PHP server: EPERM"
    );
    assert_eq!(
        failure_message(desktop, &StartFailure::SidecarLookup("not registered".to_string())),
        "Failed to spawn sidecar: not registered"
    );
    assert_eq!(
        failure_message(desktop, &StartFailure::Spawn("EPERM".to_string())),
        "Failed to start server: EPERM"
    );
}

#[test]
fn is_first_launch_mirrors_sentinel_absence() {
    assert!(app_shell::supervisor::is_first_launch(false));
    assert!(!app_shell::supervisor::is_first_launch(true));
}
