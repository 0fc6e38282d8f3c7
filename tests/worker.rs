use shipit::job::{Build, BuildType};
use shipit::protocol::{BuildTypeRequest, Status};
use shipit::retry::{backoff_secs, upload_step, UploadStep, MAX_ATTEMPTS};
use shipit::worker::{
    after_poll, completion_report, extension, finished_line, is_image_artifact, is_stale_output, log_file_name,
    log_url, os_dir, release_script_args, running_line, upload_args, AgentAction, POLL_INTERVAL_MS,
};

#[test]
fn failing_upload_gives_up_after_five_attempts() {
    let mut attempt = 0u32;
    let mut attempts = 0;
    let mut slept = 0u64;
    let mut slept_before_last = 0u64;
    loop {
        attempts += 1;
        slept_before_last = slept;
        match upload_step(attempt, false) {
            UploadStep::Retry { secs, next } => {
                slept += secs;
                attempt = next;
            }
            UploadStep::GiveUp { secs } => {
                assert_eq!(secs, 16);
                break;
            }
            UploadStep::Delivered => panic!("nothing was delivered"),
        }
    }
    assert_eq!(attempts, 5);
    assert_eq!(slept_before_last, 15);
    assert_eq!(MAX_ATTEMPTS, 5);
}

#[test]
fn upload_success_stops_retrying() {
    assert_eq!(upload_step(0, true), UploadStep::Delivered);
    assert_eq!(upload_step(3, true), UploadStep::Delivered);
    assert_eq!(upload_step(2, false), UploadStep::Retry { secs: 4, next: 3 });
}

#[test]
fn backoff_doubles() {
    let v: Vec<u64> = (0..5).map(backoff_secs).collect();
    assert_eq!(v, vec![1, 2, 4, 8, 16]);
}

#[test]
fn log_names() {
    let f = log_file_name("amd64", "builder", "2024-01-02-03:04:05");
    assert_eq!(f, "shipit-amd64-builder-2024-01-02-03:04:05.txt");
    assert_eq!(log_url(true, &f).unwrap(), "https://buildit.aosc.io/logs/shipit-amd64-builder-2024-01-02-03:04:05.txt");
    assert!(log_url(false, &f).is_none());
}

#[test]
fn upload_arguments() {
    assert_eq!(
        upload_args("key", false, "f.txt", "repo.example", "/buildit/logs"),
        vec!["-i", "key", "f.txt", "maintainers@repo.example:/buildit/logs"]
    );
    assert_eq!(
        upload_args("key", true, "os-amd64", "h", "/lookaside/private/aosc-os"),
        vec!["-i", "key", "-r", "os-amd64", "maintainers@h:/lookaside/private/aosc-os"]
    );
    assert_eq!(os_dir("arm64"), "os-arm64");
    assert_eq!(
        release_script_args(&vec!["base".to_string(), "desktop".to_string()]),
        vec!["./contrib/generate-releases.sh", "base", "desktop"]
    );
}

#[test]
fn file_extensions() {
    assert_eq!(extension("a.iso").unwrap(), "iso");
    assert_eq!(extension("a.b.sha256sum").unwrap(), "sha256sum");
    assert!(extension(".iso").is_none());
    assert!(extension("iso").is_none());
    assert_eq!(extension("a.").unwrap(), "");
    assert!(is_image_artifact("aosc-os_livekit.iso"));
    assert!(is_image_artifact("x.sha256sum"));
    assert!(!is_image_artifact("x.img"));
    assert!(is_stale_output("to-squash"));
    assert!(is_stale_output("sb"));
    assert!(!is_stale_output("aosc-mklive.sh"));
}

#[test]
fn report_carries_outcome() {
    let b = Build { id: 3, arch: "amd64".into(), build_type: BuildType::Release(vec!["base".into()]) };
    let r = completion_report(b, false, true, Some("u".into()), "d".into());
    assert_eq!(r.id, 3);
    assert_eq!(r.arch, "amd64");
    assert!(r.has_error);
    assert!(r.push_success);
    assert_eq!(r.log_url.as_deref(), Some("u"));
    assert_eq!(r.build_type.name, "release");
    assert_eq!(r.build_type.variants, Some(vec!["base".to_string()]));
    let l = BuildTypeRequest::from(BuildType::Livekit);
    assert_eq!(l.name, "livekit");
    assert!(l.variants.is_none());
}

#[test]
fn agent_reacts_to_poll() {
    let b = Build { id: 1, arch: "amd64".into(), build_type: BuildType::Livekit };
    assert!(matches!(after_poll(Some(Status::Working(b))), AgentAction::Execute(x) if x.id == 1));
    assert!(matches!(after_poll(Some(Status::Pending)), AgentAction::Wait(POLL_INTERVAL_MS)));
    assert!(matches!(after_poll(None), AgentAction::Wait(300)));
}

#[test]
fn log_lines() {
    let args = vec!["pull".to_string()];
    assert_eq!(running_line("T", "git", &args, "/src"), "T: Running `git pull` in `/src`\n");
    assert_eq!(finished_line("T", "git", &args, "1.2s", "exit status: 0"), "T: `git pull` finished in 1.2s with exit status: 0\n");
}
