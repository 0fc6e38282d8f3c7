use shipit::commands::{answer, livekit_targets, release_targets, Command, Reply};
use shipit::control::{
    arch_list, describe, enqueue, is_known_arch, notification, poll_for_work, query_status, report_done,
    ArchOutcome,
};
use shipit::job::{Build, BuildType};
use shipit::parse::split_words;
use shipit::protocol::{BuildTypeRequest, DoneRequest, RequestError, Status};
use shipit::registry::{Db, RegistryError};
use shipit::text::{join, truncate};

const SECRET: &str = "s3cret";

fn strings(v: &[&str]) -> Vec<String> {
    v.iter().map(|s| s.to_string()).collect()
}

fn done(arch: &str, name: &str, variants: Option<&[&str]>, has_error: bool, log_url: Option<&str>, push: bool) -> DoneRequest {
    DoneRequest {
        id: 7,
        arch: arch.to_string(),
        build_type: BuildTypeRequest { name: name.to_string(), variants: variants.map(strings) },
        has_error,
        log_url: log_url.map(|u| u.to_string()),
        push_success: push,
        date: "2024-01-01".to_string(),
    }
}

#[test]
fn batch_enqueue_stops_at_busy_arch() {
    let mut db = Db::new();
    db.set_building("arm64", &Build { id: 1, arch: "arm64".into(), build_type: BuildType::Livekit }).unwrap();
    let outs = enqueue(&mut db, &strings(&["amd64", "arm64", "riscv64"]), &BuildType::Livekit, 2);
    assert_eq!(outs, vec![ArchOutcome::Created, ArchOutcome::Busy]);
    assert_eq!(db.get("amd64").unwrap().id, 2);
    assert_eq!(db.get("arm64").unwrap().id, 1);
    assert!(matches!(db.get("riscv64"), Err(RegistryError::NotFound)));
}

#[test]
fn unknown_arch_is_skipped_not_fatal() {
    let mut db = Db::new();
    let outs = enqueue(&mut db, &strings(&["mips", "amd64"]), &BuildType::Livekit, 3);
    assert_eq!(outs, vec![ArchOutcome::Unknown, ArchOutcome::Created]);
    assert!(db.get("mips").is_err());
    assert!(db.get("amd64").is_ok());
}

#[test]
fn end_to_end_release_build() {
    let mut db = Db::new();
    let kind = BuildType::Release(strings(&["base", "desktop"]));
    let outs = enqueue(&mut db, &strings(&["amd64"]), &kind, 99);
    assert_eq!(outs, vec![ArchOutcome::Created]);

    match poll_for_work(&db, "amd64", Some(SECRET), SECRET) {
        Ok(Status::Working(b)) => {
            assert_eq!(b.id, 99);
            assert_eq!(b.arch, "amd64");
            match b.build_type {
                BuildType::Release(v) => assert_eq!(v, vec!["base", "desktop"]),
                BuildType::Livekit => panic!("wrong kind"),
            }
        }
        _ => panic!("expected work"),
    }

    let req = done("amd64", "release", Some(&["base", "desktop"]), false, Some("https://buildit.aosc.io/logs/x.txt"), true);
    let msg = report_done(&mut db, &req, Some(SECRET), SECRET).unwrap();
    assert_eq!(
        msg,
        "Build release (base desktop) success: amd64\nlog url: https://buildit.aosc.io/logs/x.txt\nPush success: true"
    );
    assert!(matches!(db.get("amd64"), Err(RegistryError::NotFound)));
    let status = query_status(&db);
    assert!(status.lines().any(|l| l == "amd64: idle"));
    assert!(matches!(poll_for_work(&db, "amd64", Some(SECRET), SECRET), Ok(Status::Pending)));
}

#[test]
fn poll_with_wrong_secret_is_refused() {
    let mut db = Db::new();
    db.set_building("amd64", &Build { id: 5, arch: "amd64".into(), build_type: BuildType::Livekit }).unwrap();
    assert!(matches!(poll_for_work(&db, "amd64", Some("guess"), SECRET), Err(RequestError::BadSecret)));
    assert!(matches!(poll_for_work(&db, "amd64", None, SECRET), Err(RequestError::BadSecret)));
    assert!(matches!(poll_for_work(&db, "arm64", Some("guess"), SECRET), Err(RequestError::BadSecret)));
}

#[test]
fn report_with_wrong_secret_keeps_record() {
    let mut db = Db::new();
    db.set_building("amd64", &Build { id: 5, arch: "amd64".into(), build_type: BuildType::Livekit }).unwrap();
    let req = done("amd64", "livekit", None, false, None, true);
    assert_eq!(report_done(&mut db, &req, Some("nope"), SECRET), Err(RequestError::BadSecret));
    assert!(db.get("amd64").is_ok());
}

#[test]
fn report_on_idle_arch_still_notifies() {
    let mut db = Db::new();
    let req = done("arm64", "livekit", None, true, None, false);
    let msg = report_done(&mut db, &req, Some(SECRET), SECRET).unwrap();
    assert_eq!(msg, "Build livekit has error: arm64\nlog url: Failed to push log\nPush success: false");
}

#[test]
fn notification_text_for_livekit_success() {
    let req = done("loongson3", "livekit", None, false, Some("u"), true);
    assert_eq!(notification(&req), "Build livekit success: loongson3\nlog url: u\nPush success: true");
}

#[test]
fn status_lists_every_arch() {
    let mut db = Db::new();
    db.set_building("arm64", &Build { id: 1, arch: "arm64".into(), build_type: BuildType::Release(strings(&["base", "server"])) }).unwrap();
    db.set_building("riscv64", &Build { id: 1, arch: "riscv64".into(), build_type: BuildType::Livekit }).unwrap();
    assert_eq!(
        query_status(&db),
        "amd64: idle\narm64: building release variant: base server\nloongarch64: idle\nppc64el: idle\nloongson3: idle\nriscv64: building livekit\n"
    );
}

#[test]
fn describe_kinds() {
    assert_eq!(describe(&BuildType::Livekit), "livekit");
    assert_eq!(describe(&BuildType::Release(strings(&["a", "b"]))), "release variant: a b");
}

#[test]
fn known_archs() {
    assert_eq!(arch_list(), vec!["amd64", "arm64", "loongarch64", "ppc64el", "loongson3", "riscv64"]);
    assert!(is_known_arch("loongarch64"));
    assert!(!is_known_arch("x86"));
    assert!(!is_known_arch(""));
}

#[test]
fn words_split_on_ascii_whitespace() {
    assert_eq!(split_words("  amd64\tarm64 \n riscv64  "), vec!["amd64", "arm64", "riscv64"]);
    assert!(split_words("").is_empty());
    assert!(split_words(" \t ").is_empty());
    assert_eq!(join(&strings(&["a", "b", "c"])), "a b c");
    assert_eq!(join(&Vec::new()), "");
}

#[test]
fn command_targets() {
    assert_eq!(livekit_targets(""), arch_list());
    assert_eq!(livekit_targets("amd64 arm64"), vec!["amd64", "arm64"]);
    let (v, a) = release_targets("base desktop;amd64 arm64");
    assert_eq!(v, vec!["base", "desktop"]);
    assert_eq!(a, vec!["amd64", "arm64"]);
    let (v, a) = release_targets("base");
    assert_eq!(v, vec!["base"]);
    assert_eq!(a, arch_list());
    let (v, a) = release_targets(";riscv64");
    assert!(v.is_empty());
    assert_eq!(a, vec!["riscv64"]);
}

fn messages(r: Reply) -> Vec<String> {
    match r {
        Reply::Messages(m) => m,
        _ => panic!("expected messages"),
    }
}

#[test]
fn answer_release_command() {
    let mut db = Db::new();
    db.set_building("arm64", &Build { id: 1, arch: "arm64".into(), build_type: BuildType::Livekit }).unwrap();
    let m = messages(answer(&mut db, &Command::Release("base desktop;mips amd64 arm64 riscv64".into()), 10, false));
    assert_eq!(
        m,
        vec!["Unknown arch: mips", "Building amd64 for release (base desktop)", "Another build task is running."]
    );
    assert!(db.get("riscv64").is_err());
}

#[test]
fn answer_livekit_needs_login() {
    let mut db = Db::new();
    let m = messages(answer(&mut db, &Command::Livekit("amd64".into()), 10, false));
    assert!(m.is_empty());
    assert!(db.get("amd64").is_err());
    let m = messages(answer(&mut db, &Command::Livekit("amd64".into()), 10, true));
    assert_eq!(m, vec!["Building amd64 for livekit"]);
}

#[test]
fn answer_other_commands() {
    let mut db = Db::new();
    assert!(matches!(answer(&mut db, &Command::Help, 1, false), Reply::Help));
    assert!(matches!(answer(&mut db, &Command::Login, 1, false), Reply::LoginLink));
    assert!(matches!(answer(&mut db, &Command::Start("short".into()), 1, false), Reply::Help));
    match answer(&mut db, &Command::Start("abcdefghij0123456789".into()), 1, false) {
        Reply::Login(t) => assert_eq!(t, "abcdefghij0123456789"),
        _ => panic!("expected login"),
    }
    let m = messages(answer(&mut db, &Command::Status, 1, false));
    assert_eq!(m.len(), 1);
    assert!(m[0].starts_with("amd64: idle\n"));
}

#[test]
fn long_text_is_truncated() {
    let long = "x".repeat(1500);
    let t = truncate(&long);
    assert_ne!(t, long);
    assert!(t.chars().count() <= 1000);
    assert!(t.ends_with("..."));
    let short = "y".repeat(1000);
    assert_eq!(truncate(&short), short);
}

#[test]
fn release_without_variants_is_refused() {
    let mut db = Db::new();
    for args in ["", ";amd64", "  ;amd64 arm64", "   "] {
        let m = messages(answer(&mut db, &Command::Release(args.into()), 10, true));
        assert_eq!(m, vec!["A release needs at least one variant: /release variants;[archs]"]);
    }
    assert!(db.running_worker().is_empty());
}
