use shipit::job::{Build, BuildType};
use shipit::registry::{Db, RegistryError};

fn release(id: i64, arch: &str, variants: &[&str]) -> Build {
    Build {
        id,
        arch: arch.to_string(),
        build_type: BuildType::Release(variants.iter().map(|v| v.to_string()).collect()),
    }
}

fn livekit(id: i64, arch: &str) -> Build {
    Build { id, arch: arch.to_string(), build_type: BuildType::Livekit }
}

#[test]
fn second_claim_on_same_arch_fails() {
    let mut db = Db::new();
    let mut wins = 0;
    for id in 0..8 {
        if db.set_building("arm64", &livekit(id, "arm64")).is_ok() {
            wins += 1;
        } else {
            assert_eq!(db.set_building("arm64", &livekit(id, "arm64")), Err(RegistryError::AlreadyBuilding));
        }
    }
    assert_eq!(wins, 1);
    assert_eq!(db.get("arm64").unwrap().id, 0);
    assert_eq!(db.running_worker().len(), 1);
}

#[test]
fn clear_twice_and_on_absent_key() {
    let mut db = Db::new();
    db.set_build_done("amd64");
    assert!(db.running_worker().is_empty());
    db.set_building("amd64", &livekit(1, "amd64")).unwrap();
    db.set_build_done("amd64");
    db.set_build_done("amd64");
    assert!(matches!(db.get("amd64"), Err(RegistryError::NotFound)));
    assert!(db.running_worker().is_empty());
}

#[test]
fn claimed_record_reads_back_unchanged() {
    let mut db = Db::new();
    db.set_building("riscv64", &release(42, "riscv64", &["desktop", "base", "server"])).unwrap();
    let b = db.get("riscv64").unwrap();
    assert_eq!(b.id, 42);
    assert_eq!(b.arch, "riscv64");
    match b.build_type {
        BuildType::Release(v) => assert_eq!(v, vec!["desktop", "base", "server"]),
        BuildType::Livekit => panic!("kind changed"),
    }
}

#[test]
fn get_on_empty_registry_is_not_found() {
    let db = Db::new();
    assert!(matches!(db.get("amd64"), Err(RegistryError::NotFound)));
}

#[test]
fn running_worker_lists_each_record_once() {
    let mut db = Db::new();
    db.set_building("amd64", &livekit(1, "amd64")).unwrap();
    db.set_building("arm64", &release(2, "arm64", &["base"])).unwrap();
    db.set_building("ppc64el", &livekit(3, "ppc64el")).unwrap();
    db.set_build_done("arm64");
    let mut archs: Vec<String> = db.running_worker().into_iter().map(|b| b.arch).collect();
    archs.sort();
    assert_eq!(archs, vec!["amd64", "ppc64el"]);
}
