use vstd::prelude::*;
use crate::job::{Build, BuildType, BuildV, KindV, strings_view, text_eq};
use crate::registry::{Db, RegistryError, Slots, try_create_spec, get_spec, clear_spec};
use crate::text::{join, join_words, bool_text, bool_string};
use crate::protocol::{Status, RequestError, DoneRequest};

verus! {

/// The architectures that have a worker.
pub open spec fn known_archs() -> Seq<Seq<char>> {
    seq!["amd64"@, "arm64"@, "loongarch64"@, "ppc64el"@, "loongson3"@, "riscv64"@]
}

/// The architectures that have a worker, in their fixed order.
pub fn arch_list() -> (r: Vec<String>)
    ensures
        strings_view(r@) == known_archs(),
{
    let mut r: Vec<String> = Vec::new();
    r.push(String::from_str("amd64"));
    r.push(String::from_str("arm64"));
    r.push(String::from_str("loongarch64"));
    r.push(String::from_str("ppc64el"));
    r.push(String::from_str("loongson3"));
    r.push(String::from_str("riscv64"));
    proof {
        assert(strings_view(r@) =~= known_archs());
    }
    r
}

/// Whether `arch` has a worker.
pub fn is_known_arch(arch: &str) -> (r: bool)
    ensures
        r == known_archs().contains(arch@),
{
    let all = arch_list();
    let ghost w = strings_view(all@);
    let mut i: usize = 0;
    while i < all.len()
        invariant
            w == strings_view(all@),
            w == known_archs(),
            i <= all@.len(),
            forall|j: int| 0 <= j < i ==> w[j] != arch@,
        decreases all.len() - i,
    {
        if text_eq(all[i].as_str(), arch) {
            proof {
                assert(w[i as int] == arch@);
            }
            return true;
        }
        i = i + 1;
    }
    false
}

/// What became of one architecture of an enqueue request.
#[derive(Debug, Clone, Copy, PartialEq, Eq, Structural)]
pub enum ArchOutcome {
    /// No worker exists for the architecture; it was skipped.
    Unknown,
    /// The architecture already holds a record; the request stopped here.
    Busy,
    /// A record was created for the architecture.
    Created,
}

/// Enqueueing `kind` for `archs` on behalf of `id`: one architecture at a time,
/// skipping unknown ones and stopping at the first busy one, with the records
/// created before it kept.
pub open spec fn enqueue_spec(m: Slots, archs: Seq<Seq<char>>, kind: KindV, id: i64) -> (Slots, Seq<ArchOutcome>)
    decreases archs.len(),
{
    if archs.len() == 0 {
        (m, Seq::empty())
    } else {
        let a = archs[0];
        if !known_archs().contains(a) {
            let rest = enqueue_spec(m, archs.drop_first(), kind, id);
            (rest.0, seq![ArchOutcome::Unknown] + rest.1)
        } else {
            let (m2, res) = try_create_spec(m, a, BuildV { id, arch: a, kind });
            if res is Err {
                (m, seq![ArchOutcome::Busy])
            } else {
                let rest = enqueue_spec(m2, archs.drop_first(), kind, id);
                (rest.0, seq![ArchOutcome::Created] + rest.1)
            }
        }
    }
}

/// Enqueues a build of `kind` for each architecture of `archs` in turn; the
/// outcome of each architecture that was reached comes back in order.
pub fn enqueue(db: &mut Db, archs: &Vec<String>, kind: &BuildType, id: i64) -> (r: Vec<ArchOutcome>)
    requires
        old(db).wf(),
    ensures
        final(db).wf(),
        (final(db)@, r@) == enqueue_spec(old(db)@, strings_view(archs@), kind@, id),
{
    let ghost w = strings_view(archs@);
    let ghost m0 = db@;
    let mut out: Vec<ArchOutcome> = Vec::new();
    let mut i: usize = 0;
    proof {
        assert(w.skip(0) =~= w);
        assert(out@ + enqueue_spec(m0, w, kind@, id).1 =~= enqueue_spec(m0, w, kind@, id).1);
    }
    while i < archs.len()
        invariant
            db.wf(),
            m0 == old(db)@,
            w == strings_view(archs@),
            i <= archs@.len(),
            enqueue_spec(m0, w, kind@, id) == (
                enqueue_spec(db@, w.skip(i as int), kind@, id).0,
                out@ + enqueue_spec(db@, w.skip(i as int), kind@, id).1,
            ),
        decreases archs.len() - i,
    {
        let ghost rest = w.skip(i as int);
        let ghost prev = out@;
        proof {
            assert(rest[0] == archs@[i as int]@);
            assert(rest.drop_first() =~= w.skip(i + 1));
        }
        let a = archs[i].as_str();
        if !is_known_arch(a) {
            out.push(ArchOutcome::Unknown);
        } else {
            let b = Build { id, arch: archs[i].clone(), build_type: kind.clone() };
            let ghost before = db@;
            match db.set_building(a, &b) {
                Err(_) => {
                    out.push(ArchOutcome::Busy);
                    proof {
                        assert(db@ == before);
                        assert(enqueue_spec(before, rest, kind@, id) == (before, seq![ArchOutcome::Busy]));
                        assert(out@ =~= prev + seq![ArchOutcome::Busy]);
                        assert(enqueue_spec(m0, w, kind@, id) == (db@, out@));
                    }
                    return out;
                },
                Ok(()) => {
                    out.push(ArchOutcome::Created);
                },
            }
        }
        proof {
            assert(prev + seq![out@.last()] =~= out@);
            assert(enqueue_spec(m0, w, kind@, id).1 =~= out@ + enqueue_spec(db@, w.skip(i + 1), kind@, id).1);
        }
        i = i + 1;
    }
    proof {
        assert(w.skip(i as int).len() == 0);
        assert(out@ + Seq::<ArchOutcome>::empty() =~= out@);
    }
    out
}

/// Whether a request carries the expected shared secret.
pub open spec fn secret_ok(secret: Option<&str>, expected: &str) -> bool {
    match secret {
        Some(s) => s@ == expected@,
        None => false,
    }
}

pub fn check_secret(secret: Option<&str>, expected: &str) -> (r: bool)
    ensures
        r == secret_ok(secret, expected),
{
    match secret {
        Some(s) => text_eq(s, expected),
        None => false,
    }
}

/// A worker's poll: `Working` with the record held for `arch`, or `Pending`
/// when none is; `BadSecret`, and nothing of the registry, without the secret.
pub fn poll_for_work(db: &Db, arch: &str, secret: Option<&str>, expected: &str) -> (r: Result<Status, RequestError>)
    requires
        db.wf(),
    ensures
        match r {
            Err(e) => !secret_ok(secret, expected) && e == RequestError::BadSecret,
            Ok(Status::Working(b)) => secret_ok(secret, expected) && get_spec(db@, arch@) == Ok::<BuildV, RegistryError>(b@),
            Ok(Status::Pending) => secret_ok(secret, expected) && get_spec(db@, arch@) is Err,
        },
{
    if !check_secret(secret, expected) {
        return Err(RequestError::BadSecret);
    }
    match db.get(arch) {
        Ok(b) => Ok(Status::Working(b)),
        Err(_) => Ok(Status::Pending),
    }
}

/// The message sent to the requester when a build has ended.
pub open spec fn notification_text(
    name: Seq<char>,
    variants: Option<Seq<Seq<char>>>,
    has_error: bool,
    arch: Seq<char>,
    log_url: Option<Seq<char>>,
    push_success: bool,
) -> Seq<char> {
    "Build "@ + name + match variants {
        Some(v) => " ("@ + join_words(v) + ")"@,
        None => Seq::empty(),
    } + " "@ + (if !has_error {
        "success"@
    } else {
        "has error"@
    }) + ": "@ + arch + "\nlog url: "@ + match log_url {
        Some(u) => u,
        None => "Failed to push log"@,
    } + "\nPush success: "@ + bool_text(push_success)
}

pub open spec fn opt_text(o: Option<String>) -> Option<Seq<char>> {
    match o {
        Some(s) => Some(s@),
        None => None,
    }
}

/// The message for a completion report.
pub open spec fn report_text(req: DoneRequest) -> Seq<char> {
    notification_text(
        req.build_type.name@,
        req.build_type.variants_view(),
        req.has_error,
        req.arch@,
        opt_text(req.log_url),
        req.push_success,
    )
}

/// Renders the message sent to the requester for a completion report.
pub fn notification(req: &DoneRequest) -> (r: String)
    ensures
        r@ == report_text(*req),
{
    let mut r = String::from_str("Build ");
    r.append(req.build_type.name.as_str());
    match &req.build_type.variants {
        Some(v) => {
            r.append(" (");
            let j = join(v);
            r.append(j.as_str());
            r.append(")");
        },
        None => {},
    }
    r.append(" ");
    if !req.has_error {
        r.append("success");
    } else {
        r.append("has error");
    }
    r.append(": ");
    r.append(req.arch.as_str());
    r.append("\nlog url: ");
    match &req.log_url {
        Some(u) => r.append(u.as_str()),
        None => r.append("Failed to push log"),
    }
    r.append("\nPush success: ");
    let p = bool_string(req.push_success);
    r.append(p.as_str());
    proof {
        assert(r@ =~= report_text(*req));
    }
    r
}

/// A worker's completion report: releases the architecture (also when it held
/// nothing) and gives the message for the requester; `BadSecret`, with the
/// registry untouched, without the secret.
pub fn report_done(db: &mut Db, req: &DoneRequest, secret: Option<&str>, expected: &str) -> (r: Result<String, RequestError>)
    requires
        old(db).wf(),
    ensures
        final(db).wf(),
        match r {
            Err(e) => !secret_ok(secret, expected) && e == RequestError::BadSecret && final(db)@ == old(db)@,
            Ok(msg) => secret_ok(secret, expected) && msg@ == report_text(*req)
                && final(db)@ == clear_spec(old(db)@, req.arch@),
        },
{
    if !check_secret(secret, expected) {
        return Err(RequestError::BadSecret);
    }
    db.set_build_done(req.arch.as_str());
    Ok(notification(req))
}

/// How the status report names a build kind.
pub open spec fn describe_kind(k: KindV) -> Seq<char> {
    match k {
        KindV::Livekit => "livekit"@,
        KindV::Release(v) => "release variant: "@ + join_words(v),
    }
}

/// Names a build kind for the status report.
pub fn describe(k: &BuildType) -> (r: String)
    ensures
        r@ == describe_kind(k@),
{
    match k {
        BuildType::Livekit => String::from_str("livekit"),
        BuildType::Release(v) => {
            let mut r = String::from_str("release variant: ");
            let j = join(v);
            r.append(j.as_str());
            r
        },
    }
}

/// One line of the status report.
pub open spec fn status_line(m: Slots, a: Seq<char>) -> Seq<char> {
    if m.contains_key(a) {
        a + ": building "@ + describe_kind(m[a].kind)
    } else {
        a + ": idle"@
    }
}

/// The status report over `archs`, one line each.
pub open spec fn status_text(m: Slots, archs: Seq<Seq<char>>) -> Seq<char>
    decreases archs.len(),
{
    if archs.len() == 0 {
        Seq::empty()
    } else {
        status_text(m, archs.drop_last()) + status_line(m, archs.last()) + "\n"@
    }
}

/// The state of every known architecture: what it is building, or idle.
pub fn query_status(db: &Db) -> (r: String)
    requires
        db.wf(),
    ensures
        r@ == status_text(db@, known_archs()),
{
    let all = arch_list();
    let ghost w = strings_view(all@);
    let mut r = String::new();
    let mut i: usize = 0;
    while i < all.len()
        invariant
            db.wf(),
            w == strings_view(all@),
            i <= all@.len(),
            r@ == status_text(db@, w.take(i as int)),
        decreases all.len() - i,
    {
        let a = all[i].as_str();
        r.append(a);
        match db.get(a) {
            Ok(b) => {
                r.append(": building ");
                let d = describe(&b.build_type);
                r.append(d.as_str());
            },
            Err(_) => r.append(": idle"),
        }
        r.append("\n");
        proof {
            assert(w.take(i + 1).drop_last() =~= w.take(i as int));
            assert(w.take(i + 1).last() == a@);
            assert(r@ =~= status_text(db@, w.take(i + 1)));
        }
        i = i + 1;
    }
    proof {
        assert(w.take(all@.len() as int) =~= w);
    }
    r
}

} // verus!
