use vstd::prelude::*;
use crate::job::{BuildV, KindV};
use crate::registry::{RegistryError, Slots, try_create_spec, get_spec, clear_spec};
use crate::control::{ArchOutcome, enqueue_spec, known_archs, status_line};

verus! {

/// Claiming one architecture for each record of `bs`, one after another.
pub open spec fn claim_all(m: Slots, arch: Seq<char>, bs: Seq<BuildV>) -> (Slots, Seq<Result<(), RegistryError>>)
    decreases bs.len(),
{
    if bs.len() == 0 {
        (m, Seq::empty())
    } else {
        let (m1, r) = try_create_spec(m, arch, bs[0]);
        let rest = claim_all(m1, arch, bs.drop_first());
        (rest.0, seq![r] + rest.1)
    }
}

/// How many claims succeeded.
pub open spec fn successes(rs: Seq<Result<(), RegistryError>>) -> nat
    decreases rs.len(),
{
    if rs.len() == 0 {
        0
    } else {
        (if rs[0] is Ok {
            1nat
        } else {
            0nat
        }) + successes(rs.drop_first())
    }
}

proof fn lemma_claims_on_busy_arch_fail(m: Slots, arch: Seq<char>, bs: Seq<BuildV>)
    requires
        m.contains_key(arch),
    ensures
        claim_all(m, arch, bs).0 == m,
        successes(claim_all(m, arch, bs).1) == 0,
    decreases bs.len(),
{
    if bs.len() > 0 {
        lemma_claims_on_busy_arch_fail(m, arch, bs.drop_first());
        let rest = claim_all(m, arch, bs.drop_first());
        assert((seq![Err::<(), RegistryError>(RegistryError::AlreadyBuilding)] + rest.1).drop_first() =~= rest.1);
    }
}

/// Of any number of claims on one architecture, at most one succeeds: exactly
/// one when it was idle, none when it was busy; the registry then holds the
/// first claimant's record.
pub proof fn lemma_one_claim_wins(m: Slots, arch: Seq<char>, bs: Seq<BuildV>)
    requires
        bs.len() > 0,
    ensures
        successes(claim_all(m, arch, bs).1) == (if m.contains_key(arch) {
            0nat
        } else {
            1nat
        }),
        claim_all(m, arch, bs).0 == (if m.contains_key(arch) {
            m
        } else {
            m.insert(arch, bs[0])
        }),
{
    if m.contains_key(arch) {
        lemma_claims_on_busy_arch_fail(m, arch, bs);
    } else {
        let m1 = m.insert(arch, bs[0]);
        lemma_claims_on_busy_arch_fail(m1, arch, bs.drop_first());
        let rest = claim_all(m1, arch, bs.drop_first());
        assert((seq![Ok::<(), RegistryError>(())] + rest.1).drop_first() =~= rest.1);
    }
}

/// Releasing an architecture twice leaves what releasing it once does, and
/// releasing an idle one changes nothing.
pub proof fn lemma_clear_idempotent(m: Slots, arch: Seq<char>)
    ensures
        clear_spec(clear_spec(m, arch), arch) == clear_spec(m, arch),
        !m.contains_key(arch) ==> clear_spec(m, arch) == m,
        !clear_spec(m, arch).contains_key(arch),
{
    assert(clear_spec(clear_spec(m, arch), arch) =~= clear_spec(m, arch));
    if !m.contains_key(arch) {
        assert(clear_spec(m, arch) =~= m);
    }
}

/// A record that was claimed is read back exactly as it was written, kind and
/// variant order included.
pub proof fn lemma_claim_then_get(m: Slots, arch: Seq<char>, b: BuildV)
    requires
        !m.contains_key(arch),
    ensures
        try_create_spec(m, arch, b).1 == Ok::<(), RegistryError>(()),
        get_spec(try_create_spec(m, arch, b).0, arch) == Ok::<BuildV, RegistryError>(b),
{
}

/// An enqueue of three known architectures whose second one is busy creates
/// the first record, stops at the second with `Busy`, and leaves the third
/// idle.
pub proof fn lemma_enqueue_stops_at_busy(
    m: Slots,
    a: Seq<char>,
    b: Seq<char>,
    c: Seq<char>,
    k: KindV,
    id: i64,
)
    requires
        known_archs().contains(a),
        known_archs().contains(b),
        known_archs().contains(c),
        a != b,
        a != c,
        !m.contains_key(a),
        m.contains_key(b),
        !m.contains_key(c),
    ensures
        enqueue_spec(m, seq![a, b, c], k, id) == (
            m.insert(a, BuildV { id, arch: a, kind: k }),
            seq![ArchOutcome::Created, ArchOutcome::Busy],
        ),
        !enqueue_spec(m, seq![a, b, c], k, id).0.contains_key(c),
{
    let s = seq![a, b, c];
    let m1 = m.insert(a, BuildV { id, arch: a, kind: k });
    assert(s.drop_first() =~= seq![b, c]);
    assert(m1.contains_key(b));
    assert(enqueue_spec(m1, seq![b, c], k, id) == (m1, seq![ArchOutcome::Busy]));
    assert(seq![ArchOutcome::Created] + seq![ArchOutcome::Busy] =~= seq![ArchOutcome::Created, ArchOutcome::Busy]);
}

/// Once a completion report has released an architecture, a poll for it
/// finds nothing to build, and a new claim on it succeeds.
pub proof fn lemma_released_arch_is_idle(m: Slots, arch: Seq<char>, b: BuildV)
    ensures
        get_spec(clear_spec(m, arch), arch) == Err::<BuildV, RegistryError>(RegistryError::NotFound),
        try_create_spec(clear_spec(m, arch), arch, b).1 == Ok::<(), RegistryError>(()),
{
}

/// A release enqueued for an idle amd64 is what a poll for amd64 finds; once
/// its completion is reported, a poll finds nothing and the status report
/// shows amd64 idle.
pub proof fn lemma_release_round_trip(m: Slots, variants: Seq<Seq<char>>, id: i64)
    requires
        !m.contains_key("amd64"@),
    ensures
        enqueue_spec(m, seq!["amd64"@], KindV::Release(variants), id).1 == seq![ArchOutcome::Created],
        get_spec(enqueue_spec(m, seq!["amd64"@], KindV::Release(variants), id).0, "amd64"@)
            == Ok::<BuildV, RegistryError>(BuildV { id, arch: "amd64"@, kind: KindV::Release(variants) }),
        get_spec(clear_spec(enqueue_spec(m, seq!["amd64"@], KindV::Release(variants), id).0, "amd64"@), "amd64"@)
            == Err::<BuildV, RegistryError>(RegistryError::NotFound),
        status_line(clear_spec(enqueue_spec(m, seq!["amd64"@], KindV::Release(variants), id).0, "amd64"@), "amd64"@)
            == "amd64"@ + ": idle"@,
{
    let a = "amd64"@;
    let k = KindV::Release(variants);
    assert(known_archs()[0] == a);
    let m1 = m.insert(a, BuildV { id, arch: a, kind: k });
    assert(seq![a].drop_first() =~= Seq::<Seq<char>>::empty());
    assert(enqueue_spec(m1, Seq::<Seq<char>>::empty(), k, id) == (m1, Seq::<ArchOutcome>::empty()));
    assert(seq![ArchOutcome::Created] + Seq::<ArchOutcome>::empty() =~= seq![ArchOutcome::Created]);
    assert(enqueue_spec(m, seq![a], k, id) == (m1, seq![ArchOutcome::Created]));
}

} // verus!
