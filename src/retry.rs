use vstd::prelude::*;

verus! {

/// How many times an upload is attempted before the local fallback is used.
pub const MAX_ATTEMPTS: u32 = 5;

/// Seconds slept after failed attempt `attempt` (counted from 0): `2^attempt`.
pub open spec fn backoff_spec(attempt: nat) -> nat
    decreases attempt,
{
    if attempt == 0 {
        1
    } else {
        2 * backoff_spec((attempt - 1) as nat)
    }
}

/// Seconds to sleep after failed attempt `attempt`.
pub fn backoff_secs(attempt: u32) -> (r: u64)
    requires
        attempt < MAX_ATTEMPTS,
    ensures
        r == backoff_spec(attempt as nat),
{
    let mut d: u64 = 1;
    let mut k: u32 = 0;
    while k < attempt
        invariant
            k <= attempt < MAX_ATTEMPTS,
            d == backoff_spec(k as nat),
        decreases attempt - k,
    {
        proof {
            assert(backoff_spec((k + 1) as nat) == 2 * backoff_spec(k as nat));
            assert(d <= 8) by {
                reveal_with_fuel(backoff_spec, 4);
            }
        }
        d = d * 2;
        k = k + 1;
    }
    d
}

/// What an uploader does once an attempt has ended.
#[derive(Debug, Clone, Copy, PartialEq, Eq, Structural)]
pub enum UploadStep {
    /// The attempt succeeded.
    Delivered,
    /// Sleep `secs` seconds, then make attempt `next`.
    Retry { secs: u64, next: u32 },
    /// Sleep `secs` seconds, then give up: the caller keeps the file locally.
    GiveUp { secs: u64 },
}

/// The step after attempt `attempt` (counted from 0) ended, well or not.
pub open spec fn upload_step_spec(attempt: nat, succeeded: bool) -> UploadStep {
    if succeeded {
        UploadStep::Delivered
    } else if attempt + 1 < MAX_ATTEMPTS {
        UploadStep::Retry { secs: backoff_spec(attempt) as u64, next: (attempt + 1) as u32 }
    } else {
        UploadStep::GiveUp { secs: backoff_spec(attempt) as u64 }
    }
}

/// Decides what follows attempt `attempt` of an upload.
pub fn upload_step(attempt: u32, succeeded: bool) -> (r: UploadStep)
    requires
        attempt < MAX_ATTEMPTS,
    ensures
        r == upload_step_spec(attempt as nat, succeeded),
{
    if succeeded {
        UploadStep::Delivered
    } else if attempt + 1 < MAX_ATTEMPTS {
        UploadStep::Retry { secs: backoff_secs(attempt), next: attempt + 1 }
    } else {
        UploadStep::GiveUp { secs: backoff_secs(attempt) }
    }
}

/// Where a run of uploads ends: attempts made, whether one succeeded, and the
/// seconds slept before the last attempt.
pub struct UploadRun {
    pub attempts: nat,
    pub delivered: bool,
    pub slept_before_last: nat,
}

/// Running the uploader from attempt `attempt`, having slept `slept` so far,
/// where `results[i]` says whether attempt `i` succeeds (missing ones fail).
pub open spec fn run_upload(results: Seq<bool>, attempt: nat, slept: nat) -> UploadRun
    decreases MAX_ATTEMPTS - attempt,
{
    let ok = attempt < results.len() && results[attempt as int];
    if attempt >= MAX_ATTEMPTS {
        UploadRun { attempts: attempt, delivered: false, slept_before_last: slept }
    } else {
        match upload_step_spec(attempt, ok) {
            UploadStep::Delivered => UploadRun { attempts: attempt + 1, delivered: true, slept_before_last: slept },
            UploadStep::Retry { secs, next } => if next == attempt + 1 {
                run_upload(results, attempt + 1, slept + secs as nat)
            } else {
                UploadRun { attempts: attempt + 1, delivered: false, slept_before_last: slept }
            },
            UploadStep::GiveUp { .. } => UploadRun { attempts: attempt + 1, delivered: false, slept_before_last: slept },
        }
    }
}

/// Against a destination where every attempt fails, the uploader gives up
/// after exactly five attempts, having slept 1 + 2 + 4 + 8 = 15 seconds
/// before the fifth.
pub proof fn lemma_failing_upload_gives_up(results: Seq<bool>)
    requires
        forall|i: int| 0 <= i < results.len() ==> !results[i],
    ensures
        run_upload(results, 0, 0) == (UploadRun { attempts: 5, delivered: false, slept_before_last: 15 }),
{
    reveal_with_fuel(run_upload, 6);
    reveal_with_fuel(backoff_spec, 5);
}

/// The uploader reports success exactly when an attempt among the first five
/// succeeds, and it stops at the first one that does.
pub proof fn lemma_upload_stops_at_first_success(results: Seq<bool>, k: nat)
    requires
        k < MAX_ATTEMPTS,
        k < results.len(),
        results[k as int],
        forall|i: int| 0 <= i < k ==> !results[i],
    ensures
        run_upload(results, 0, 0).delivered,
        run_upload(results, 0, 0).attempts == k + 1,
{
    reveal_with_fuel(run_upload, 6);
}

} // verus!
