use vstd::prelude::*;
use crate::job::{Build, BuildType, KindV, strings_view, copy_strings};

verus! {

/// The answer to a worker's poll.
pub enum Status {
    /// The worker's architecture holds this record: build it.
    Working(Build),
    /// Nothing to build.
    Pending,
}

/// Why a worker-facing request was refused.
#[derive(Debug, Clone, Copy, PartialEq, Eq, Structural)]
pub enum RequestError {
    /// The shared secret was missing or wrong.
    BadSecret,
}

/// A build kind as a worker reports it: its name and, for a release, its variants.
pub struct BuildTypeRequest {
    pub name: String,
    pub variants: Option<Vec<String>>,
}

/// Name under which a worker reports a build kind.
pub open spec fn kind_name(k: KindV) -> Seq<char> {
    match k {
        KindV::Livekit => "livekit"@,
        KindV::Release(_) => "release"@,
    }
}

/// Variants that a worker reports for a build kind.
pub open spec fn kind_variants(k: KindV) -> Option<Seq<Seq<char>>> {
    match k {
        KindV::Livekit => None,
        KindV::Release(v) => Some(v),
    }
}

impl BuildTypeRequest {
    pub open spec fn variants_view(&self) -> Option<Seq<Seq<char>>> {
        match self.variants {
            Some(v) => Some(strings_view(v@)),
            None => None,
        }
    }

    /// The report form of a build kind.
    pub fn from(value: BuildType) -> (r: BuildTypeRequest)
        ensures
            r.name@ == kind_name(value@),
            r.variants_view() == kind_variants(value@),
    {
        match value {
            BuildType::Livekit => BuildTypeRequest { name: String::from_str("livekit"), variants: None },
            BuildType::Release(v) => BuildTypeRequest { name: String::from_str("release"), variants: Some(copy_strings(&v)) },
        }
    }
}

/// What a worker reports once a build has ended.
pub struct DoneRequest {
    pub id: i64,
    pub arch: String,
    pub build_type: BuildTypeRequest,
    pub has_error: bool,
    pub log_url: Option<String>,
    pub push_success: bool,
    pub date: String,
}

} // verus!
