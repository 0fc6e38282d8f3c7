use vstd::prelude::*;

verus! {

/// What a build produces: a live image, or a release with its variant tags.
pub enum BuildType {
    Livekit,
    Release(Vec<String>),
}

/// One in-flight build: who asked for it, the architecture it runs on and
/// what it builds.
pub struct Build {
    pub id: i64,
    pub arch: String,
    pub build_type: BuildType,
}

/// Mathematical form of a build kind.
pub enum KindV {
    Livekit,
    Release(Seq<Seq<char>>),
}

/// Mathematical form of a build record.
pub struct BuildV {
    pub id: i64,
    pub arch: Seq<char>,
    pub kind: KindV,
}

/// A build kind is well formed when a release names at least one variant.
pub open spec fn kind_ok(k: KindV) -> bool {
    match k {
        KindV::Livekit => true,
        KindV::Release(v) => v.len() > 0,
    }
}

pub open spec fn strings_view(v: Seq<String>) -> Seq<Seq<char>> {
    v.map_values(|s: String| s@)
}

impl View for BuildType {
    type V = KindV;

    open spec fn view(&self) -> KindV {
        match self {
            BuildType::Livekit => KindV::Livekit,
            BuildType::Release(v) => KindV::Release(strings_view(v@)),
        }
    }
}

impl View for Build {
    type V = BuildV;

    open spec fn view(&self) -> BuildV {
        BuildV { id: self.id, arch: self.arch@, kind: self.build_type@ }
    }
}

/// Copies a list of strings, keeping their order.
pub fn copy_strings(v: &Vec<String>) -> (r: Vec<String>)
    ensures
        strings_view(r@) == strings_view(v@),
{
    let mut r: Vec<String> = Vec::new();
    let mut i: usize = 0;
    while i < v.len()
        invariant
            i <= v.len(),
            r@.len() == i,
            forall|j: int| 0 <= j < i ==> #[trigger] r@[j]@ == v@[j]@,
        decreases v.len() - i,
    {
        r.push(v[i].clone());
        i = i + 1;
    }
    proof {
        assert(strings_view(r@) =~= strings_view(v@));
    }
    r
}

/// Whether two texts hold the same characters.
pub fn text_eq(a: &str, b: &str) -> (r: bool)
    ensures
        r == (a@ == b@),
{
    let n = a.unicode_len();
    if n != b.unicode_len() {
        return false;
    }
    let mut i: usize = 0;
    while i < n
        invariant
            n == a@.len(),
            n == b@.len(),
            i <= n,
            forall|j: int| 0 <= j < i ==> a@[j] == b@[j],
        decreases n - i,
    {
        if a.get_char(i) != b.get_char(i) {
            return false;
        }
        i = i + 1;
    }
    proof {
        assert(a@ =~= b@);
    }
    true
}

impl Clone for BuildType {
    fn clone(&self) -> (r: Self)
        ensures
            r@ == self@,
    {
        match self {
            BuildType::Livekit => BuildType::Livekit,
            BuildType::Release(v) => BuildType::Release(copy_strings(v)),
        }
    }
}

impl Clone for Build {
    fn clone(&self) -> (r: Self)
        ensures
            r@ == self@,
    {
        Build { id: self.id, arch: self.arch.clone(), build_type: self.build_type.clone() }
    }
}

} // verus!
