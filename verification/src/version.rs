use vstd::prelude::*;
use vstd::string::StringExecFns;

use crate::error::ConnectionError;

verus! {

/// A protocol version string carried through the handshakes.
#[derive(Debug)]
pub struct Version(String);

impl View for Version {
    type V = Seq<char>;

    closed spec fn view(&self) -> Seq<char> {
        self.0@
    }
}

impl Version {
    pub fn new(s: String) -> (r: Version)
        ensures
            r@ == s@,
    {
        Version(s)
    }

    pub fn as_str(&self) -> (r: &str)
        ensures
            r@ == self@,
    {
        self.0.as_str()
    }

    pub fn eq(&self, other: &Version) -> (r: bool)
        ensures
            r == (self@ == other@),
    {
        self.0 == other.0
    }
}

impl Clone for Version {
    fn clone(&self) -> (r: Self)
        ensures
            r@ == self@,
    {
        Version(self.0.clone())
    }
}

/// The version texts of a list.
pub open spec fn versions_view(s: Seq<Version>) -> Seq<Seq<char>> {
    s.map_values(|v: Version| v@)
}

/// Whether a version text occurs in a list.
pub open spec fn version_in(list: Seq<Seq<char>>, v: Seq<char>) -> bool {
    exists|i: int| 0 <= i < list.len() && list[i] == v
}

/// Whether a version list holds this version's text.
pub fn contains_version(list: &Vec<Version>, v: &Version) -> (r: bool)
    ensures
        r == version_in(versions_view(list@), v@),
{
    let n = list.len();
    let mut i: usize = 0;
    while i < n
        invariant
            n == list@.len(),
            i <= n,
            forall|j: int| 0 <= j < i ==> versions_view(list@)[j] != v@,
        decreases n - i,
    {
        if list[i].eq(v) {
            assert(versions_view(list@)[i as int] == v@);
            return true;
        }
        i = i + 1;
    }
    false
}

/// A copy of a version list.
pub fn dup_versions(list: &Vec<Version>) -> (r: Vec<Version>)
    ensures
        versions_view(r@) == versions_view(list@),
{
    let n = list.len();
    let mut out: Vec<Version> = Vec::new();
    let mut i: usize = 0;
    while i < n
        invariant
            n == list@.len(),
            i <= n,
            out@.len() == i,
            forall|j: int| 0 <= j < i ==> out@[j]@ == list@[j]@,
        decreases n - i,
    {
        out.push(list[i].clone());
        i = i + 1;
    }
    proof {
        assert(versions_view(out@) =~= versions_view(list@));
    }
    out
}

/// What a successful negotiation returns: the first proposal, in the
/// initiator's preference order, that the local side supports.
pub open spec fn negotiated_version(
    supported: Seq<Seq<char>>,
    proposals: Seq<Seq<char>>,
    picked: Seq<char>,
) -> bool {
    exists|i: int|
        0 <= i < proposals.len() && proposals[i] == picked && version_in(supported, picked)
            && (forall|j: int| 0 <= j < i ==> !version_in(supported, proposals[j]))
}

/// Picks the version: walks the initiator's proposals in order and
/// returns the first one this side supports.
pub fn pick_version(supported: &Vec<Version>, proposals: &Vec<Version>) -> (r: Result<
    Version,
    ConnectionError,
>)
    ensures
        match r {
            Ok(v) => negotiated_version(versions_view(supported@), versions_view(proposals@), v@),
            Err(e) => {
                &&& e == ConnectionError::VersionNegotiationFailed
                &&& forall|i: int|
                    0 <= i < proposals@.len() ==> !version_in(
                        versions_view(supported@),
                        versions_view(proposals@)[i],
                    )
            },
        },
{
    let n = proposals.len();
    let mut i: usize = 0;
    while i < n
        invariant
            n == proposals@.len(),
            i <= n,
            forall|j: int|
                0 <= j < i ==> !version_in(versions_view(supported@), versions_view(proposals@)[j]),
        decreases n - i,
    {
        if contains_version(supported, &proposals[i]) {
            let picked = proposals[i].clone();
            assert(versions_view(proposals@)[i as int] == picked@);
            return Ok(picked);
        }
        assert(versions_view(proposals@)[i as int] == proposals@[i as int]@);
        i = i + 1;
    }
    Err(ConnectionError::VersionNegotiationFailed)
}

/// The default compatible version set this side offers.
pub fn get_compatible_versions() -> (r: Vec<Version>)
    ensures
        versions_view(r@).len() == 1,
        versions_view(r@)[0] == "1"@,
{
    let mut v: Vec<Version> = Vec::new();
    v.push(Version::new("1".to_owned()));
    v
}

/// A negotiated version lies in both input sets, and the choice is
/// determined by the inputs: any two outcomes that both satisfy the
/// negotiation relation pick the same version text.
pub proof fn lemma_version_negotiation(
    supported: Seq<Seq<char>>,
    proposals: Seq<Seq<char>>,
    picked1: Seq<char>,
    picked2: Seq<char>,
)
    requires
        negotiated_version(supported, proposals, picked1),
        negotiated_version(supported, proposals, picked2),
    ensures
        version_in(supported, picked1),
        version_in(proposals, picked1),
        picked1 == picked2,
{
    let i1 = choose|i: int|
        0 <= i < proposals.len() && proposals[i] == picked1 && version_in(supported, picked1) && (
        forall|j: int| 0 <= j < i ==> !version_in(supported, proposals[j]));
    let i2 = choose|i: int|
        0 <= i < proposals.len() && proposals[i] == picked2 && version_in(supported, picked2) && (
        forall|j: int| 0 <= j < i ==> !version_in(supported, proposals[j]));
    if i1 < i2 {
        assert(!version_in(supported, proposals[i1]));
    } else if i2 < i1 {
        assert(!version_in(supported, proposals[i2]));
    }
}

} // verus!
