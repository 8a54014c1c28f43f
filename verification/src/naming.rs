//! The identifier deriver: maps an original name to its stand-in name.

use vstd::prelude::*;
use vstd::string::StringExecFns;
use crate::model::{Path, PathSeg, PathSegView, PathView, clone_path_seg};

verus! {

/// The text of a stand-in identifier: the original name with "Mock" in front.
pub open spec fn mock_ident_text(name: Seq<char>) -> Seq<char> {
    "Mock"@ + name
}

/// Derive the stand-in identifier from the original one, e.g. "Foo" => "MockFoo".
pub fn gen_mock_ident(name: &str) -> (r: String)
    ensures
        r@ == mock_ident_text(name@),
{
    let mut r = String::new();
    r.append("Mock");
    r.append(name);
    proof {
        assert(r@ =~= mock_ident_text(name@));
    }
    r
}

/// Distinct original identifiers always get distinct stand-in identifiers:
/// the derivation only prepends a fixed prefix.
pub proof fn lemma_mock_ident_injective(a: Seq<char>, b: Seq<char>)
    requires
        mock_ident_text(a) == mock_ident_text(b),
    ensures
        a == b,
{
    let n = "Mock"@.len() as int;
    assert(a =~= mock_ident_text(a).skip(n));
    assert(b =~= mock_ident_text(b).skip(n));
}

/// The stand-in path: the final segment's identifier replaced by its derived
/// name; every other segment, the final segment's generic arguments and the
/// leading-qualifier marker are kept unchanged.
pub open spec fn mock_path_view(p: PathView) -> PathView
    recommends
        p.segments.len() > 0,
{
    PathView {
        leading_colon: p.leading_colon,
        segments: p.segments.update(
            p.segments.len() - 1,
            PathSegView {
                name: mock_ident_text(p.segments.last().name),
                args: p.segments.last().args,
            },
        ),
    }
}

/// Derive the stand-in path from the original one,
/// e.g. "foo::bar::Baz" => "foo::bar::MockBaz".
pub fn gen_mock_path(p: &Path) -> (r: Path)
    requires
        p@.segments.len() > 0,
    ensures
        r@ == mock_path_view(p@),
{
    let n = p.segments.len();
    let mut segs: Vec<PathSeg> = Vec::new();
    let mut i: usize = 0;
    while i < n - 1
        invariant
            n == p.segments.len(),
            n > 0,
            i <= n - 1,
            segs@.len() == i,
            forall|j: int| 0 <= j < i ==> (#[trigger] segs@[j])@ == p.segments@[j]@,
        decreases n - 1 - i,
    {
        segs.push(clone_path_seg(&p.segments[i]));
        i = i + 1;
    }
    let last = &p.segments[n - 1];
    segs.push(
        PathSeg { name: gen_mock_ident(last.name.as_str()), args: crate::model::clone_opt_string(&last.args) },
    );
    let r = Path { leading_colon: p.leading_colon, segments: segs };
    proof {
        assert(r@.segments =~= mock_path_view(p@).segments);
        assert(r@ =~~= mock_path_view(p@));
    }
    r
}

} // verus!
