//! The paths that the service answers, and the work behind each of them.

use vstd::prelude::*;
use crate::work::optional_bytes;

verus! {

/// The byte `/`, which parts the segments of a path.
pub const SLASH: u8 = 47;

/// The bytes of `/stateless/`.
pub const STATELESS_PREFIX: [u8; 11] = [47, 115, 116, 97, 116, 101, 108, 101, 115, 115, 47];

/// The bytes of `/stateful/`.
pub const STATEFUL_PREFIX: [u8; 10] = [47, 115, 116, 97, 116, 101, 102, 117, 108, 47];

/// The bytes of `nothing`, the value that the service shares among its
/// requests.
pub const SHARED_STATE: [u8; 7] = [110, 111, 116, 104, 105, 110, 103];

/// The routes of the service.
#[derive(Clone, Copy, Debug, PartialEq, Eq, Structural)]
pub enum Route {
    /// `/`: the page.
    Main,
    /// `/stateless/{id}`: the image, after the blocking work.
    Stateless,
    /// `/stateful/{id}`: the same, with the shared state threaded through.
    Stateful,
}

/// The method of a request, as far as the service tells methods apart.
#[derive(Clone, Copy, Debug, PartialEq, Eq, Structural)]
pub enum Method {
    Get,
    /// Served like `Get`; the transport leaves the body out.
    Head,
    /// Any other method.
    Other,
}

/// A path that matched: its route and, where the route has one, its last
/// segment.
#[derive(Debug)]
pub struct Matched {
    pub route: Route,
    pub parameter: Option<Vec<u8>>,
}

/// A [`Matched`] as a mathematical value.
pub ghost struct MatchedView {
    pub route: Route,
    pub parameter: Option<Seq<u8>>,
}

impl View for Matched {
    type V = MatchedView;

    open spec fn view(&self) -> MatchedView {
        MatchedView { route: self.route, parameter: optional_bytes(self.parameter) }
    }
}

/// The view of a match that may not be there.
pub open spec fn optional_match(matched: Option<Matched>) -> Option<MatchedView> {
    match matched {
        Some(m) => Some(m@),
        None => None,
    }
}

/// A segment of a path: at least one byte, none of them a slash.
pub open spec fn is_segment(bytes: Seq<u8>) -> bool {
    &&& bytes.len() > 0
    &&& forall|i: int| 0 <= i < bytes.len() ==> bytes[i] != SLASH
}

/// The one segment that follows `prefix` in `path`, if `path` is `prefix` and
/// then exactly one segment.
pub open spec fn segment_under(path: Seq<u8>, prefix: Seq<u8>) -> Option<Seq<u8>> {
    if path.len() > prefix.len() && path.subrange(0, prefix.len() as int) == prefix && is_segment(
        path.skip(prefix.len() as int),
    ) {
        Some(path.skip(prefix.len() as int))
    } else {
        None
    }
}

/// The route of `path`. The path is taken as it stands: no byte of it is
/// decoded, and a trailing slash makes another path.
pub open spec fn spec_match_path(path: Seq<u8>) -> Option<MatchedView> {
    if path == seq![SLASH] {
        Some(MatchedView { route: Route::Main, parameter: None })
    } else if segment_under(path, STATELESS_PREFIX@) is Some {
        Some(
            MatchedView {
                route: Route::Stateless,
                parameter: segment_under(path, STATELESS_PREFIX@),
            },
        )
    } else if segment_under(path, STATEFUL_PREFIX@) is Some {
        Some(
            MatchedView { route: Route::Stateful, parameter: segment_under(path, STATEFUL_PREFIX@) },
        )
    } else {
        None
    }
}

/// Whether `path` begins with `prefix` and goes on after it.
fn continues(path: &[u8], prefix: &[u8]) -> (longer: bool)
    ensures
        longer == (path@.len() > prefix@.len() && path@.subrange(0, prefix@.len() as int)
            == prefix@),
{
    if path.len() <= prefix.len() {
        return false;
    }
    let mut i: usize = 0;
    while i < prefix.len()
        invariant
            i <= prefix.len(),
            prefix.len() < path.len(),
            path@.subrange(0, i as int) == prefix@.subrange(0, i as int),
        decreases prefix.len() - i,
    {
        if path[i] != prefix[i] {
            assert(path@.subrange(0, prefix@.len() as int)[i as int] != prefix@[i as int]);
            return false;
        }
        i += 1;
        assert(path@.subrange(0, i as int) =~= path@.subrange(0, i - 1).push(path@[i - 1]));
        assert(prefix@.subrange(0, i as int) =~= prefix@.subrange(0, i - 1).push(prefix@[i - 1]));
    }
    assert(prefix@.subrange(0, prefix@.len() as int) =~= prefix@);
    true
}

/// Whether the bytes of `path` from `from` on are one segment.
fn one_segment_from(path: &[u8], from: usize) -> (single: bool)
    requires
        from <= path.len(),
    ensures
        single == is_segment(path@.skip(from as int)),
{
    if from == path.len() {
        return false;
    }
    let ghost rest = path@.skip(from as int);
    let mut i: usize = from;
    while i < path.len()
        invariant
            from <= i <= path.len(),
            rest == path@.skip(from as int),
            forall|j: int| 0 <= j < i - from ==> rest[j] != SLASH,
        decreases path.len() - i,
    {
        if path[i] == SLASH {
            assert(rest[i - from] == SLASH);
            return false;
        }
        i += 1;
    }
    true
}

/// The segment that follows `prefix` in `path`, if `path` is `prefix` and
/// then exactly one segment.
pub fn segment_after(path: &[u8], prefix: &[u8]) -> (segment: Option<Vec<u8>>)
    ensures
        optional_bytes(segment) == segment_under(path@, prefix@),
{
    if !continues(path, prefix) {
        return None;
    }
    if !one_segment_from(path, prefix.len()) {
        return None;
    }
    let mut segment: Vec<u8> = Vec::new();
    let mut i: usize = prefix.len();
    while i < path.len()
        invariant
            prefix.len() <= i <= path.len(),
            segment@ == path@.subrange(prefix.len() as int, i as int),
        decreases path.len() - i,
    {
        segment.push(path[i]);
        i += 1;
        assert(segment@ =~= path@.subrange(prefix.len() as int, i as int));
    }
    assert(path@.subrange(prefix.len() as int, path.len() as int) =~= path@.skip(
        prefix.len() as int,
    ));
    Some(segment)
}

/// Finds the route of `path`.
pub fn match_path(path: &[u8]) -> (matched: Option<Matched>)
    ensures
        optional_match(matched) == spec_match_path(path@),
{
    if path.len() == 1 && path[0] == SLASH {
        assert(path@ =~= seq![SLASH]);
        return Some(Matched { route: Route::Main, parameter: None });
    }
    assert(path@ != seq![SLASH]) by {
        if path@ == seq![SLASH] {
            assert(seq![SLASH].len() == 1);
            assert(seq![SLASH][0] == SLASH);
        }
    }
    let stateless = STATELESS_PREFIX;
    match segment_after(path, stateless.as_slice()) {
        Some(segment) => {
            return Some(Matched { route: Route::Stateless, parameter: Some(segment) });
        },
        None => {},
    }
    let stateful = STATEFUL_PREFIX;
    match segment_after(path, stateful.as_slice()) {
        Some(segment) => Some(Matched { route: Route::Stateful, parameter: Some(segment) }),
        None => None,
    }
}

/// No path has two routes: the three shapes exclude one another.
pub proof fn lemma_routes_are_disjoint(path: Seq<u8>)
    ensures
        path == seq![SLASH] ==> segment_under(path, STATELESS_PREFIX@) is None && segment_under(
            path,
            STATEFUL_PREFIX@,
        ) is None,
        segment_under(path, STATELESS_PREFIX@) is Some ==> segment_under(path, STATEFUL_PREFIX@)
            is None,
{
    if segment_under(path, STATELESS_PREFIX@) is Some && segment_under(path, STATEFUL_PREFIX@)
        is Some {
        assert(path.subrange(0, 11)[6] == STATELESS_PREFIX@[6]);
        assert(path.subrange(0, 10)[6] == STATEFUL_PREFIX@[6]);
    }
}

} // verus!
