use vstd::prelude::*;
use crate::datatype::package::Package;

verus! {

/// Identifies one update request; opaque to the client.
pub type UpdateRequestId = String;

/// The phases one accepted update passes through, in order. An update ends
/// in `Installed` or in `Failed`.
#[derive(Clone, Copy, Debug, PartialEq, Eq, Structural)]
pub enum UpdateState {
    Pending,
    Downloading,
    Installing,
    Installed,
    Failed,
}

impl UpdateState {
    /// Whether nothing follows this phase.
    pub open spec fn terminal(self) -> bool {
        self == UpdateState::Installed || self == UpdateState::Failed
    }

    /// Whether nothing follows this phase.
    pub fn is_terminal(&self) -> (done: bool)
        ensures
            done == self.terminal(),
    {
        match self {
            UpdateState::Installed | UpdateState::Failed => true,
            _ => false,
        }
    }
}

/// An update the backend holds ready for this device.
#[allow(non_snake_case)]
#[derive(Clone, Debug, PartialEq, Eq)]
pub struct PendingUpdateRequest {
    pub requestId: UpdateRequestId,
    pub installPos: i32,
    pub packageId: Package,
    pub createdAt: String,
}

impl PendingUpdateRequest {
    /// A copy that holds the same values.
    pub fn duplicate(&self) -> (copy: PendingUpdateRequest)
        ensures
            copy == *self,
    {
        PendingUpdateRequest {
            requestId: self.requestId.clone(),
            installPos: self.installPos,
            packageId: self.packageId.duplicate(),
            createdAt: self.createdAt.clone(),
        }
    }
}

/// `ordered` with `request` put behind every request that is to be installed
/// no later than it.
pub open spec fn placed(ordered: Seq<PendingUpdateRequest>, request: PendingUpdateRequest) -> Seq<
    PendingUpdateRequest,
>
    decreases ordered.len(),
{
    if ordered.len() == 0 {
        seq![request]
    } else if ordered.last().installPos <= request.installPos {
        ordered.push(request)
    } else {
        placed(ordered.drop_last(), request).push(ordered.last())
    }
}

/// The requests in the order in which they are to be installed: by ascending
/// `installPos`, and as they came where that is equal.
pub open spec fn by_install_pos(requests: Seq<PendingUpdateRequest>) -> Seq<PendingUpdateRequest>
    decreases requests.len(),
{
    if requests.len() == 0 {
        requests
    } else {
        placed(by_install_pos(requests.drop_last()), requests.last())
    }
}

/// Whether each request is to be installed no later than the one behind it.
pub open spec fn ascending(requests: Seq<PendingUpdateRequest>) -> bool {
    forall|i: int, j: int|
        0 <= i <= j < requests.len() ==> requests[i].installPos <= requests[j].installPos
}

/// The requests with install position `pos`, in the order they stand in.
pub open spec fn at_position(requests: Seq<PendingUpdateRequest>, pos: int) -> Seq<
    PendingUpdateRequest,
> {
    requests.filter(|r: PendingUpdateRequest| r.installPos == pos)
}

/// The ids of the requests, in order.
pub open spec fn request_ids(requests: Seq<PendingUpdateRequest>) -> Seq<Seq<char>> {
    requests.map_values(|r: PendingUpdateRequest| r.requestId@)
}

proof fn placed_at(ordered: Seq<PendingUpdateRequest>, request: PendingUpdateRequest, at: int)
    requires
        0 <= at <= ordered.len(),
        forall|j: int| at <= j < ordered.len() ==> ordered[j].installPos > request.installPos,
        at > 0 ==> ordered[at - 1].installPos <= request.installPos,
    ensures
        placed(ordered, request) == ordered.insert(at, request),
    decreases ordered.len(),
{
    if ordered.len() == 0 {
        assert(ordered.insert(at, request) =~= seq![request]);
    } else if ordered.last().installPos <= request.installPos {
        assert(at == ordered.len());
        assert(ordered.insert(at, request) =~= ordered.push(request));
    } else {
        assert(at < ordered.len());
        placed_at(ordered.drop_last(), request, at);
        assert(ordered.insert(at, request) =~= ordered.drop_last().insert(at, request).push(
            ordered.last(),
        ));
    }
}

proof fn placed_facts(ordered: Seq<PendingUpdateRequest>, request: PendingUpdateRequest, pos: int)
    ensures
        placed(ordered, request).len() == ordered.len() + 1,
        ascending(ordered) ==> ascending(placed(ordered, request)),
        at_position(placed(ordered, request), pos) == if request.installPos == pos {
            at_position(ordered, pos).push(request)
        } else {
            at_position(ordered, pos)
        },
        forall|k: int|
            0 <= k < placed(ordered, request).len() ==> #[trigger] placed(ordered, request)[k]
                == request || ordered.contains(placed(ordered, request)[k]),
    decreases ordered.len(),
{
    let keep = |r: PendingUpdateRequest| r.installPos == pos;
    let result = placed(ordered, request);
    if ordered.len() == 0 {
        assert(ordered.filter(keep) =~= Seq::empty());
        assert(result.drop_last() =~= ordered);
        reveal_with_fuel(Seq::filter, 2);
        assert(result.filter(keep) =~= if request.installPos == pos {
            ordered.filter(keep).push(request)
        } else {
            ordered.filter(keep)
        });
    } else if ordered.last().installPos <= request.installPos {
        assert(result.drop_last() =~= ordered);
        reveal_with_fuel(Seq::filter, 2);
        assert forall|k: int| 0 <= k < result.len() implies #[trigger] result[k] == request
            || ordered.contains(result[k]) by {
            if k < ordered.len() {
                assert(ordered[k] == result[k]);
            }
        }
    } else {
        let front = ordered.drop_last();
        placed_facts(front, request, pos);
        let inner = placed(front, request);
        assert(result.drop_last() =~= inner);
        assert(front.push(ordered.last()) =~= ordered);
        reveal_with_fuel(Seq::filter, 2);
        assert(ordered.filter(keep) == if keep(ordered.last()) {
            front.filter(keep).push(ordered.last())
        } else {
            front.filter(keep)
        });
        assert(result.filter(keep) =~= if request.installPos == pos {
            ordered.filter(keep).push(request)
        } else {
            ordered.filter(keep)
        });
        assert forall|k: int| 0 <= k < result.len() implies #[trigger] result[k] == request
            || ordered.contains(result[k]) by {
            if k < inner.len() {
                assert(result[k] == inner[k]);
                if inner[k] != request {
                    let w = choose|w: int| 0 <= w < front.len() && front[w] == inner[k];
                    assert(ordered[w] == inner[k]);
                }
            } else {
                assert(result[k] == ordered[ordered.len() - 1]);
            }
        }
        if ascending(ordered) {
            assert(ascending(front)) by {
                assert forall|i: int, j: int| 0 <= i <= j < front.len() implies front[i].installPos
                    <= front[j].installPos by {
                    assert(front[i] == ordered[i] && front[j] == ordered[j]);
                }
            }
            assert forall|i: int, j: int| 0 <= i <= j < result.len() implies result[i].installPos
                <= result[j].installPos by {
                if j < inner.len() {
                    assert(result[i] == inner[i] && result[j] == inner[j]);
                } else if i < inner.len() {
                    assert(result[i] == inner[i]);
                    if inner[i] != request {
                        let w = choose|w: int| 0 <= w < front.len() && front[w] == inner[i];
                        assert(ordered[w] == inner[i]);
                    }
                }
            }
        }
    }
}

/// Ordering by install position gives a run that ascends, is as long as the
/// one it came from, and keeps requests of equal position in the order in
/// which they came: nothing is lost, added or overtaken by its equal.
pub proof fn install_order_is_stable(requests: Seq<PendingUpdateRequest>, pos: int)
    ensures
        ascending(by_install_pos(requests)),
        by_install_pos(requests).len() == requests.len(),
        at_position(by_install_pos(requests), pos) == at_position(requests, pos),
    decreases requests.len(),
{
    let keep = |r: PendingUpdateRequest| r.installPos == pos;
    if requests.len() == 0 {
    } else {
        let front = requests.drop_last();
        install_order_is_stable(front, pos);
        placed_facts(by_install_pos(front), requests.last(), pos);
        assert(front.push(requests.last()) =~= requests);
        reveal_with_fuel(Seq::filter, 2);
        assert(requests.filter(keep) == if keep(requests.last()) {
            front.filter(keep).push(requests.last())
        } else {
            front.filter(keep)
        });
    }
}

/// Orders the requests for installation: by ascending `installPos`, and as
/// they came where that is equal.
pub fn sort_by_install_pos(requests: &Vec<PendingUpdateRequest>) -> (ordered: Vec<
    PendingUpdateRequest,
>)
    ensures
        ordered@ == by_install_pos(requests@),
{
    let mut ordered: Vec<PendingUpdateRequest> = Vec::new();
    let mut i: usize = 0;
    while i < requests.len()
        invariant
            i <= requests.len(),
            ordered@ == by_install_pos(requests@.subrange(0, i as int)),
            ordered@.len() == i,
        decreases requests.len() - i,
    {
        let request = requests[i].duplicate();
        let mut at: usize = ordered.len();
        while at > 0 && ordered[at - 1].installPos > request.installPos
            invariant
                at <= ordered.len(),
                forall|j: int| at <= j < ordered.len() ==> ordered[j].installPos > request.installPos,
            decreases at,
        {
            at = at - 1;
        }
        proof {
            placed_at(ordered@, request, at as int);
            let next = requests@.subrange(0, i + 1);
            assert(next.drop_last() =~= requests@.subrange(0, i as int));
            assert(next.last() == request);
        }
        ordered.insert(at, request);
        i = i + 1;
    }
    assert(requests@.subrange(0, i as int) =~= requests@);
    ordered
}

/// Copies of the requests, in order.
pub fn duplicate_all(requests: &Vec<PendingUpdateRequest>) -> (copies: Vec<PendingUpdateRequest>)
    ensures
        copies@ == requests@,
{
    let mut copies: Vec<PendingUpdateRequest> = Vec::new();
    let mut i: usize = 0;
    while i < requests.len()
        invariant
            i <= requests.len(),
            copies@ == requests@.subrange(0, i as int),
        decreases requests.len() - i,
    {
        copies.push(requests[i].duplicate());
        assert(copies@ =~= requests@.subrange(0, i + 1));
        i = i + 1;
    }
    assert(copies@ =~= requests@);
    copies
}

/// The texts of a run of strings, in order.
pub open spec fn texts(strings: Seq<String>) -> Seq<Seq<char>> {
    strings.map_values(|s: String| s@)
}

/// The ids of the requests, in order.
pub fn ids_of(requests: &Vec<PendingUpdateRequest>) -> (ids: Vec<UpdateRequestId>)
    ensures
        texts(ids@) == request_ids(requests@),
{
    let mut ids: Vec<UpdateRequestId> = Vec::new();
    let mut i: usize = 0;
    while i < requests.len()
        invariant
            i <= requests.len(),
            ids@.len() == i,
            forall|j: int| 0 <= j < i ==> ids@[j]@ == requests@[j].requestId@,
        decreases requests.len() - i,
    {
        ids.push(requests[i].requestId.clone());
        i = i + 1;
    }
    assert(texts(ids@) =~= request_ids(requests@));
    ids
}

} // verus!
