//! The services that the peer may call, by name.

use vstd::prelude::*;
use vstd::string::{StrSliceExecFns, StringExecFns};

verus! {

/// A service that the client offers to the backend.
#[derive(Clone, Copy, Debug, PartialEq, Eq)]
pub enum Service {
    /// Updates are pending.
    Notify,
    /// The transfer of a package begins.
    Start,
    /// One chunk of a package.
    Chunk,
    /// The transfer of a package is over.
    Finish,
    /// The backend asks what is installed.
    Report,
    /// The transfer of a package is given up.
    Abort,
}

/// What follows the last `/` of a name; the whole name where it has none.
pub open spec fn last_segment(name: Seq<char>) -> Seq<char>
    decreases name.len(),
{
    if name.len() == 0 || name.last() == '/' {
        Seq::empty()
    } else {
        last_segment(name.drop_last()).push(name.last())
    }
}

/// The service that goes by the short name `segment`.
pub open spec fn service_named(segment: Seq<char>) -> Option<Service> {
    if segment == "notify"@ {
        Some(Service::Notify)
    } else if segment == "start"@ {
        Some(Service::Start)
    } else if segment == "chunk"@ {
        Some(Service::Chunk)
    } else if segment == "finish"@ {
        Some(Service::Finish)
    } else if segment == "report"@ {
        Some(Service::Report)
    } else if segment == "abort"@ {
        Some(Service::Abort)
    } else {
        None
    }
}

/// The last segment of a name begins behind its last `/`.
pub proof fn last_segment_begins_behind_the_last_slash(name: Seq<char>, from: int)
    requires
        0 <= from <= name.len(),
        from == 0 || name[from - 1] == '/',
        forall|j: int| from <= j < name.len() ==> name[j] != '/',
    ensures
        last_segment(name) == name.subrange(from, name.len() as int),
    decreases name.len() - from,
{
    if from == name.len() {
        assert(name.subrange(from, name.len() as int) =~= Seq::<char>::empty());
    } else {
        let front = name.drop_last();
        last_segment_begins_behind_the_last_slash(front, from);
        assert(front.subrange(from, front.len() as int).push(name.last()) =~= name.subrange(
            from,
            name.len() as int,
        ));
    }
}

fn segment_of(name: &str) -> (segment: String)
    ensures
        segment@ == last_segment(name@),
{
    let len: usize = name.unicode_len();
    let mut from: usize = len;
    while from > 0 && name.get_char(from - 1) != '/'
        invariant
            from <= len,
            len == name@.len(),
            forall|j: int| from <= j < len ==> name@[j] != '/',
        decreases from,
    {
        from = from - 1;
    }
    proof {
        last_segment_begins_behind_the_last_slash(name@, from as int);
    }
    String::from_str(name.substring_char(from, len))
}

/// The service that a name stands for. A name is told by its last segment, so
/// that `start` and `some.org/device/start` both begin a transfer. A name
/// that ends otherwise stands for no service.
pub fn service_of(name: &str) -> (service: Option<Service>)
    ensures
        service == service_named(last_segment(name@)),
{
    let segment = segment_of(name);
    if segment == String::from_str("notify") {
        Some(Service::Notify)
    } else if segment == String::from_str("start") {
        Some(Service::Start)
    } else if segment == String::from_str("chunk") {
        Some(Service::Chunk)
    } else if segment == String::from_str("finish") {
        Some(Service::Finish)
    } else if segment == String::from_str("report") {
        Some(Service::Report)
    } else if segment == String::from_str("abort") {
        Some(Service::Abort)
    } else {
        None
    }
}

} // verus!
