//! The data exchanged with the Oxide API.

use vstd::prelude::*;

verus! {

/// The largest distance from the Unix epoch, in seconds, that a
/// [`Timestamp`] can have.
pub const MAX_EPOCH_SECONDS: i64 = 4_000_000_000_000_000;

/// A point in time: seconds and nanoseconds since the Unix epoch.
#[derive(Clone, Copy, Debug)]
pub struct Timestamp {
    secs: i64,
    nanos: u32,
}

/// The whole seconds from the instant `(secs_b, nanos_b)` to the instant
/// `(secs_a, nanos_a)`, rounded toward zero.
pub open spec fn whole_seconds(secs_a: int, nanos_a: int, secs_b: int, nanos_b: int) -> int {
    let d = secs_a - secs_b;
    let n = nanos_a - nanos_b;
    if d > 0 && n < 0 {
        d - 1
    } else if d < 0 && n > 0 {
        d + 1
    } else {
        d
    }
}

impl Timestamp {
    #[verifier::type_invariant]
    spec fn in_range(&self) -> bool {
        -MAX_EPOCH_SECONDS <= self.secs <= MAX_EPOCH_SECONDS && self.nanos < 1_000_000_000
    }

    /// Seconds since the Unix epoch.
    pub closed spec fn secs(&self) -> int {
        self.secs as int
    }

    /// Nanoseconds after the last whole second.
    pub closed spec fn nanos(&self) -> int {
        self.nanos as int
    }

    /// The whole seconds from `earlier` to `self`, rounded toward zero;
    /// negative where `self` is the earlier one.
    pub open spec fn spec_seconds_since(&self, earlier: &Timestamp) -> int {
        whole_seconds(self.secs(), self.nanos(), earlier.secs(), earlier.nanos())
    }

    /// The instant `nanos` nanoseconds after `secs` seconds since the Unix
    /// epoch, if it is at most `MAX_EPOCH_SECONDS` seconds away from the
    /// epoch and `nanos` is less than a second.
    pub fn new(secs: i64, nanos: u32) -> (r: Option<Timestamp>)
        ensures
            r is Some <==> -MAX_EPOCH_SECONDS <= secs <= MAX_EPOCH_SECONDS && nanos
                < 1_000_000_000,
            r matches Some(t) ==> t.secs() == secs && t.nanos() == nanos,
    {
        if -MAX_EPOCH_SECONDS <= secs && secs <= MAX_EPOCH_SECONDS && nanos < 1_000_000_000 {
            Some(Timestamp { secs, nanos })
        } else {
            None
        }
    }

    /// Seconds since the Unix epoch.
    pub fn epoch_seconds(&self) -> (s: i64)
        ensures
            s == self.secs(),
            -MAX_EPOCH_SECONDS <= s <= MAX_EPOCH_SECONDS,
    {
        proof {
            use_type_invariant(self);
        }
        self.secs
    }

    /// Nanoseconds after the last whole second.
    pub fn subsec_nanos(&self) -> (n: u32)
        ensures
            n == self.nanos(),
            n < 1_000_000_000,
    {
        proof {
            use_type_invariant(self);
        }
        self.nanos
    }

    /// The whole seconds from `earlier` to `self`.
    pub fn seconds_since(&self, earlier: &Timestamp) -> (s: i64)
        ensures
            s == self.spec_seconds_since(earlier),
            -2 * MAX_EPOCH_SECONDS <= s <= 2 * MAX_EPOCH_SECONDS,
    {
        proof {
            use_type_invariant(self);
            use_type_invariant(earlier);
        }
        let d: i64 = self.secs - earlier.secs;
        if d > 0 && self.nanos < earlier.nanos {
            d - 1
        } else if d < 0 && self.nanos > earlier.nanos {
            d + 1
        } else {
            d
        }
    }
}

/// An organization as the API describes it.
#[derive(Clone, Debug)]
pub struct Organization {
    pub id: String,
    pub name: String,
    pub description: String,
    pub time_created: Option<Timestamp>,
    pub time_modified: Option<Timestamp>,
}

/// A request to the API.
#[derive(Debug)]
pub enum Request {
    /// Create the organization `name`.
    Create { name: String, description: String },
    /// Delete the organization `name`.
    Delete { name: String },
    /// Give the organization `organization` a new name and description.
    Update { organization: String, name: String, description: String },
    /// One page of at most `limit` organizations, by ascending name.
    ListPage { limit: u32 },
    /// All organizations, by ascending name.
    ListAll,
    /// The organization `name`.
    View { name: String },
}

/// The characters of a [`Request`].
pub enum RequestView {
    Create { name: Seq<char>, description: Seq<char> },
    Delete { name: Seq<char> },
    Update { organization: Seq<char>, name: Seq<char>, description: Seq<char> },
    ListPage { limit: u32 },
    ListAll,
    View { name: Seq<char> },
}

impl View for Request {
    type V = RequestView;

    open spec fn view(&self) -> RequestView {
        match self {
            Request::Create { name, description } => RequestView::Create {
                name: name@,
                description: description@,
            },
            Request::Delete { name } => RequestView::Delete { name: name@ },
            Request::Update { organization, name, description } => RequestView::Update {
                organization: organization@,
                name: name@,
                description: description@,
            },
            Request::ListPage { limit } => RequestView::ListPage { limit: *limit },
            Request::ListAll => RequestView::ListAll,
            Request::View { name } => RequestView::View { name: name@ },
        }
    }
}

} // verus!
