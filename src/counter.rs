use vstd::prelude::*;
use crate::service::Service;

verus! {

/// A service whose whole state is a signed count: `start` adds one and `stop`
/// takes one away, wrapping at the bounds of `i64`. A count above zero means
/// more starts than stops.
pub struct Counter {
    name: String,
    count: i64,
}

impl Counter {
    /// The current count.
    pub closed spec fn spec_count(&self) -> i64 {
        self.count
    }

    /// A counter named `name`, at zero.
    pub fn new(name: &str) -> (r: Counter)
        ensures
            r.spec_name() == name@,
            r.spec_count() == 0,
    {
        Counter { name: name.to_owned(), count: 0 }
    }

    /// The current count.
    pub fn count(&self) -> (r: i64)
        ensures
            r == self.spec_count(),
    {
        self.count
    }
}

impl Service for Counter {
    closed spec fn spec_name(&self) -> Seq<char> {
        self.name@
    }

    open spec fn start_step(&self, next: &Self) -> bool {
        next.spec_name() == self.spec_name() && next.spec_count() == self.spec_count().wrapping_add(1)
    }

    open spec fn stop_step(&self, next: &Self) -> bool {
        next.spec_name() == self.spec_name() && next.spec_count() == self.spec_count().wrapping_sub(1)
    }

    fn name(&self) -> (r: &str) {
        self.name.as_str()
    }

    fn start(&mut self) {
        self.count = self.count.wrapping_add(1);
    }

    fn stop(&mut self) {
        self.count = self.count.wrapping_sub(1);
    }
}

} // verus!
