use vstd::prelude::*;

verus! {

/// A unit with a start/stop lifecycle (a test database, a message broker),
/// addressed by a name.
///
/// What `start` and `stop` do to a service is the implementor's own affair;
/// the two relations `start_step` and `stop_step` describe it, and the
/// lifecycle functions of this crate are specified in terms of them.
pub trait Service: Sized {
    /// The name under which this service is controlled.
    spec fn spec_name(&self) -> Seq<char>;

    /// `next` is a state that `start` may leave behind when called on `self`.
    spec fn start_step(&self, next: &Self) -> bool;

    /// `next` is a state that `stop` may leave behind when called on `self`.
    spec fn stop_step(&self, next: &Self) -> bool;

    /// The name of this service; the same on every call.
    fn name(&self) -> (r: &str)
        ensures
            r@ == self.spec_name(),
    ;

    /// Starts the service.
    fn start(&mut self)
        ensures
            old(self).start_step(final(self)),
            final(self).spec_name() == old(self).spec_name(),
    ;

    /// Stops the service.
    fn stop(&mut self)
        ensures
            old(self).stop_step(final(self)),
            final(self).spec_name() == old(self).spec_name(),
    ;

    /// Restarts the service: fully stopped, then fully started.
    fn restart(&mut self)
        ensures
            exists|middle: Self|
                #[trigger] old(self).stop_step(&middle) && middle.start_step(final(self)),
            final(self).spec_name() == old(self).spec_name(),
    {
        let ghost before = *self;
        self.stop();
        let ghost middle = *self;
        self.start();
        assert(before.stop_step(&middle) && middle.start_step(self));
    }
}

/// `after` is reachable from `before` by a stop followed by a start.
pub open spec fn restart_step<S: Service>(before: S, after: S) -> bool {
    exists|middle: S| #[trigger] before.stop_step(&middle) && middle.start_step(&after)
}

} // verus!
