use vstd::prelude::*;
use crate::service::Service;

verus! {

/// The ordered, fixed collection of all services of a program.
///
/// It is assembled once, from the services given to `new`, and never gains
/// or loses an entry afterwards: the lifecycle functions change the services
/// it holds, never their number or order. Several entries may share a name.
pub struct Registry<S> {
    services: Vec<S>,
}

impl<S> View for Registry<S> {
    type V = Seq<S>;

    closed spec fn view(&self) -> Seq<S> {
        self.services@
    }
}

impl<S: Service> Registry<S> {
    /// The registry of `services`, in the order given.
    pub fn new(services: Vec<S>) -> (r: Registry<S>)
        ensures
            r@ == services@,
    {
        Registry { services }
    }

    /// The number of entries.
    pub fn len(&self) -> (r: usize)
        ensures
            r == self@.len(),
    {
        self.services.len()
    }

    /// The entry at position `i`.
    pub fn entry(&self, i: usize) -> (r: &S)
        requires
            i < self@.len(),
        ensures
            *r == self@[i as int],
    {
        &self.services[i]
    }
}

/// An operation of the lifecycle of one service.
pub enum Action {
    Start,
    Stop,
    Restart,
}

/// `after` is reachable from `before` by a stop followed by a start.
pub open spec fn restart_step<S: Service>(before: S, after: S) -> bool {
    exists|middle: S| #[trigger] before.stop_step(&middle) && middle.start_step(&after)
}

/// `after` is a state that `action` may leave behind when taken on `before`.
pub open spec fn takes_step<S: Service>(before: S, action: Action, after: S) -> bool {
    match action {
        Action::Start => before.start_step(&after),
        Action::Stop => before.stop_step(&after),
        Action::Restart => restart_step(before, after),
    }
}

/// Whether the entry `s` is addressed by `name`: every entry by `None`, the
/// entries of that name by `Some`.
pub open spec fn addressed<S: Service>(s: S, name: Option<Seq<char>>) -> bool {
    match name {
        Some(n) => s.spec_name() == n,
        None => true,
    }
}

/// `after` is `before` with `action` taken once on each entry addressed by
/// `name`, and every other entry left as it was.
pub open spec fn applied<S: Service>(
    before: Seq<S>,
    after: Seq<S>,
    name: Option<Seq<char>>,
    action: Action,
) -> bool {
    &&& after.len() == before.len()
    &&& forall|i: int|
        0 <= i < before.len() ==> #[trigger] after[i].spec_name() == before[i].spec_name()
    &&& forall|i: int|
        0 <= i < before.len() ==> if addressed(#[trigger] before[i], name) {
            takes_step(before[i], action, after[i])
        } else {
            after[i] == before[i]
        }
}

/// Whether two names are the same, character for character.
fn same_name(a: &str, b: &str) -> (r: bool)
    ensures
        r == (a@ == b@),
{
    let n: usize = a.unicode_len();
    if n != b.unicode_len() {
        return false;
    }
    let mut i: usize = 0;
    while i < n
        invariant
            n == a@.len(),
            n == b@.len(),
            i <= n,
            forall|j: int| 0 <= j < i ==> a@[j] == b@[j],
        decreases n - i,
    {
        if a.get_char(i) != b.get_char(i) {
            return false;
        }
        i += 1;
    }
    assert(a@ =~= b@);
    true
}

/// The characters of an optional name.
spec fn name_view(name: Option<&str>) -> Option<Seq<char>> {
    match name {
        Some(n) => Some(n@),
        None => None,
    }
}

/// Takes `action` on each entry addressed by `name`, one at a time, in
/// registry order.
fn act<S: Service>(registry: &mut Registry<S>, name: Option<&str>, action: Action)
    ensures
        applied(old(registry)@, final(registry)@, name_view(name), action),
{
    let ghost before = registry@;
    let n: usize = registry.services.len();
    let mut i: usize = 0;
    while i < n
        invariant
            before == old(registry)@,
            n == before.len(),
            registry@.len() == n,
            i <= n,
            forall|j: int| 0 <= j < n ==> #[trigger] registry@[j].spec_name() == before[j].spec_name(),
            forall|j: int| 0 <= j < i ==> if addressed(#[trigger] before[j], name_view(name)) {
                takes_step(before[j], action, registry@[j])
            } else {
                registry@[j] == before[j]
            },
            forall|j: int| i <= j < n ==> #[trigger] registry@[j] == before[j],
        decreases n - i,
    {
        let chosen = match name {
            Some(wanted_name) => same_name(registry.services[i].name(), wanted_name),
            None => true,
        };
        if chosen {
            match action {
                Action::Start => registry.services[i].start(),
                Action::Stop => registry.services[i].stop(),
                Action::Restart => registry.services[i].restart(),
            }
        }
        i += 1;
    }
}

/// Starts every service named `name`, in registry order. No service of that
/// name is no error: nothing changes.
pub fn start<S: Service>(registry: &mut Registry<S>, name: &str)
    ensures
        applied(old(registry)@, final(registry)@, Some(name@), Action::Start),
{
    act(registry, Some(name), Action::Start)
}

/// Stops every service named `name`, in registry order. No service of that
/// name is no error: nothing changes.
pub fn stop<S: Service>(registry: &mut Registry<S>, name: &str)
    ensures
        applied(old(registry)@, final(registry)@, Some(name@), Action::Stop),
{
    act(registry, Some(name), Action::Stop)
}

/// Restarts every service named `name`, in registry order: each one is
/// stopped and started again before the next is touched. No service of that
/// name is no error: nothing changes.
pub fn restart<S: Service>(registry: &mut Registry<S>, name: &str)
    ensures
        applied(old(registry)@, final(registry)@, Some(name@), Action::Restart),
{
    act(registry, Some(name), Action::Restart)
}

/// Brings the program's services up: starts every entry once, in registry
/// order, before the program's own logic runs.
pub fn init<S: Service>(registry: &mut Registry<S>)
    ensures
        applied(old(registry)@, final(registry)@, None, Action::Start),
{
    act(registry, None, Action::Start)
}

/// Takes the program's services down: stops every entry once, in registry
/// order, after the program's own logic has ended, whatever was done to them
/// by name before.
pub fn deinit<S: Service>(registry: &mut Registry<S>)
    ensures
        applied(old(registry)@, final(registry)@, None, Action::Stop),
{
    act(registry, None, Action::Stop)
}

} // verus!
