use vstd::prelude::*;
use crate::counter::Counter;
use crate::registry::{addressed, applied, restart_step, Action};
use crate::service::Service;

verus! {

/// An operation addressed to a name leaves every entry of another name
/// exactly as it was.
pub proof fn lemma_other_names_untouched<S: Service>(
    before: Seq<S>,
    after: Seq<S>,
    name: Seq<char>,
    action: Action,
)
    requires
        applied(before, after, Some(name), action),
    ensures
        forall|i: int|
            0 <= i < before.len() && #[trigger] before[i].spec_name() != name ==> after[i] == before[i],
{
    assert forall|i: int|
        0 <= i < before.len() && #[trigger] before[i].spec_name() != name implies after[i] == before[i] by {
        assert(!addressed(before[i], Some(name)));
    }
}

/// Restarting counters by name leaves every count as it was.
pub proof fn lemma_restart_keeps_counts(before: Seq<Counter>, after: Seq<Counter>, name: Seq<char>)
    requires
        applied(before, after, Some(name), Action::Restart),
    ensures
        forall|i: int| 0 <= i < before.len() ==> #[trigger] after[i].spec_count() == before[i].spec_count(),
{
    assert forall|i: int| 0 <= i < before.len() implies #[trigger] after[i].spec_count() == before[i].spec_count() by {
        assert(addressed(before[i], Some(name)) ==> restart_step(before[i], after[i]));
    }
}

/// The count of `c` after two stops addressed to `name`.
pub open spec fn twice_stopped(c: Counter, name: Seq<char>) -> i64 {
    if c.spec_name() == name {
        c.spec_count().wrapping_sub(1).wrapping_sub(1)
    } else {
        c.spec_count()
    }
}

/// Stopping counters by name twice in a row is no error and takes two from
/// each count of that name, even below zero; other counts stay as they were.
pub proof fn lemma_stop_twice_counts(
    before: Seq<Counter>,
    middle: Seq<Counter>,
    after: Seq<Counter>,
    name: Seq<char>,
)
    requires
        applied(before, middle, Some(name), Action::Stop),
        applied(middle, after, Some(name), Action::Stop),
    ensures
        after.len() == before.len(),
        forall|i: int|
            0 <= i < before.len() ==> #[trigger] after[i].spec_count() == twice_stopped(before[i], name),
{
    assert forall|i: int|
        0 <= i < before.len() implies #[trigger] after[i].spec_count() == twice_stopped(before[i], name) by {
        assert(middle[i].spec_name() == before[i].spec_name());
        assert(addressed(before[i], Some(name)) == (before[i].spec_name() == name));
        assert(addressed(middle[i], Some(name)) == (before[i].spec_name() == name));
    }
}

/// Starting every counter at load adds one to each count: a counter that
/// was never started is then at one.
pub proof fn lemma_load_counts(before: Seq<Counter>, after: Seq<Counter>)
    requires
        applied(before, after, None, Action::Start),
    ensures
        forall|i: int|
            0 <= i < before.len() ==> #[trigger] after[i].spec_count() == before[i].spec_count().wrapping_add(1),
        forall|i: int|
            0 <= i < before.len() && before[i].spec_count() == 0 ==> #[trigger] after[i].spec_count() == 1,
{
    assert forall|i: int| 0 <= i < before.len() implies #[trigger] after[i].spec_count() == before[i].spec_count().wrapping_add(1) by {
        assert(addressed(before[i], None));
    }
}

/// Stopping every counter at unload takes one from each count, whatever was
/// done to it before: a counter started once more than it was stopped is
/// brought back to zero.
pub proof fn lemma_unload_counts(before: Seq<Counter>, after: Seq<Counter>)
    requires
        applied(before, after, None, Action::Stop),
    ensures
        forall|i: int|
            0 <= i < before.len() ==> #[trigger] after[i].spec_count() == before[i].spec_count().wrapping_sub(1),
        forall|i: int|
            0 <= i < before.len() && before[i].spec_count() == 1 ==> #[trigger] after[i].spec_count() == 0,
{
    assert forall|i: int| 0 <= i < before.len() implies #[trigger] after[i].spec_count() == before[i].spec_count().wrapping_sub(1) by {
        assert(addressed(before[i], None));
    }
}

} // verus!
