//! The task repository: what the store's answers amount to.
//!
//! The store is iterated one document at a time, and each step may fail.
//! A listing is all or nothing: the first failure fails the whole call, and
//! no partial list is ever handed out.

use crate::task::{task_views, Task, TaskView};
use vstd::prelude::*;

verus! {

/// The database that holds the tasks.
pub const DATABASE_NAME: &'static str = "todo_db";

/// The collection that holds the tasks.
pub const COLLECTION_NAME: &'static str = "todos";

/// A failure that comes from the store.
#[derive(Clone, Copy, Debug, PartialEq, Eq, Structural)]
pub enum StorageError {
    /// The store could not be reached.
    Connection,
    /// The store refused or failed the read or write.
    Query,
}

/// What one step of an iteration gave, as contracts speak of it.
pub type ItemView = Result<TaskView, StorageError>;

/// What the store gave for one document, as contracts speak of it.
pub open spec fn item_view(item: Result<Task, StorageError>) -> ItemView {
    match item {
        Ok(task) => Ok(task@),
        Err(e) => Err(e),
    }
}

/// The outcome of a listing, as contracts speak of it.
pub open spec fn outcome_view(outcome: Result<Vec<Task>, StorageError>) -> Result<
    Seq<TaskView>,
    StorageError,
> {
    match outcome {
        Ok(tasks) => Ok(task_views(tasks@)),
        Err(e) => Err(e),
    }
}

/// Whether every step of an iteration gave a document.
pub open spec fn all_given(items: Seq<ItemView>) -> bool {
    forall|i: int| 0 <= i < items.len() ==> (#[trigger] items[i]).is_ok()
}

/// Whether the iteration first failed at step `at`.
pub open spec fn first_failure_at(items: Seq<ItemView>, at: int) -> bool {
    &&& 0 <= at < items.len()
    &&& items[at].is_err()
    &&& forall|i: int| 0 <= i < at ==> (#[trigger] items[i]).is_ok()
}

/// The documents of an iteration in which no step failed.
pub open spec fn documents(items: Seq<ItemView>) -> Seq<TaskView> {
    Seq::new(items.len(), |i: int| items[i]->Ok_0)
}

/// What listing amounts to, given what each step of the iteration gave:
/// every document in order if no step failed, else the first failure.
pub open spec fn list_all_of(items: Seq<ItemView>) -> Result<Seq<TaskView>, StorageError> {
    if all_given(items) {
        Ok(documents(items))
    } else {
        let at = choose|at: int| first_failure_at(items, at);
        Err(items[at]->Err_0)
    }
}

/// An iteration in which some step failed has a first step that failed.
pub proof fn failure_has_a_first(items: Seq<ItemView>)
    requires
        !all_given(items),
    ensures
        exists|at: int| first_failure_at(items, at),
    decreases items.len(),
{
    if items.len() > 0 {
        let front = items.drop_last();
        assert(forall|i: int| 0 <= i < front.len() ==> front[i] == items[i]);
        if all_given(front) {
            assert(first_failure_at(items, items.len() - 1));
        } else {
            failure_has_a_first(front);
            let at = choose|at: int| first_failure_at(front, at);
            assert(first_failure_at(items, at));
        }
    }
}

/// An iteration has at most one first failure.
pub proof fn first_failure_is_unique(items: Seq<ItemView>, a: int, b: int)
    requires
        first_failure_at(items, a),
        first_failure_at(items, b),
    ensures
        a == b,
{
    if a < b {
        assert(items[a].is_ok());
    } else if b < a {
        assert(items[b].is_ok());
    }
}

/// A listing hands out every document of the iteration, in order, or none
/// at all; and where it hands out none, its failure is the first that the
/// iteration met.
pub proof fn listing_is_all_or_nothing(items: Seq<ItemView>)
    ensures
        match list_all_of(items) {
            Ok(tasks) => all_given(items) && tasks.len() == items.len() && forall|i: int|
                0 <= i < items.len() ==> items[i] == Ok::<TaskView, StorageError>(#[trigger] tasks[i]),
            Err(e) => exists|at: int|
                first_failure_at(items, at) && items[at] == Err::<TaskView, StorageError>(e),
        },
{
    if !all_given(items) {
        failure_has_a_first(items);
        let at = choose|at: int| first_failure_at(items, at);
        assert(first_failure_at(items, at) && items[at] == Err::<TaskView, StorageError>(
            items[at]->Err_0,
        ));
    }
}

/// One more step of an iteration: a listing that has failed stays as it is;
/// one that has not gains the document, or fails with the step's failure.
pub proof fn listing_after_one_more_step(items: Seq<ItemView>, item: ItemView)
    ensures
        list_all_of(items.push(item)) == match list_all_of(items) {
            Err(e) => Err::<Seq<TaskView>, StorageError>(e),
            Ok(tasks) => match item {
                Ok(task) => Ok(tasks.push(task)),
                Err(e) => Err(e),
            },
        },
{
    let longer = items.push(item);
    assert(forall|i: int| 0 <= i < items.len() ==> items[i] == longer[i]);
    if all_given(items) {
        if item.is_ok() {
            assert(all_given(longer));
            assert(documents(longer) =~= documents(items).push(item->Ok_0));
        } else {
            assert(longer[items.len() as int].is_err());
            assert(first_failure_at(longer, items.len() as int));
            first_failure_is_unique(
                longer,
                choose|at: int| first_failure_at(longer, at),
                items.len() as int,
            );
        }
    } else {
        failure_has_a_first(items);
        let at = choose|at: int| first_failure_at(items, at);
        assert(longer[at].is_err());
        assert(first_failure_at(longer, at));
        first_failure_is_unique(longer, choose|k: int| first_failure_at(longer, k), at);
    }
}

/// A listing in progress. It remembers what every step gave, and holds the
/// documents so far or the failure that ended it.
pub struct Listing {
    gathered: Result<Vec<Task>, StorageError>,
    steps: Ghost<Seq<ItemView>>,
}

impl Listing {
    #[verifier::type_invariant]
    spec fn gathered_is_the_listing_of_the_steps(&self) -> bool {
        outcome_view(self.gathered) == list_all_of(self.steps@)
    }

    /// What each step recorded so far gave, in order.
    pub closed spec fn steps(&self) -> Seq<ItemView> {
        self.steps@
    }

    /// A listing before the first step.
    pub fn begin() -> (listing: Listing)
        ensures
            listing.steps() == Seq::<ItemView>::empty(),
    {
        let tasks: Vec<Task> = Vec::new();
        proof {
            let none = Seq::<ItemView>::empty();
            assert(all_given(none));
            assert(documents(none) =~= task_views(tasks@));
        }
        Listing { gathered: Ok(tasks), steps: Ghost(Seq::empty()) }
    }

    /// Takes in what one step of the iteration gave.
    pub fn record(self, item: Result<Task, StorageError>) -> (next: Listing)
        ensures
            next.steps() == self.steps().push(item_view(item)),
    {
        proof {
            use_type_invariant(&self);
            listing_after_one_more_step(self.steps@, item_view(item));
        }
        let ghost steps = self.steps@.push(item_view(item));
        match self.gathered {
            Err(e) => Listing { gathered: Err(e), steps: Ghost(steps) },
            Ok(mut tasks) => match item {
                Ok(task) => {
                    let ghost before = tasks@;
                    tasks.push(task);
                    assert(task_views(before.push(task)) =~= task_views(before).push(task@));
                    Listing { gathered: Ok(tasks), steps: Ghost(steps) }
                },
                Err(e) => Listing { gathered: Err(e), steps: Ghost(steps) },
            },
        }
    }

    /// Ends the iteration: every document in order if no step failed, else
    /// the first failure and no document.
    pub fn finish(self) -> (outcome: Result<Vec<Task>, StorageError>)
        ensures
            outcome_view(outcome) == list_all_of(self.steps()),
    {
        proof {
            use_type_invariant(&self);
        }
        self.gathered
    }
}

} // verus!
