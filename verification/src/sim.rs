use vstd::prelude::*;
use crate::actions::{Action, action_in_range, generate_daily_action};
use crate::catalog::{
    Book, LibError, Library, checkout_ok, checkout_step, position_error, return_ok, return_step,
};
use crate::randomness::random_in;
use crate::roster::Patron;

verus! {

/// What applying one action came to. Patrons and books are named by
/// their positions in the roster and the catalog.
#[derive(Clone, Copy, Debug, PartialEq, Eq, Structural)]
pub enum Outcome {
    /// The roster was empty, so the action was dropped.
    NoPatron,
    CheckedOut { patron: usize, book: usize },
    CheckoutFailed { book: usize, error: LibError },
    Returned { book: usize },
    ReturnFailed { book: usize, error: LibError },
    Browsed { patron: usize },
}

/// The catalog after one action: a checkout or return steps the
/// targeted book, browsing moves nothing.
pub open spec fn step_books(books: Seq<Book>, a: Action) -> Seq<Book> {
    match a {
        Action::Checkout(p) => checkout_step(books, p as int),
        Action::Return(p) => return_step(books, p as int),
        Action::Browse => books,
    }
}

/// The catalog after a whole sequence of actions, applied in order.
pub open spec fn apply_steps(books: Seq<Book>, actions: Seq<Action>) -> Seq<Book>
    decreases actions.len(),
{
    if actions.len() == 0 {
        books
    } else {
        step_books(apply_steps(books, actions.drop_last()), actions.last())
    }
}

/// What an outcome may report of applying `a` to a catalog in state
/// `books` before a roster of `n_patrons`. The acting patron is
/// drawn at random, so any position inside the roster is admitted;
/// everything else is pinned down.
pub open spec fn outcome_for(books: Seq<Book>, a: Action, n_patrons: int, o: Outcome) -> bool {
    if n_patrons == 0 {
        o == Outcome::NoPatron
    } else {
        match a {
            Action::Checkout(p) => if checkout_ok(books, p as int) {
                match o {
                    Outcome::CheckedOut { patron, book } => book == p && (patron as int)
                        < n_patrons,
                    _ => false,
                }
            } else {
                o == (Outcome::CheckoutFailed { book: p, error: position_error(books, p as int) })
            },
            Action::Return(p) => if return_ok(books, p as int) {
                o == (Outcome::Returned { book: p })
            } else {
                o == (Outcome::ReturnFailed { book: p, error: position_error(books, p as int) })
            },
            Action::Browse => match o {
                Outcome::Browsed { patron } => (patron as int) < n_patrons,
                _ => false,
            },
        }
    }
}

/// Applies one action: draws a patron at random from the roster (on
/// an empty roster the action is dropped) and dispatches on the
/// action. The catalog moves by exactly one step, whichever patron
/// was drawn.
pub fn handle_action(
    library: &mut Library,
    action: Action,
    patrons: &[Patron],
    rng: &mut rand::rngs::ThreadRng,
) -> (o: Outcome)
    ensures
        patrons@.len() == 0 ==> final(library)@ == old(library)@,
        patrons@.len() > 0 ==> final(library)@ == step_books(old(library)@, action),
        outcome_for(old(library)@, action, patrons@.len() as int, o),
{
    let n = patrons.len();
    if n == 0 {
        return Outcome::NoPatron;
    }
    let patron = random_in(rng, 0, n - 1);
    match action {
        Action::Checkout(book_index) => match library.checkout_book(book_index) {
            Ok(_) => Outcome::CheckedOut { patron, book: book_index },
            Err(e) => Outcome::CheckoutFailed { book: book_index, error: e },
        },
        Action::Return(book_index) => match library.return_book(book_index) {
            Ok(_) => Outcome::Returned { book: book_index },
            Err(e) => Outcome::ReturnFailed { book: book_index, error: e },
        },
        Action::Browse => Outcome::Browsed { patron },
    }
}

/// The three attempt counters. They count generated actions, not
/// successes: a failed checkout still counts as a checkout attempt.
pub struct Stats {
    pub checkout_attempts: u32,
    pub return_attempts: u32,
    pub browse_sessions: u32,
}

impl Stats {
    /// The sum of the three counters.
    pub open spec fn total(self) -> int {
        self.checkout_attempts + self.return_attempts + self.browse_sessions
    }

    /// All counters at zero, as at process start.
    pub fn new() -> (s: Stats)
        ensures
            s.checkout_attempts == 0,
            s.return_attempts == 0,
            s.browse_sessions == 0,
    {
        Stats { checkout_attempts: 0, return_attempts: 0, browse_sessions: 0 }
    }

    /// Counts one attempt of the matching kind; the other two
    /// counters keep their values.
    pub fn record(&mut self, action: &Action)
        requires
            *action is Checkout ==> old(self).checkout_attempts < u32::MAX,
            *action is Return ==> old(self).return_attempts < u32::MAX,
            *action is Browse ==> old(self).browse_sessions < u32::MAX,
        ensures
            final(self).checkout_attempts == old(self).checkout_attempts + (
            if *action is Checkout {
                1int
            } else {
                0int
            }),
            final(self).return_attempts == old(self).return_attempts + (
            if *action is Return {
                1int
            } else {
                0int
            }),
            final(self).browse_sessions == old(self).browse_sessions + (
            if *action is Browse {
                1int
            } else {
                0int
            }),
            final(self).total() == old(self).total() + 1,
    {
        match action {
            Action::Checkout(_) => {
                self.checkout_attempts = self.checkout_attempts + 1;
            },
            Action::Return(_) => {
                self.return_attempts = self.return_attempts + 1;
            },
            Action::Browse => {
                self.browse_sessions = self.browse_sessions + 1;
            },
        }
    }
}

/// How many of the actions are checkout attempts.
pub open spec fn count_checkouts(actions: Seq<Action>) -> nat
    decreases actions.len(),
{
    if actions.len() == 0 {
        0
    } else {
        count_checkouts(actions.drop_last()) + if actions.last() is Checkout {
            1nat
        } else {
            0nat
        }
    }
}

/// How many of the actions are return attempts.
pub open spec fn count_returns(actions: Seq<Action>) -> nat
    decreases actions.len(),
{
    if actions.len() == 0 {
        0
    } else {
        count_returns(actions.drop_last()) + if actions.last() is Return {
            1nat
        } else {
            0nat
        }
    }
}

/// How many of the actions are browse sessions.
pub open spec fn count_browses(actions: Seq<Action>) -> nat
    decreases actions.len(),
{
    if actions.len() == 0 {
        0
    } else {
        count_browses(actions.drop_last()) + if actions.last() is Browse {
            1nat
        } else {
            0nat
        }
    }
}

/// Law: every action is of exactly one kind, so the three counts of
/// a batch always sum to the batch's length.
pub proof fn lemma_counts_sum(actions: Seq<Action>)
    ensures
        count_checkouts(actions) + count_returns(actions) + count_browses(actions)
            == actions.len(),
    decreases actions.len(),
{
    if actions.len() > 0 {
        lemma_counts_sum(actions.drop_last());
    }
}

/// Extending a prefix by one action raises exactly the matching
/// count by one.
proof fn lemma_counts_take_step(actions: Seq<Action>, k: int)
    requires
        0 <= k < actions.len(),
    ensures
        count_checkouts(actions.take(k + 1)) == count_checkouts(actions.take(k)) + (
        if actions[k] is Checkout {
            1nat
        } else {
            0nat
        }),
        count_returns(actions.take(k + 1)) == count_returns(actions.take(k)) + (
        if actions[k] is Return {
            1nat
        } else {
            0nat
        }),
        count_browses(actions.take(k + 1)) == count_browses(actions.take(k)) + (
        if actions[k] is Browse {
            1nat
        } else {
            0nat
        }),
{
    assert(actions.take(k + 1).drop_last() =~= actions.take(k));
    assert(actions.take(k + 1).last() == actions[k]);
}

/// A prefix never counts more of any kind than the whole batch.
proof fn lemma_counts_prefix_le(actions: Seq<Action>, k: int)
    requires
        0 <= k <= actions.len(),
    ensures
        count_checkouts(actions.take(k)) <= count_checkouts(actions),
        count_returns(actions.take(k)) <= count_returns(actions),
        count_browses(actions.take(k)) <= count_browses(actions),
    decreases actions.len() - k,
{
    if k < actions.len() {
        lemma_counts_take_step(actions, k);
        lemma_counts_prefix_le(actions, k + 1);
    } else {
        assert(actions.take(k) =~= actions);
    }
}

/// Stepping a catalog never changes how many books it holds.
pub proof fn lemma_apply_steps_len(books: Seq<Book>, actions: Seq<Action>)
    ensures
        apply_steps(books, actions).len() == books.len(),
    decreases actions.len(),
{
    if actions.len() > 0 {
        lemma_apply_steps_len(books, actions.drop_last());
    }
}

/// Applies a batch of actions in order, counting every attempt. The
/// counters grow by exactly the number of actions of each kind, and
/// — with at least one patron — the catalog ends in the state the
/// action sequence steps it to, whatever the random draws did.
pub fn apply_actions(
    library: &mut Library,
    patrons: &[Patron],
    rng: &mut rand::rngs::ThreadRng,
    stats: &mut Stats,
    actions: &Vec<Action>,
) -> (outcomes: Vec<Outcome>)
    requires
        old(stats).checkout_attempts + count_checkouts(actions@) <= u32::MAX,
        old(stats).return_attempts + count_returns(actions@) <= u32::MAX,
        old(stats).browse_sessions + count_browses(actions@) <= u32::MAX,
    ensures
        final(stats).checkout_attempts == old(stats).checkout_attempts + count_checkouts(
            actions@,
        ),
        final(stats).return_attempts == old(stats).return_attempts + count_returns(actions@),
        final(stats).browse_sessions == old(stats).browse_sessions + count_browses(actions@),
        final(stats).total() == old(stats).total() + actions@.len(),
        patrons@.len() == 0 ==> final(library)@ == old(library)@,
        patrons@.len() > 0 ==> final(library)@ == apply_steps(old(library)@, actions@),
        outcomes@.len() == actions@.len(),
        forall|j: int|
            0 <= j < actions@.len() ==> outcome_for(
                apply_steps(old(library)@, actions@.take(j)),
                actions@[j],
                patrons@.len() as int,
                outcomes@[j],
            ),
{
    let ghost books0: Seq<Book> = library@;
    let mut outcomes: Vec<Outcome> = Vec::new();
    let mut i: usize = 0;
    while i < actions.len()
        invariant
            i <= actions@.len(),
            outcomes@.len() == i,
            stats.checkout_attempts == old(stats).checkout_attempts + count_checkouts(
                actions@.take(i as int),
            ),
            stats.return_attempts == old(stats).return_attempts + count_returns(
                actions@.take(i as int),
            ),
            stats.browse_sessions == old(stats).browse_sessions + count_browses(
                actions@.take(i as int),
            ),
            old(stats).checkout_attempts + count_checkouts(actions@) <= u32::MAX,
            old(stats).return_attempts + count_returns(actions@) <= u32::MAX,
            old(stats).browse_sessions + count_browses(actions@) <= u32::MAX,
            patrons@.len() == 0 ==> library@ == books0,
            patrons@.len() > 0 ==> library@ == apply_steps(books0, actions@.take(i as int)),
            forall|j: int|
                0 <= j < i ==> outcome_for(
                    apply_steps(books0, actions@.take(j)),
                    actions@[j],
                    patrons@.len() as int,
                    outcomes@[j],
                ),
        decreases actions@.len() - i,
    {
        proof {
            lemma_counts_take_step(actions@, i as int);
            lemma_counts_prefix_le(actions@, i + 1);
            assert(actions@.take(i + 1).drop_last() =~= actions@.take(i as int));
            assert(actions@.take(i + 1).last() == actions@[i as int]);
        }
        let action = actions[i];
        stats.record(&action);
        let ghost books_before: Seq<Book> = library@;
        let o = handle_action(library, action, patrons, rng);
        proof {
            if patrons@.len() == 0 {
                assert(outcome_for(
                    apply_steps(books0, actions@.take(i as int)),
                    actions@[i as int],
                    patrons@.len() as int,
                    o,
                ));
            } else {
                assert(books_before == apply_steps(books0, actions@.take(i as int)));
                assert(library@ == apply_steps(books0, actions@.take(i + 1)));
            }
        }
        outcomes.push(o);
        i = i + 1;
    }
    proof {
        assert(actions@.take(actions@.len() as int) =~= actions@);
        lemma_counts_sum(actions@);
    }
    outcomes
}

/// One simulated day: generates `action_count` random actions for
/// the catalog as it stands, then applies them in order. The total
/// attempt count grows by exactly `action_count`, and the catalog
/// keeps its length.
pub fn run_day(
    library: &mut Library,
    patrons: &[Patron],
    rng: &mut rand::rngs::ThreadRng,
    stats: &mut Stats,
    action_count: usize,
) -> (day: (Vec<Action>, Vec<Outcome>))
    requires
        old(stats).checkout_attempts + action_count <= u32::MAX,
        old(stats).return_attempts + action_count <= u32::MAX,
        old(stats).browse_sessions + action_count <= u32::MAX,
    ensures
        day.0@.len() == action_count,
        day.1@.len() == action_count,
        forall|j: int|
            0 <= j < day.0@.len() ==> action_in_range(day.0@[j], old(library)@.len() as int),
        final(stats).total() == old(stats).total() + action_count,
        final(stats).checkout_attempts == old(stats).checkout_attempts + count_checkouts(day.0@),
        final(stats).return_attempts == old(stats).return_attempts + count_returns(day.0@),
        final(stats).browse_sessions == old(stats).browse_sessions + count_browses(day.0@),
        patrons@.len() == 0 ==> final(library)@ == old(library)@,
        patrons@.len() > 0 ==> final(library)@ == apply_steps(old(library)@, day.0@),
        final(library)@.len() == old(library)@.len(),
        forall|j: int|
            0 <= j < day.0@.len() ==> outcome_for(
                apply_steps(old(library)@, day.0@.take(j)),
                day.0@[j],
                patrons@.len() as int,
                day.1@[j],
            ),
{
    let book_count = library.book_count();
    let actions = generate_daily_action(rng, book_count, action_count);
    proof {
        lemma_counts_sum(actions@);
    }
    let outcomes = apply_actions(library, patrons, rng, stats, &actions);
    proof {
        lemma_counts_sum(actions@);
        lemma_apply_steps_len(old(library)@, actions@);
    }
    (actions, outcomes)
}

} // verus!
