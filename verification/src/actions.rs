use vstd::prelude::*;
use crate::randomness::random_in;

verus! {

/// One unit of simulated daily activity, consumed in the order it
/// was generated. Checkout and Return carry the targeted catalog
/// position.
#[derive(Clone, Copy, Debug, PartialEq, Eq, Structural)]
pub enum Action {
    Checkout(usize),
    Return(usize),
    Browse,
}

/// Which action one daily draw stands for. On an empty catalog every
/// draw is a browse; otherwise a draw of 0 to 4 is a checkout, 5 to 8
/// a return, and 9 or 10 a browse, each aimed at `position`.
pub open spec fn action_for_draw(draw: int, position: usize, book_count: int) -> Action {
    if book_count == 0 {
        Action::Browse
    } else if draw <= 4 {
        Action::Checkout(position)
    } else if draw <= 8 {
        Action::Return(position)
    } else {
        Action::Browse
    }
}

/// Whether an action only targets positions the catalog has.
pub open spec fn action_in_range(a: Action, book_count: int) -> bool {
    match a {
        Action::Checkout(p) => (p as int) < book_count,
        Action::Return(p) => (p as int) < book_count,
        Action::Browse => true,
    }
}

/// Turns one random draw into the action it stands for.
pub fn classify_draw(draw: usize, position: usize, book_count: usize) -> (a: Action)
    ensures
        a == action_for_draw(draw as int, position, book_count as int),
{
    if book_count == 0 {
        Action::Browse
    } else if draw <= 4 {
        Action::Checkout(position)
    } else if draw <= 8 {
        Action::Return(position)
    } else {
        Action::Browse
    }
}

/// One day's worth of random actions: exactly `action_count` of
/// them, every targeted position inside the catalog, and nothing but
/// browsing when the catalog is empty.
pub fn generate_daily_action(
    rng: &mut rand::rngs::ThreadRng,
    book_count: usize,
    action_count: usize,
) -> (actions: Vec<Action>)
    ensures
        actions@.len() == action_count,
        forall|j: int| 0 <= j < actions@.len() ==> action_in_range(actions@[j], book_count as int),
        book_count == 0 ==> forall|j: int|
            0 <= j < actions@.len() ==> actions@[j] == Action::Browse,
{
    let mut actions: Vec<Action> = Vec::new();
    let mut i: usize = 0;
    while i < action_count
        invariant
            i <= action_count,
            actions@.len() == i,
            forall|j: int| 0 <= j < i ==> action_in_range(actions@[j], book_count as int),
            book_count == 0 ==> forall|j: int| 0 <= j < i ==> actions@[j] == Action::Browse,
        decreases action_count - i,
    {
        let draw = random_in(rng, 0, 10);
        let position: usize = if book_count == 0 {
            0
        } else {
            random_in(rng, 0, book_count - 1)
        };
        let a = classify_draw(draw, position, book_count);
        actions.push(a);
        i = i + 1;
    }
    actions
}

} // verus!
