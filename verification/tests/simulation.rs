use lending_library::actions::{classify_draw, generate_daily_action, Action};
use lending_library::catalog::{Book, LibError, Library};
use lending_library::roster::{create_sample_patrons, Patron};
use lending_library::sim::{apply_actions, handle_action, run_day, Outcome, Stats};

fn available_book(title: &str) -> Book {
    Book {
        title: String::from(title),
        author: String::from("someone"),
        pages: 100,
        available: true,
    }
}

fn five_book_library() -> Library {
    let mut lib = Library::new();
    for i in 0..5 {
        lib.add_book(available_book(&format!("book {}", i)));
    }
    lib
}

#[test]
fn empty_catalog_generates_only_browse_actions() {
    let mut rng = rand::rng();
    for count in [0, 1, 7, 25] {
        let actions = generate_daily_action(&mut rng, 0, count);
        assert_eq!(actions.len(), count);
        assert!(actions.iter().all(|a| *a == Action::Browse));
    }
}

#[test]
fn generated_positions_stay_inside_the_catalog() {
    let mut rng = rand::rng();
    let actions = generate_daily_action(&mut rng, 3, 60);
    assert_eq!(actions.len(), 60);
    for a in actions {
        match a {
            Action::Checkout(p) | Action::Return(p) => assert!(p < 3),
            Action::Browse => {}
        }
    }
}

#[test]
fn draws_map_to_actions_by_the_fixed_bands() {
    assert_eq!(classify_draw(0, 2, 5), Action::Checkout(2));
    assert_eq!(classify_draw(4, 1, 5), Action::Checkout(1));
    assert_eq!(classify_draw(5, 0, 5), Action::Return(0));
    assert_eq!(classify_draw(8, 4, 5), Action::Return(4));
    assert_eq!(classify_draw(9, 3, 5), Action::Browse);
    assert_eq!(classify_draw(10, 3, 5), Action::Browse);
    assert_eq!(classify_draw(3, 0, 0), Action::Browse);
}

#[test]
fn record_counts_each_kind_separately() {
    let mut stats = Stats::new();
    stats.record(&Action::Checkout(0));
    stats.record(&Action::Checkout(3));
    stats.record(&Action::Return(1));
    stats.record(&Action::Browse);
    assert_eq!(stats.checkout_attempts, 2);
    assert_eq!(stats.return_attempts, 1);
    assert_eq!(stats.browse_sessions, 1);
}

#[test]
fn counters_sum_to_the_number_of_actions_applied() {
    let mut lib = five_book_library();
    let patrons = create_sample_patrons();
    let mut rng = rand::rng();
    let mut stats = Stats::new();
    let actions = vec![
        Action::Checkout(0),
        Action::Checkout(0),
        Action::Return(4),
        Action::Browse,
        Action::Return(0),
        Action::Checkout(9),
    ];
    let outcomes = apply_actions(&mut lib, &patrons, &mut rng, &mut stats, &actions);
    assert_eq!(outcomes.len(), 6);
    assert_eq!(stats.checkout_attempts, 3);
    assert_eq!(stats.return_attempts, 2);
    assert_eq!(stats.browse_sessions, 1);
    assert_eq!(
        stats.checkout_attempts + stats.return_attempts + stats.browse_sessions,
        6
    );
}

#[test]
fn failed_attempts_still_count_and_report_their_error() {
    let mut lib = five_book_library();
    let patrons = create_sample_patrons();
    let mut rng = rand::rng();
    let mut stats = Stats::new();
    let actions = vec![Action::Checkout(0), Action::Checkout(0), Action::Return(7)];
    let outcomes = apply_actions(&mut lib, &patrons, &mut rng, &mut stats, &actions);
    match outcomes[0] {
        Outcome::CheckedOut { patron, book } => {
            assert!(patron < 4);
            assert_eq!(book, 0);
        }
        ref o => panic!("unexpected outcome {:?}", o),
    }
    assert_eq!(
        outcomes[1],
        Outcome::CheckoutFailed { book: 0, error: LibError::InvalidStateTransition }
    );
    assert_eq!(
        outcomes[2],
        Outcome::ReturnFailed { book: 7, error: LibError::IndexOutOfRange }
    );
    assert_eq!(stats.checkout_attempts, 2);
    assert_eq!(stats.return_attempts, 1);
}

#[test]
fn empty_roster_drops_the_action_but_counts_the_attempt() {
    let mut lib = five_book_library();
    let patrons: Vec<Patron> = Vec::new();
    let mut rng = rand::rng();
    let mut stats = Stats::new();

    let o = handle_action(&mut lib, Action::Checkout(0), &patrons, &mut rng);
    assert_eq!(o, Outcome::NoPatron);
    assert!(lib.book_at(0).unwrap().available);

    let actions = vec![Action::Checkout(0), Action::Return(1), Action::Browse];
    let outcomes = apply_actions(&mut lib, &patrons, &mut rng, &mut stats, &actions);
    assert!(outcomes.iter().all(|o| *o == Outcome::NoPatron));
    assert_eq!(lib.get_available_books_number(), 5);
    assert_eq!(stats.checkout_attempts, 1);
    assert_eq!(stats.return_attempts, 1);
    assert_eq!(stats.browse_sessions, 1);
}

#[test]
fn one_forced_checkout_day_leaves_four_of_five_available() {
    let mut lib = five_book_library();
    let patrons = create_sample_patrons();
    let mut rng = rand::rng();
    let mut stats = Stats::new();

    let actions = vec![Action::Checkout(0)];
    let outcomes = apply_actions(&mut lib, &patrons, &mut rng, &mut stats, &actions);

    assert!(!lib.book_at(0).unwrap().available);
    assert_eq!(stats.checkout_attempts, 1);
    assert!(matches!(outcomes[0], Outcome::CheckedOut { book: 0, .. }));

    let summary = format!(
        "{} / {} books available",
        lib.get_available_books_number(),
        lib.book_count()
    );
    assert_eq!(summary, "4 / 5 books available");
}

#[test]
fn totals_over_many_days_equal_the_actions_generated() {
    let mut lib = five_book_library();
    let patrons = create_sample_patrons();
    let mut rng = rand::rng();
    let mut stats = Stats::new();
    let mut generated: u32 = 0;
    for day in 0..10 {
        let action_count = 3 + (day % 5);
        let (actions, outcomes) = run_day(&mut lib, &patrons, &mut rng, &mut stats, action_count);
        assert_eq!(actions.len(), action_count);
        assert_eq!(outcomes.len(), action_count);
        generated += action_count as u32;
        assert_eq!(
            stats.checkout_attempts + stats.return_attempts + stats.browse_sessions,
            generated
        );
    }
    assert_eq!(lib.book_count(), 5);
}
