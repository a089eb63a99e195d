use emcee::Guess;
use letsbayes::guess::{
    all_distinct, checked_ensemble, coordinate_texts, dimension_of, initial_ensemble,
    same_position, InitialGuessError,
};

#[test]
fn dimension_counts_the_coordinates() {
    assert_eq!(dimension_of(&Guess::new(&[])), 0);
    assert_eq!(dimension_of(&Guess::new(&[1.0])), 1);
    assert_eq!(dimension_of(&Guess::new(&[1.0, 2.0, 3.0])), 3);
}

#[test]
fn coordinates_are_printed_in_order() {
    let guess = Guess::new(&[1.5, -0.25, 2.0, 1e-3]);
    assert_eq!(coordinate_texts(&guess), vec!["1.5", "-0.25", "2", "0.001"]);
    assert_eq!(coordinate_texts(&Guess::new(&[])), Vec::<String>::new());
}

#[test]
fn printed_coordinates_read_back_exactly() {
    let values = [0.1f32, 1.0 / 3.0, 16_777_217.0, 3.4e38, 1.2e-38, -0.0];
    let guess = Guess::new(&values);
    let texts = coordinate_texts(&guess);
    for (text, value) in texts.iter().zip(values.iter()) {
        let read: f32 = text.parse().unwrap();
        assert_eq!(read.to_bits(), value.to_bits());
    }
}

#[test]
fn non_finite_coordinates_have_a_text() {
    let guess = Guess::new(&[f32::INFINITY, f32::NEG_INFINITY, f32::NAN]);
    assert_eq!(coordinate_texts(&guess), vec!["inf", "-inf", "NaN"]);
}

#[test]
fn positions_are_compared_bit_for_bit() {
    let a = Guess::new(&[1.0, 2.0]);
    assert!(same_position(&a, &Guess::new(&[1.0, 2.0])));
    assert!(!same_position(&a, &Guess::new(&[1.0, 2.5])));
    assert!(!same_position(&a, &Guess::new(&[2.0, 1.0])));
    assert!(!same_position(&a, &Guess::new(&[1.0])));
    assert!(!same_position(&a, &Guess::new(&[1.0, 2.0, 0.0])));
    assert!(same_position(&Guess::new(&[]), &Guess::new(&[])));
    assert!(!same_position(&Guess::new(&[0.0]), &Guess::new(&[-0.0])));
    assert!(same_position(&Guess::new(&[f32::NAN]), &Guess::new(&[f32::NAN])));
}

#[test]
fn distinct_walkers_are_recognised() {
    assert!(all_distinct(&Vec::new()));
    assert!(all_distinct(&vec![Guess::new(&[1.0])]));
    assert!(all_distinct(&vec![
        Guess::new(&[1.0, 0.0]),
        Guess::new(&[0.0, 1.0]),
        Guess::new(&[1.0, 1.0]),
    ]));
}

#[test]
fn coinciding_walkers_are_recognised() {
    assert!(!all_distinct(&vec![Guess::new(&[1.0]), Guess::new(&[1.0])]));
    assert!(!all_distinct(&vec![
        Guess::new(&[1.0, 0.0]),
        Guess::new(&[0.0, 1.0]),
        Guess::new(&[3.0, 3.0]),
        Guess::new(&[0.0, 1.0]),
    ]));
    assert!(!all_distinct(&vec![Guess::new(&[]), Guess::new(&[])]));
}

#[test]
fn an_ensemble_of_distinct_walkers_is_handed_back() {
    let walkers = vec![Guess::new(&[1.0]), Guess::new(&[2.0]), Guess::new(&[3.0])];
    let accepted = checked_ensemble(walkers).unwrap();
    assert_eq!(accepted.len(), 3);
    assert_eq!(accepted[0].values, vec![1.0]);
    assert_eq!(accepted[1].values, vec![2.0]);
    assert_eq!(accepted[2].values, vec![3.0]);
}

#[test]
fn an_ensemble_with_coinciding_walkers_is_refused() {
    let walkers = vec![Guess::new(&[1.0]), Guess::new(&[2.0]), Guess::new(&[1.0])];
    assert_eq!(checked_ensemble(walkers).err(), Some(InitialGuessError::DegenerateEnsemble));
}

#[test]
fn walkers_start_near_the_starting_position() {
    let start = Guess::new(&[0.001, -0.002, 0.0]);
    let walkers = initial_ensemble(&start, 3, 40).unwrap();
    assert_eq!(walkers.len(), 40);
    assert!(all_distinct(&walkers));
    for walker in &walkers {
        assert_eq!(walker.values.len(), 3);
        assert!((walker.values[0] - 0.001).abs() < 1e-4);
        assert!((walker.values[1] + 0.002).abs() < 1e-4);
        assert!(walker.values[2].abs() < 1e-4);
    }
    assert!(walkers.iter().any(|walker| !same_position(walker, &start)));
}

#[test]
fn a_starting_position_of_the_wrong_dimension_is_refused() {
    let start = Guess::new(&[0.5, -1.25]);
    assert_eq!(
        initial_ensemble(&start, 3, 10).err(),
        Some(InitialGuessError::DimensionMismatch { expected: 3, found: 2 })
    );
    assert_eq!(
        initial_ensemble(&start, 0, 0).err(),
        Some(InitialGuessError::DimensionMismatch { expected: 0, found: 2 })
    );
}

#[test]
fn no_walker_and_one_walker_never_coincide() {
    let start = Guess::new(&[1.0e9]);
    assert_eq!(initial_ensemble(&start, 1, 0).unwrap().len(), 0);
    let one = initial_ensemble(&start, 1, 1).unwrap();
    assert_eq!(one.len(), 1);
    assert_eq!(one[0].values.len(), 1);
}

#[test]
fn walkers_that_cannot_be_told_apart_are_refused() {
    let start = Guess::new(&[1.0e9, -4.0e12]);
    assert_eq!(initial_ensemble(&start, 2, 8).err(), Some(InitialGuessError::DegenerateEnsemble));
    assert_eq!(
        initial_ensemble(&Guess::new(&[]), 0, 2).err(),
        Some(InitialGuessError::DegenerateEnsemble)
    );
}
