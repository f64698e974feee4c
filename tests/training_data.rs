use neuron_test::training_data::{addition_examples, TrainingData, EXAMPLE_COUNT};

#[test]
fn example_getters() {
    let d = TrainingData::new(1.5f64, 2.5, 4.0);
    assert_eq!(d.get_data(), (1.5, 2.5));
    assert_eq!(d.get_target(), 4.0);
}

#[test]
fn fixed_set_is_ten_sums() {
    let ex = addition_examples();
    assert_eq!(ex.len(), EXAMPLE_COUNT);
    assert_eq!(ex[0], TrainingData::new(1, 2, 3));
    assert_eq!(ex[1], TrainingData::new(2, 3, 5));
    assert_eq!(ex[9], TrainingData::new(10, 11, 21));
    for d in &ex {
        let (a, b) = d.get_data();
        assert_eq!(d.get_target(), a + b);
        assert_eq!(b, a + 1);
    }
}
