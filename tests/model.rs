use neuron_test::model::{
    check_shape, input_weight_index, Model, ShapeError, HIDDEN_SIZE, INPUT_HIDDEN_LEN,
    PARAMETER_COUNT,
};

fn zeros(n: usize) -> Vec<i64> {
    vec![0; n]
}

#[test]
fn architecture_sizes() {
    assert_eq!(HIDDEN_SIZE, 8);
    assert_eq!(INPUT_HIDDEN_LEN, 16);
    assert_eq!(PARAMETER_COUNT, 33);
}

#[test]
fn shape_accepts_architecture_lengths() {
    assert_eq!(check_shape(16, 8, 8), Ok(()));
}

#[test]
fn shape_refuses_input_hidden_length() {
    assert_eq!(check_shape(15, 8, 8), Err(ShapeError::WeightInputHidden { found: 15 }));
    assert_eq!(check_shape(0, 0, 0), Err(ShapeError::WeightInputHidden { found: 0 }));
}

#[test]
fn shape_refuses_bias_hidden_length() {
    assert_eq!(check_shape(16, 9, 8), Err(ShapeError::BiasHidden { found: 9 }));
}

#[test]
fn shape_refuses_hidden_output_length() {
    assert_eq!(check_shape(16, 8, 7), Err(ShapeError::WeightHiddenOutput { found: 7 }));
}

#[test]
fn from_parts_keeps_values() {
    let w_ih: Vec<i64> = (0..16).collect();
    let b_h: Vec<i64> = (100..108).collect();
    let w_ho: Vec<i64> = (200..208).collect();
    let m = Model::from_parts(w_ih.clone(), b_h.clone(), w_ho.clone(), 7).unwrap();
    assert_eq!(m.weight_input_hidden(), &w_ih);
    assert_eq!(m.bias_hidden(), &b_h);
    assert_eq!(m.weight_hidden_output(), &w_ho);
    assert_eq!(*m.bias_output(), 7);
}

#[test]
fn from_parts_refuses_short_weights() {
    let r = Model::from_parts(zeros(8), zeros(8), zeros(8), 0);
    assert!(matches!(r, Err(ShapeError::WeightInputHidden { found: 8 })));
}

#[test]
fn from_parts_refuses_long_biases() {
    let r = Model::from_parts(zeros(16), zeros(10), zeros(8), 0);
    assert!(matches!(r, Err(ShapeError::BiasHidden { found: 10 })));
}

#[test]
fn from_parts_refuses_empty_output_weights() {
    let r = Model::from_parts(zeros(16), zeros(8), zeros(0), 0);
    assert!(matches!(r, Err(ShapeError::WeightHiddenOutput { found: 0 })));
}

#[test]
fn parts_round_trip() {
    let w_ih: Vec<i64> = (0..16).map(|x| x * 3 - 20).collect();
    let b_h: Vec<i64> = (0..8).map(|x| -x).collect();
    let w_ho: Vec<i64> = (0..8).map(|x| x * x).collect();
    let m = Model::from_parts(w_ih, b_h, w_ho, -5).unwrap();
    let (a, b, c, d) = m.get_weights();
    let again = Model::from_parts(a, b, c, d).unwrap();
    assert_eq!(again.get_weights(), m.get_weights());
    let (a, b, c, d) = again.into_parts();
    assert_eq!(a, (0..16).map(|x| x * 3 - 20).collect::<Vec<i64>>());
    assert_eq!(b, (0..8).map(|x| -x).collect::<Vec<i64>>());
    assert_eq!(c, (0..8).map(|x| x * x).collect::<Vec<i64>>());
    assert_eq!(d, -5);
}

#[test]
fn draws_are_laid_out_in_order() {
    let draws: Vec<u32> = (0..33).collect();
    let m = Model::from_draws(draws);
    assert_eq!(m.weight_input_hidden(), &(0..16).collect::<Vec<u32>>());
    assert_eq!(m.bias_hidden(), &(16..24).collect::<Vec<u32>>());
    assert_eq!(m.weight_hidden_output(), &(24..32).collect::<Vec<u32>>());
    assert_eq!(*m.bias_output(), 32);
}

#[test]
fn input_weights_pair_up_per_unit() {
    assert_eq!(input_weight_index(0, 0), 0);
    assert_eq!(input_weight_index(0, 1), 1);
    assert_eq!(input_weight_index(3, 0), 6);
    assert_eq!(input_weight_index(7, 1), 15);
}
