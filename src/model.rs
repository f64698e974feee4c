use vstd::prelude::*;

verus! {

/// Width of the hidden layer.
pub const HIDDEN_SIZE: usize = 8;

/// Number of input-to-hidden weights: two inputs for each hidden unit.
pub const INPUT_HIDDEN_LEN: usize = 2 * HIDDEN_SIZE;

/// Number of learnable values in a parameter set.
pub const PARAMETER_COUNT: usize = 4 * HIDDEN_SIZE + 1;

/// Why a parameter set was refused: a sequence whose length is not the one
/// the architecture fixes, with the length found.
#[derive(Debug, Clone, Copy, PartialEq, Eq, Structural)]
pub enum ShapeError {
    WeightInputHidden { found: usize },
    BiasHidden { found: usize },
    WeightHiddenOutput { found: usize },
}

/// The outcome of checking the three sequence lengths of a parameter set,
/// the first mismatch being the one reported.
pub open spec fn shape_result(n_input_hidden: nat, n_bias_hidden: nat, n_hidden_output: nat) -> Result<
    (),
    ShapeError,
> {
    if n_input_hidden != INPUT_HIDDEN_LEN {
        Err(ShapeError::WeightInputHidden { found: n_input_hidden as usize })
    } else if n_bias_hidden != HIDDEN_SIZE {
        Err(ShapeError::BiasHidden { found: n_bias_hidden as usize })
    } else if n_hidden_output != HIDDEN_SIZE {
        Err(ShapeError::WeightHiddenOutput { found: n_hidden_output as usize })
    } else {
        Ok(())
    }
}

/// Checks the sequence lengths of a parameter set against the architecture.
pub fn check_shape(n_input_hidden: usize, n_bias_hidden: usize, n_hidden_output: usize) -> (r: Result<
    (),
    ShapeError,
>)
    ensures
        r == shape_result(n_input_hidden as nat, n_bias_hidden as nat, n_hidden_output as nat),
{
    if n_input_hidden != INPUT_HIDDEN_LEN {
        Err(ShapeError::WeightInputHidden { found: n_input_hidden })
    } else if n_bias_hidden != HIDDEN_SIZE {
        Err(ShapeError::BiasHidden { found: n_bias_hidden })
    } else if n_hidden_output != HIDDEN_SIZE {
        Err(ShapeError::WeightHiddenOutput { found: n_hidden_output })
    } else {
        Ok(())
    }
}

/// Position in the input-to-hidden weights of the weight that joins input
/// `input` (0 or 1) to hidden unit `neuron`.
pub fn input_weight_index(neuron: usize, input: usize) -> (r: usize)
    requires
        neuron < HIDDEN_SIZE,
        input < 2,
    ensures
        r == 2 * neuron + input,
        r < INPUT_HIDDEN_LEN,
{
    2 * neuron + input
}

/// A fresh vector with the same values as `v`.
fn copied<T: Copy>(v: &Vec<T>) -> (r: Vec<T>)
    ensures
        r@ == v@,
{
    let mut r: Vec<T> = Vec::with_capacity(v.len());
    let mut i: usize = 0;
    while i < v.len()
        invariant
            i <= v@.len(),
            r@ == v@.subrange(0, i as int),
        decreases v@.len() - i,
    {
        r.push(v[i]);
        i = i + 1;
    }
    assert(r@ =~= v@);
    r
}

/// The contents of a parameter set.
pub ghost struct ModelView<T> {
    pub weight_input_hidden: Seq<T>,
    pub bias_hidden: Seq<T>,
    pub weight_hidden_output: Seq<T>,
    pub bias_output: T,
}

impl<T> ModelView<T> {
    /// Every sequence has the length that the architecture fixes.
    pub open spec fn wf(self) -> bool {
        &&& self.weight_input_hidden.len() == INPUT_HIDDEN_LEN
        &&& self.bias_hidden.len() == HIDDEN_SIZE
        &&& self.weight_hidden_output.len() == HIDDEN_SIZE
    }
}

/// The parameter set laid out from `PARAMETER_COUNT` values drawn in order:
/// the input-to-hidden weights first, then the hidden biases, then the
/// hidden-to-output weights, and the output bias last.
pub open spec fn layout<T>(draws: Seq<T>) -> ModelView<T> {
    ModelView {
        weight_input_hidden: draws.subrange(0, INPUT_HIDDEN_LEN as int),
        bias_hidden: draws.subrange(INPUT_HIDDEN_LEN as int, 3 * HIDDEN_SIZE as int),
        weight_hidden_output: draws.subrange(3 * HIDDEN_SIZE as int, 4 * HIDDEN_SIZE as int),
        bias_output: draws[4 * HIDDEN_SIZE as int],
    }
}

/// A parameter set whose sequences always have the architecture's lengths.
pub struct Model<T> {
    weight_input_hidden: Vec<T>,
    bias_hidden: Vec<T>,
    weight_hidden_output: Vec<T>,
    bias_output: T,
}

impl<T> View for Model<T> {
    type V = ModelView<T>;

    closed spec fn view(&self) -> ModelView<T> {
        ModelView {
            weight_input_hidden: self.weight_input_hidden@,
            bias_hidden: self.bias_hidden@,
            weight_hidden_output: self.weight_hidden_output@,
            bias_output: self.bias_output,
        }
    }
}

impl<T> Model<T> {
    #[verifier::type_invariant]
    closed spec fn inv(&self) -> bool {
        self@.wf()
    }

    /// The input-to-hidden weights; two for each hidden unit, the one of the
    /// first input before the one of the second.
    pub fn weight_input_hidden(&self) -> (r: &Vec<T>)
        ensures
            r@ == self@.weight_input_hidden,
            self@.wf(),
    {
        proof {
            use_type_invariant(self);
        }
        &self.weight_input_hidden
    }

    /// The hidden biases, one for each hidden unit.
    pub fn bias_hidden(&self) -> (r: &Vec<T>)
        ensures
            r@ == self@.bias_hidden,
            self@.wf(),
    {
        proof {
            use_type_invariant(self);
        }
        &self.bias_hidden
    }

    /// The hidden-to-output weights, one for each hidden unit.
    pub fn weight_hidden_output(&self) -> (r: &Vec<T>)
        ensures
            r@ == self@.weight_hidden_output,
            self@.wf(),
    {
        proof {
            use_type_invariant(self);
        }
        &self.weight_hidden_output
    }

    /// The output bias.
    pub fn bias_output(&self) -> (r: &T)
        ensures
            *r == self@.bias_output,
            self@.wf(),
    {
        proof {
            use_type_invariant(self);
        }
        &self.bias_output
    }

    /// Copies of the four parts of the parameter set.
    pub fn get_weights(&self) -> (r: (Vec<T>, Vec<T>, Vec<T>, T))
        where
            T: Copy,
        ensures
            r.0@ == self@.weight_input_hidden,
            r.1@ == self@.bias_hidden,
            r.2@ == self@.weight_hidden_output,
            r.3 == self@.bias_output,
            self@.wf(),
    {
        proof {
            use_type_invariant(self);
        }
        (
            copied(&self.weight_input_hidden),
            copied(&self.bias_hidden),
            copied(&self.weight_hidden_output),
            self.bias_output,
        )
    }

    /// Gives up the parameter set for its four parts.
    pub fn into_parts(self) -> (r: (Vec<T>, Vec<T>, Vec<T>, T))
        ensures
            r.0@ == self@.weight_input_hidden,
            r.1@ == self@.bias_hidden,
            r.2@ == self@.weight_hidden_output,
            r.3 == self@.bias_output,
            self@.wf(),
    {
        proof {
            use_type_invariant(&self);
        }
        (self.weight_input_hidden, self.bias_hidden, self.weight_hidden_output, self.bias_output)
    }

    /// Builds a parameter set from its parts, refusing parts whose lengths
    /// do not match the architecture.
    pub fn from_parts(
        weight_input_hidden: Vec<T>,
        bias_hidden: Vec<T>,
        weight_hidden_output: Vec<T>,
        bias_output: T,
    ) -> (r: Result<Model<T>, ShapeError>)
        ensures
            r is Ok <==> shape_result(
                weight_input_hidden@.len(),
                bias_hidden@.len(),
                weight_hidden_output@.len(),
            ) is Ok,
            r matches Err(e) ==> shape_result(
                weight_input_hidden@.len(),
                bias_hidden@.len(),
                weight_hidden_output@.len(),
            ) == Err::<(), ShapeError>(e),
            r matches Ok(m) ==> m@ == (ModelView {
                weight_input_hidden: weight_input_hidden@,
                bias_hidden: bias_hidden@,
                weight_hidden_output: weight_hidden_output@,
                bias_output,
            }),
    {
        match check_shape(weight_input_hidden.len(), bias_hidden.len(), weight_hidden_output.len()) {
            Ok(()) => Ok(Model { weight_input_hidden, bias_hidden, weight_hidden_output, bias_output }),
            Err(e) => Err(e),
        }
    }

    /// Lays out a parameter set from `PARAMETER_COUNT` values drawn in order.
    pub fn from_draws(draws: Vec<T>) -> (r: Model<T>)
        requires
            draws@.len() == PARAMETER_COUNT,
        ensures
            r@ == layout(draws@),
    {
        let ghost all = draws@;
        let mut rest = draws;
        let bias_output = rest.remove(4 * HIDDEN_SIZE);
        let weight_hidden_output = rest.split_off(3 * HIDDEN_SIZE);
        let bias_hidden = rest.split_off(INPUT_HIDDEN_LEN);
        let weight_input_hidden = rest;
        assert(weight_input_hidden@ =~= all.subrange(0, INPUT_HIDDEN_LEN as int));
        assert(bias_hidden@ =~= all.subrange(INPUT_HIDDEN_LEN as int, 3 * HIDDEN_SIZE as int));
        assert(weight_hidden_output@ =~= all.subrange(
            3 * HIDDEN_SIZE as int,
            4 * HIDDEN_SIZE as int,
        ));
        Model { weight_input_hidden, bias_hidden, weight_hidden_output, bias_output }
    }
}

/// The parts that a parameter set gives out pass the shape check when they
/// are read back, so `from_parts` makes the same parameter set again.
pub proof fn lemma_parts_round_trip<T>(m: ModelView<T>)
    requires
        m.wf(),
    ensures
        shape_result(
            m.weight_input_hidden.len(),
            m.bias_hidden.len(),
            m.weight_hidden_output.len(),
        ) == Ok::<(), ShapeError>(()),
{
}

/// A parameter set is refused when, and only when, one of its sequences does
/// not have the architecture's length.
pub proof fn lemma_shape_mismatch_refused(
    n_input_hidden: nat,
    n_bias_hidden: nat,
    n_hidden_output: nat,
)
    ensures
        shape_result(n_input_hidden, n_bias_hidden, n_hidden_output) is Err <==> (n_input_hidden
            != INPUT_HIDDEN_LEN || n_bias_hidden != HIDDEN_SIZE || n_hidden_output != HIDDEN_SIZE),
{
}

} // verus!
