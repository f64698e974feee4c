use vstd::prelude::*;

verus! {

/// Number of examples in the fixed training set.
pub const EXAMPLE_COUNT: usize = 10;

/// One training example: two inputs and the value the network should give.
#[derive(Debug, Clone, Copy, PartialEq, Eq, Structural)]
pub struct TrainingData<T> {
    pub x1: T,
    pub x2: T,
    pub target: T,
}

impl<T: Copy> TrainingData<T> {
    pub fn new(x1: T, x2: T, target: T) -> (r: TrainingData<T>)
        ensures
            r == (TrainingData { x1, x2, target }),
    {
        TrainingData { x1, x2, target }
    }

    /// The two inputs.
    pub fn get_data(&self) -> (r: (T, T))
        ensures
            r == (self.x1, self.x2),
    {
        (self.x1, self.x2)
    }

    /// The expected output.
    pub fn get_target(&self) -> (r: T)
        ensures
            r == self.target,
    {
        self.target
    }
}

/// The example at position `i` of the fixed training set: `(a, a + 1, 2a + 1)`
/// with `a = i + 1`.
pub open spec fn addition_example(i: int) -> TrainingData<u32> {
    TrainingData { x1: (i + 1) as u32, x2: (i + 2) as u32, target: (2 * i + 3) as u32 }
}

/// The fixed training set, in the order the training loop walks it: ten
/// examples `(a, a + 1, 2a + 1)` for `a` from 1 to 10.
pub fn addition_examples() -> (r: Vec<TrainingData<u32>>)
    ensures
        r@.len() == EXAMPLE_COUNT,
        forall|i: int| 0 <= i < EXAMPLE_COUNT ==> #[trigger] r@[i] == addition_example(i),
{
    let mut r: Vec<TrainingData<u32>> = Vec::with_capacity(EXAMPLE_COUNT);
    let mut a: u32 = 1;
    while a <= 10
        invariant
            1 <= a <= 11,
            r@.len() == a - 1,
            forall|i: int| 0 <= i < a - 1 ==> #[trigger] r@[i] == addition_example(i),
        decreases 11 - a,
    {
        r.push(TrainingData::new(a, a + 1, 2 * a + 1));
        a = a + 1;
    }
    r
}

/// Every example of the training set asks for the sum of its inputs.
pub proof fn lemma_examples_are_sums(i: int)
    requires
        0 <= i < EXAMPLE_COUNT,
    ensures
        addition_example(i).target == addition_example(i).x1 + addition_example(i).x2,
{
}

} // verus!
