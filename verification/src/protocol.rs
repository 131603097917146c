//! The named-tensor protocol of the detection graph: the operations that a
//! graph must expose, the names they go by, which of them are fed and which
//! are fetched, and the hyperparameters that are fed to it.

use vstd::prelude::*;

verus! {

/// An operation that the detection graph must expose.
#[derive(Clone, Copy, Debug, PartialEq, Eq, Structural)]
pub enum Operation {
    /// Input: the smallest face that is looked for, in pixels.
    MinSize,
    /// Input: the thresholds of the three stages of the cascade.
    Thresholds,
    /// Input: the scale factor of the image pyramid.
    Factor,
    /// Input: the image.
    Input,
    /// Output: four coordinates for each detection.
    Boxes,
    /// Output: one confidence for each detection.
    Probabilities,
}

/// The number of operations that a graph must expose.
pub const OPERATION_COUNT: usize = 6;

impl Operation {
    /// The name by which the graph knows the operation.
    pub open spec fn name_spec(self) -> Seq<char> {
        match self {
            Operation::MinSize => "min_size"@,
            Operation::Thresholds => "thresholds"@,
            Operation::Factor => "factor"@,
            Operation::Input => "input"@,
            Operation::Boxes => "box"@,
            Operation::Probabilities => "prob"@,
        }
    }

    /// The place of the operation in the order in which the operations are
    /// resolved.
    pub open spec fn index_spec(self) -> int {
        match self {
            Operation::MinSize => 0,
            Operation::Thresholds => 1,
            Operation::Factor => 2,
            Operation::Input => 3,
            Operation::Boxes => 4,
            Operation::Probabilities => 5,
        }
    }

    /// The operation at a place of the resolution order, if there is one.
    pub open spec fn at_spec(index: int) -> Option<Operation> {
        if index == 0 {
            Some(Operation::MinSize)
        } else if index == 1 {
            Some(Operation::Thresholds)
        } else if index == 2 {
            Some(Operation::Factor)
        } else if index == 3 {
            Some(Operation::Input)
        } else if index == 4 {
            Some(Operation::Boxes)
        } else if index == 5 {
            Some(Operation::Probabilities)
        } else {
            None
        }
    }

    /// A value is bound to the operation before the graph runs.
    pub open spec fn is_feed_spec(self) -> bool {
        self.index_spec() < 4
    }

    /// The value of the operation is asked for after the graph has run.
    pub open spec fn is_fetch_spec(self) -> bool {
        self.index_spec() >= 4
    }

    /// The name by which the graph knows the operation.
    pub fn name(&self) -> (name: &'static str)
        ensures
            name@ == self.name_spec(),
    {
        match self {
            Operation::MinSize => "min_size",
            Operation::Thresholds => "thresholds",
            Operation::Factor => "factor",
            Operation::Input => "input",
            Operation::Boxes => "box",
            Operation::Probabilities => "prob",
        }
    }

    /// The place of the operation in the resolution order.
    pub fn index(&self) -> (index: usize)
        ensures
            index == self.index_spec(),
            index < OPERATION_COUNT,
    {
        match self {
            Operation::MinSize => 0,
            Operation::Thresholds => 1,
            Operation::Factor => 2,
            Operation::Input => 3,
            Operation::Boxes => 4,
            Operation::Probabilities => 5,
        }
    }

    /// The operation at a place of the resolution order, if there is one.
    pub fn at(index: usize) -> (found: Option<Operation>)
        ensures
            found == Operation::at_spec(index as int),
            found is Some <==> index < OPERATION_COUNT,
    {
        if index == 0 {
            Some(Operation::MinSize)
        } else if index == 1 {
            Some(Operation::Thresholds)
        } else if index == 2 {
            Some(Operation::Factor)
        } else if index == 3 {
            Some(Operation::Input)
        } else if index == 4 {
            Some(Operation::Boxes)
        } else if index == 5 {
            Some(Operation::Probabilities)
        } else {
            None
        }
    }

    /// A value is bound to the operation before the graph runs.
    pub fn is_feed(&self) -> (feed: bool)
        ensures
            feed == self.is_feed_spec(),
    {
        self.index() < 4
    }

    /// The value of the operation is asked for after the graph has run.
    pub fn is_fetch(&self) -> (fetch: bool)
        ensures
            fetch == self.is_fetch_spec(),
    {
        self.index() >= 4
    }
}

/// The operations in the order in which they are resolved: the three
/// hyperparameters, the image, then the two outputs.
pub open spec fn required_operations_spec() -> Seq<Operation> {
    seq![
        Operation::MinSize,
        Operation::Thresholds,
        Operation::Factor,
        Operation::Input,
        Operation::Boxes,
        Operation::Probabilities,
    ]
}

/// The operations in the order in which they are resolved.
pub fn required_operations() -> (operations: Vec<Operation>)
    ensures
        operations@ == required_operations_spec(),
{
    let mut operations: Vec<Operation> = Vec::new();
    operations.push(Operation::MinSize);
    operations.push(Operation::Thresholds);
    operations.push(Operation::Factor);
    operations.push(Operation::Input);
    operations.push(Operation::Boxes);
    operations.push(Operation::Probabilities);
    assert(operations@ =~= required_operations_spec());
    operations
}

/// `index` and `at` are inverse to each other: each operation has one place
/// in the resolution order and each place below the count has one operation.
pub proof fn lemma_index_and_at_are_inverse(operation: Operation, index: int)
    ensures
        Operation::at_spec(operation.index_spec()) == Some(operation),
        0 <= operation.index_spec() < OPERATION_COUNT,
        required_operations_spec()[operation.index_spec()] == operation,
        Operation::at_spec(index) matches Some(found) ==> found.index_spec() == index,
        Operation::at_spec(index) is Some <==> 0 <= index < OPERATION_COUNT,
{
}

/// Every operation is either fed or fetched, never both.
pub proof fn lemma_fed_or_fetched(operation: Operation)
    ensures
        operation.is_feed_spec() != operation.is_fetch_spec(),
{
}

/// No two operations share a name, so a lookup by name cannot confuse them.
pub proof fn lemma_names_are_distinct(a: Operation, b: Operation)
    requires
        a.name_spec() == b.name_spec(),
    ensures
        a == b,
{
    reveal_strlit("min_size");
    reveal_strlit("thresholds");
    reveal_strlit("factor");
    reveal_strlit("input");
    reveal_strlit("box");
    reveal_strlit("prob");
    assert("min_size"@.len() == 8);
    assert("thresholds"@.len() == 10);
    assert("factor"@.len() == 6);
    assert("input"@.len() == 5);
    assert("box"@.len() == 3);
    assert("prob"@.len() == 4);
}

/// The hyperparameters of a run, each held in thousandths, so that a scale
/// factor of 0.709 is the whole number 709.
#[derive(Clone, Copy, Debug, PartialEq, Eq)]
pub struct Hyperparameters {
    /// The smallest face that is looked for, in thousandths of a pixel.
    pub min_size: u32,
    /// The thresholds of the three stages of the cascade, in thousandths.
    pub thresholds: [u32; 3],
    /// The scale factor of the image pyramid, in thousandths.
    pub factor: u32,
}

/// How many thousandths make one.
pub const THOUSANDTHS: u32 = 1000;

impl Hyperparameters {
    /// The hyperparameters of the pipeline: faces of 40 pixels and more,
    /// thresholds 0.6, 0.7 and 0.7, and a scale factor of 0.709.
    pub open spec fn standard_spec(self) -> bool {
        &&& self.min_size == 40_000
        &&& self.thresholds@ == seq![600u32, 700u32, 700u32]
        &&& self.factor == 709
    }

    /// The hyperparameters of the pipeline.
    pub fn standard() -> (parameters: Hyperparameters)
        ensures
            parameters.standard_spec(),
    {
        let thresholds: [u32; 3] = [600, 700, 700];
        assert(thresholds@ =~= seq![600u32, 700u32, 700u32]);
        Hyperparameters { min_size: 40_000, thresholds, factor: 709 }
    }
}

} // verus!
