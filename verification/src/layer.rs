use vstd::prelude::*;
use crate::error::TrainError;

verus! {

/// Affine layer `y = W x + b` with `neurons_in` inputs and `neurons_out` outputs.
///
/// Its parameters are the weights followed by one bias per output.
#[derive(Clone, Copy, Debug, PartialEq, Eq, Structural)]
pub struct LinLayer {
    pub neurons_in: usize,
    pub neurons_out: usize,
}

/// Weighted-sum layer `y = W x`: an affine layer without bias.
#[derive(Clone, Copy, Debug, PartialEq, Eq, Structural)]
pub struct SumLayer {
    pub neurons_in: usize,
    pub neurons_out: usize,
}

/// Elementwise logistic layer; it has no parameters.
#[derive(Clone, Copy, Debug, PartialEq, Eq, Structural)]
pub struct SigmaLayer {
    pub size: usize,
}

/// Elementwise GELU layer; it has no parameters.
#[derive(Clone, Copy, Debug, PartialEq, Eq, Structural)]
pub struct GeLULayer {
    pub size: usize,
}

/// Softmax layer; it has no parameters.
#[derive(Clone, Copy, Debug, PartialEq, Eq, Structural)]
pub struct SoftMaxLayer {
    pub size: usize,
}

impl LinLayer {
    pub fn new(neurons_in: usize, neurons_out: usize) -> (layer: Self)
        ensures
            layer.neurons_in == neurons_in,
            layer.neurons_out == neurons_out,
    {
        LinLayer { neurons_in, neurons_out }
    }
}

impl SumLayer {
    pub fn new(neurons_in: usize, neurons_out: usize) -> (layer: Self)
        ensures
            layer.neurons_in == neurons_in,
            layer.neurons_out == neurons_out,
    {
        SumLayer { neurons_in, neurons_out }
    }
}

impl SigmaLayer {
    pub fn new(size: usize) -> (layer: Self)
        ensures
            layer.size == size,
    {
        SigmaLayer { size }
    }
}

impl GeLULayer {
    pub fn new(size: usize) -> (layer: Self)
        ensures
            layer.size == size,
    {
        GeLULayer { size }
    }
}

impl SoftMaxLayer {
    pub fn new(size: usize) -> (layer: Self)
        ensures
            layer.size == size,
    {
        SoftMaxLayer { size }
    }
}

/// One entry of a layer's parameter Jacobian (output with respect to the
/// layer's own parameters), told by where its value comes from.
#[derive(Clone, Copy, Debug, PartialEq, Eq, Structural)]
pub enum Entry {
    /// The entry is zero.
    Zero,
    /// The entry is one.
    One,
    /// The entry is the given component of the vector fed into the layer.
    Input(usize),
}

/// One entry of a layer's chain element (output with respect to input), told
/// by where its value comes from.
#[derive(Clone, Copy, Debug, PartialEq, Eq, Structural)]
pub enum ChainEntry {
    /// The entry is zero.
    Zero,
    /// The entry is the parameter at this index of the layer's slice.
    Param(usize),
    /// The entry is the derivative of the activation at this component.
    Slope(usize),
    /// The entry couples the outputs with these two indices, as the softmax
    /// derivative does.
    Coupled(usize, usize),
}

/// A layer of a network: one of the five kinds, with its dimensions.
#[derive(Clone, Copy, Debug, PartialEq, Eq, Structural)]
pub enum Layer {
    Lin(LinLayer),
    Sum(SumLayer),
    Sigma(SigmaLayer),
    GeLU(GeLULayer),
    SoftMax(SoftMaxLayer),
}

impl Layer {
    /// Length of the vector that the layer takes.
    pub open spec fn spec_neurons_in(self) -> nat {
        match self {
            Layer::Lin(l) => l.neurons_in as nat,
            Layer::Sum(l) => l.neurons_in as nat,
            Layer::Sigma(l) => l.size as nat,
            Layer::GeLU(l) => l.size as nat,
            Layer::SoftMax(l) => l.size as nat,
        }
    }

    /// Length of the vector that the layer gives.
    pub open spec fn spec_neurons_out(self) -> nat {
        match self {
            Layer::Lin(l) => l.neurons_out as nat,
            Layer::Sum(l) => l.neurons_out as nat,
            Layer::Sigma(l) => l.size as nat,
            Layer::GeLU(l) => l.size as nat,
            Layer::SoftMax(l) => l.size as nat,
        }
    }

    /// Number of weights of the layer: one per pair of input and output for the
    /// affine kinds, none for the others.
    pub open spec fn spec_weights_cnt(self) -> nat {
        match self {
            Layer::Lin(l) => (l.neurons_in as nat) * (l.neurons_out as nat),
            Layer::Sum(l) => (l.neurons_in as nat) * (l.neurons_out as nat),
            _ => 0,
        }
    }

    /// Number of parameters that the layer owns.
    pub open spec fn spec_params_cnt(self) -> nat {
        match self {
            Layer::Lin(l) => self.spec_weights_cnt() + l.neurons_out as nat,
            _ => self.spec_weights_cnt(),
        }
    }

    /// What stands at (`row`, `col`) of the layer's parameter Jacobian.
    ///
    /// A linear layer has the input component `j` in row `i` at column
    /// `i * neurons_in + j`, and a one in row `i` at the column of bias `i`.
    /// A sum layer has the input component `i` in row `j` at column
    /// `i * neurons_out + j`. Every other entry is zero.
    pub open spec fn spec_chain_end_entry(self, row: nat, col: nat) -> Entry {
        match self {
            Layer::Lin(l) => {
                if col < self.spec_weights_cnt() {
                    if col / (l.neurons_in as nat) == row {
                        Entry::Input((col % (l.neurons_in as nat)) as usize)
                    } else {
                        Entry::Zero
                    }
                } else if col - self.spec_weights_cnt() == row {
                    Entry::One
                } else {
                    Entry::Zero
                }
            },
            Layer::Sum(l) => {
                if col % (l.neurons_out as nat) == row {
                    Entry::Input((col / (l.neurons_out as nat)) as usize)
                } else {
                    Entry::Zero
                }
            },
            _ => Entry::Zero,
        }
    }

    /// The layer has a weight matrix.
    pub open spec fn is_affine(self) -> bool {
        self is Lin || self is Sum
    }

    /// Index, within the layer's slice, of the weight that takes input `col`
    /// to output `row`: the weight matrix is stored column by column.
    pub open spec fn spec_weight_index(self, row: nat, col: nat) -> nat {
        col * self.spec_neurons_out() + row
    }

    /// Index, within a linear layer's slice, of the bias of output `row`: the
    /// biases follow the weights.
    pub open spec fn spec_bias_index(self, row: nat) -> nat {
        self.spec_weights_cnt() + row
    }

    /// What stands at (`row`, `col`) of the layer's chain element.
    ///
    /// For the affine kinds it is the weight matrix. For the elementwise
    /// kinds it is diagonal, with the activation's derivative at each
    /// component. For softmax every entry couples two outputs.
    pub open spec fn spec_chain_element_entry(self, row: nat, col: nat) -> ChainEntry {
        match self {
            Layer::Lin(_) => ChainEntry::Param(self.spec_weight_index(row, col) as usize),
            Layer::Sum(_) => ChainEntry::Param(self.spec_weight_index(row, col) as usize),
            Layer::Sigma(_) => if row == col {
                ChainEntry::Slope(row as usize)
            } else {
                ChainEntry::Zero
            },
            Layer::GeLU(_) => if row == col {
                ChainEntry::Slope(row as usize)
            } else {
                ChainEntry::Zero
            },
            Layer::SoftMax(_) => ChainEntry::Coupled(row as usize, col as usize),
        }
    }

    pub fn neurons_in(&self) -> (n: usize)
        ensures
            n == self.spec_neurons_in(),
    {
        match self {
            Layer::Lin(l) => l.neurons_in,
            Layer::Sum(l) => l.neurons_in,
            Layer::Sigma(l) => l.size,
            Layer::GeLU(l) => l.size,
            Layer::SoftMax(l) => l.size,
        }
    }

    pub fn neurons_out(&self) -> (n: usize)
        ensures
            n == self.spec_neurons_out(),
    {
        match self {
            Layer::Lin(l) => l.neurons_out,
            Layer::Sum(l) => l.neurons_out,
            Layer::Sigma(l) => l.size,
            Layer::GeLU(l) => l.size,
            Layer::SoftMax(l) => l.size,
        }
    }

    /// The number of parameters of the layer, or `None` where that number does
    /// not fit the machine's index type.
    pub fn params_cnt(&self) -> (cnt: Option<usize>)
        ensures
            cnt.is_some() <==> self.spec_params_cnt() <= usize::MAX,
            cnt.is_some() ==> cnt.unwrap() == self.spec_params_cnt(),
    {
        match self {
            Layer::Lin(l) => match l.neurons_in.checked_mul(l.neurons_out) {
                Some(weights) => weights.checked_add(l.neurons_out),
                None => None,
            },
            Layer::Sum(l) => l.neurons_in.checked_mul(l.neurons_out),
            _ => Some(0),
        }
    }

    /// The kind's name, as it is listed in a network's description.
    pub open spec fn spec_name(self) -> Seq<char> {
        match self {
            Layer::Lin(_) => "LinLayer"@,
            Layer::Sum(_) => "SumLayer"@,
            Layer::Sigma(_) => "SigmaLayer"@,
            Layer::GeLU(_) => "GeLULayer"@,
            Layer::SoftMax(_) => "SoftMaxLayer"@,
        }
    }

    pub fn name(&self) -> (text: &'static str)
        ensures
            text@ == self.spec_name(),
    {
        match self {
            Layer::Lin(_) => "LinLayer",
            Layer::Sum(_) => "SumLayer",
            Layer::Sigma(_) => "SigmaLayer",
            Layer::GeLU(_) => "GeLULayer",
            Layer::SoftMax(_) => "SoftMaxLayer",
        }
    }

    /// Tells whether a parameter slice of `p_len` numbers and an input of
    /// `x_len` numbers are the sizes that the layer declares.
    pub fn check_shapes(&self, p_len: usize, x_len: usize) -> (res: Result<(), TrainError>)
        ensures
            res.is_ok() <==> p_len == self.spec_params_cnt() && x_len == self.spec_neurons_in(),
            res.is_err() ==> res == Err::<(), TrainError>(TrainError::ShapeMismatch),
    {
        match self.params_cnt() {
            Some(cnt) => {
                if p_len == cnt && x_len == self.neurons_in() {
                    Ok(())
                } else {
                    Err(TrainError::ShapeMismatch)
                }
            },
            None => Err(TrainError::ShapeMismatch),
        }
    }

    /// The entry at (`row`, `col`) of the layer's parameter Jacobian, which has
    /// `neurons_out` rows and one column per parameter.
    pub fn chain_end_entry(&self, row: usize, col: usize) -> (entry: Entry)
        requires
            row < self.spec_neurons_out(),
            col < self.spec_params_cnt(),
        ensures
            entry == self.spec_chain_end_entry(row as nat, col as nat),
            entry matches Entry::Input(j) ==> j < self.spec_neurons_in(),
    {
        match self {
            Layer::Lin(l) => {
                proof {
                    lemma_row_major_split(col as nat, l.neurons_in as nat, l.neurons_out as nat);
                }
                if l.neurons_in > 0 && col / l.neurons_in < l.neurons_out {
                    if col / l.neurons_in == row {
                        Entry::Input(col % l.neurons_in)
                    } else {
                        Entry::Zero
                    }
                } else if col - l.neurons_in * l.neurons_out == row {
                    Entry::One
                } else {
                    Entry::Zero
                }
            },
            Layer::Sum(l) => {
                proof {
                    lemma_row_major_split(col as nat, l.neurons_out as nat, l.neurons_in as nat);
                }
                if col % l.neurons_out == row {
                    Entry::Input(col / l.neurons_out)
                } else {
                    Entry::Zero
                }
            },
            _ => Entry::Zero,
        }
    }
    /// The one entry of column `col` of the layer's parameter Jacobian that is
    /// not zero: its row, and what stands there.
    pub fn chain_end_column(&self, col: usize) -> (found: (usize, Entry))
        requires
            col < self.spec_params_cnt(),
        ensures
            found.0 < self.spec_neurons_out(),
            found.1 != Entry::Zero,
            found.1 == self.spec_chain_end_entry(found.0 as nat, col as nat),
            found.1 matches Entry::Input(j) ==> j < self.spec_neurons_in(),
            forall|row: nat|
                row != found.0 ==> #[trigger] self.spec_chain_end_entry(row, col as nat)
                    == Entry::Zero,
    {
        match self {
            Layer::Lin(l) => {
                proof {
                    lemma_row_major_split(col as nat, l.neurons_in as nat, l.neurons_out as nat);
                }
                if l.neurons_in > 0 && col / l.neurons_in < l.neurons_out {
                    (col / l.neurons_in, Entry::Input(col % l.neurons_in))
                } else {
                    (col - l.neurons_in * l.neurons_out, Entry::One)
                }
            },
            Layer::Sum(l) => {
                proof {
                    lemma_row_major_split(col as nat, l.neurons_out as nat, l.neurons_in as nat);
                    assert((l.neurons_in as nat) * (l.neurons_out as nat) == (l.neurons_out as nat)
                        * (l.neurons_in as nat)) by (nonlinear_arith);
                }
                (col % l.neurons_out, Entry::Input(col / l.neurons_out))
            },
            // The other kinds have no parameters, so no column exists.
            _ => vstd::pervasive::unreached(),
        }
    }

    /// The index of the weight that takes input `col` to output `row`.
    pub fn weight_index(&self, row: usize, col: usize) -> (index: usize)
        requires
            self.is_affine(),
            row < self.spec_neurons_out(),
            col < self.spec_neurons_in(),
            self.spec_params_cnt() <= usize::MAX,
        ensures
            index == self.spec_weight_index(row as nat, col as nat),
            index < self.spec_weights_cnt(),
    {
        let neurons_out = self.neurons_out();
        proof {
            lemma_column_major_bound(
                row as nat,
                col as nat,
                neurons_out as nat,
                self.spec_neurons_in(),
            );
            assert(self.spec_weights_cnt() == self.spec_neurons_in() * self.spec_neurons_out());
        }
        col * neurons_out + row
    }

    /// The index of the bias of output `row` of a linear layer.
    pub fn bias_index(&self, row: usize) -> (index: usize)
        requires
            self is Lin,
            row < self.spec_neurons_out(),
            self.spec_params_cnt() <= usize::MAX,
        ensures
            index == self.spec_bias_index(row as nat),
            index < self.spec_params_cnt(),
    {
        match self {
            Layer::Lin(l) => l.neurons_in * l.neurons_out + row,
            _ => vstd::pervasive::unreached(),
        }
    }

    /// The entry at (`row`, `col`) of the layer's chain element, which has
    /// `neurons_out` rows and `neurons_in` columns.
    pub fn chain_element_entry(&self, row: usize, col: usize) -> (entry: ChainEntry)
        requires
            row < self.spec_neurons_out(),
            col < self.spec_neurons_in(),
            self.spec_params_cnt() <= usize::MAX,
        ensures
            entry == self.spec_chain_element_entry(row as nat, col as nat),
            entry matches ChainEntry::Param(index) ==> index < self.spec_weights_cnt(),
            entry matches ChainEntry::Slope(i) ==> i < self.spec_neurons_out(),
    {
        match self {
            Layer::Lin(_) => ChainEntry::Param(self.weight_index(row, col)),
            Layer::Sum(_) => ChainEntry::Param(self.weight_index(row, col)),
            Layer::Sigma(_) => if row == col {
                ChainEntry::Slope(row)
            } else {
                ChainEntry::Zero
            },
            Layer::GeLU(_) => if row == col {
                ChainEntry::Slope(row)
            } else {
                ChainEntry::Zero
            },
            Layer::SoftMax(_) => ChainEntry::Coupled(row, col),
        }
    }
}

/// A position below `width * height` splits into a quotient below `height`
/// and a remainder below `width`; a position from `width * height` on has a
/// quotient of at least `height`.
pub proof fn lemma_row_major_split(pos: nat, width: nat, height: nat)
    ensures
        width > 0 && pos < width * height ==> pos / width < height && pos % width < width,
        width > 0 && pos >= width * height ==> pos / width >= height,
        width == 0 ==> width * height == 0,
{
    if width > 0 {
        vstd::arithmetic::div_mod::lemma_fundamental_div_mod(pos as int, width as int);
        let q = pos / width;
        let r = pos % width;
        assert(0 <= r < width);
        if pos < width * height {
            if q >= height {
                assert(width * q >= width * height) by (nonlinear_arith)
                    requires
                        q >= height,
                        width > 0,
                ;
            }
        } else {
            if q < height {
                assert(width * (q + 1) <= width * height) by (nonlinear_arith)
                    requires
                        q + 1 <= height,
                        width > 0,
                ;
                assert(width * (q + 1) == width * q + width) by (nonlinear_arith);
            }
        }
    } else {
        assert(width * height == 0) by (nonlinear_arith)
            requires
                width == 0,
        ;
    }
}

/// In a matrix with `height` rows and `width` columns that is stored column
/// by column, the entry at (`row`, `col`) lies within the storage.
pub proof fn lemma_column_major_bound(row: nat, col: nat, height: nat, width: nat)
    requires
        row < height,
        col < width,
    ensures
        col * height + row < width * height,
{
    assert(col * height + row < width * height) by (nonlinear_arith)
        requires
            row < height,
            col + 1 <= width,
    ;
}

/// In a sum layer the derivative of the outputs with respect to a weight
/// stands where the weight is stored: the column of the parameter Jacobian
/// at the index of the weight from input `col` to output `row` holds input
/// `col` in row `row`, and zero in every other row.
pub proof fn lemma_sum_weight_column(layer: SumLayer, row: nat, col: nat, other: nat)
    requires
        row < layer.neurons_out,
        col < layer.neurons_in,
    ensures
        Layer::Sum(layer).spec_weight_index(row, col) < Layer::Sum(layer).spec_params_cnt(),
        Layer::Sum(layer).spec_chain_end_entry(
            other,
            Layer::Sum(layer).spec_weight_index(row, col),
        ) == (if other == row {
            Entry::Input(col as usize)
        } else {
            Entry::Zero
        }),
{
    let height = layer.neurons_out as nat;
    lemma_column_major_bound(row, col, height, layer.neurons_in as nat);
    vstd::arithmetic::div_mod::lemma_fundamental_div_mod_converse(
        (col * height + row) as int,
        height as int,
        col as int,
        row as int,
    );
}

/// In a sum layer every column of the parameter Jacobian is the column of a
/// weight: column `col` belongs to the weight from input `col / neurons_out`
/// to output `col % neurons_out`.
pub proof fn lemma_sum_column_is_weight(layer: SumLayer, col: nat)
    requires
        col < Layer::Sum(layer).spec_params_cnt(),
    ensures
        col % (layer.neurons_out as nat) < layer.neurons_out,
        col / (layer.neurons_out as nat) < layer.neurons_in,
        Layer::Sum(layer).spec_weight_index(
            col % (layer.neurons_out as nat),
            col / (layer.neurons_out as nat),
        ) == col,
{
    let height = layer.neurons_out as nat;
    let width = layer.neurons_in as nat;
    assert(width * height == height * width) by (nonlinear_arith);
    lemma_row_major_split(col, height, width);
    vstd::arithmetic::div_mod::lemma_fundamental_div_mod(col as int, height as int);
    assert(height * (col / height) == (col / height) * height) by (nonlinear_arith);
}

/// In a linear layer the column of the parameter Jacobian at the index of
/// the bias of output `row` holds one in row `row`, and zero in every other
/// row.
pub proof fn lemma_lin_bias_column(layer: LinLayer, row: nat, other: nat)
    requires
        row < layer.neurons_out,
    ensures
        Layer::Lin(layer).spec_bias_index(row) < Layer::Lin(layer).spec_params_cnt(),
        Layer::Lin(layer).spec_chain_end_entry(other, Layer::Lin(layer).spec_bias_index(row)) == (
        if other == row {
            Entry::One
        } else {
            Entry::Zero
        }),
{
}

/// In a linear layer the derivative of the outputs with respect to a weight
/// stands where the weight is stored, for every weight whose index counted
/// column by column is also its index counted row by row: the column of the
/// parameter Jacobian at the index of the weight from input `col` to output
/// `row` then holds input `col` in row `row`, and zero in every other row.
/// In a layer with a single input or a single output these are all weights.
pub proof fn lemma_lin_weight_column(layer: LinLayer, row: nat, col: nat, other: nat)
    requires
        row < layer.neurons_out,
        col < layer.neurons_in,
        col * layer.neurons_out + row == row * layer.neurons_in + col,
    ensures
        Layer::Lin(layer).spec_weight_index(row, col) < Layer::Lin(layer).spec_weights_cnt(),
        Layer::Lin(layer).spec_chain_end_entry(
            other,
            Layer::Lin(layer).spec_weight_index(row, col),
        ) == (if other == row {
            Entry::Input(col as usize)
        } else {
            Entry::Zero
        }),
{
    let height = layer.neurons_out as nat;
    let width = layer.neurons_in as nat;
    lemma_column_major_bound(row, col, height, width);
    assert(width * height == height * width) by (nonlinear_arith);
    vstd::arithmetic::div_mod::lemma_fundamental_div_mod_converse(
        (row * width + col) as int,
        width as int,
        row as int,
        col as int,
    );
}

/// In a linear layer with a single input or a single output every weight has
/// the same index counted column by column and row by row.
pub proof fn lemma_lin_thin_layer_indices(layer: LinLayer, row: nat, col: nat)
    requires
        row < layer.neurons_out,
        col < layer.neurons_in,
        layer.neurons_in == 1 || layer.neurons_out == 1,
    ensures
        col * layer.neurons_out + row == row * layer.neurons_in + col,
{
    if layer.neurons_in == 1 {
        assert(col * layer.neurons_out + row == row * layer.neurons_in + col) by (nonlinear_arith)
            requires
                col == 0,
                layer.neurons_in == 1,
        ;
    } else {
        assert(col * layer.neurons_out + row == row * layer.neurons_in + col) by (nonlinear_arith)
            requires
                row == 0,
                layer.neurons_out == 1,
        ;
    }
}

} // verus!
