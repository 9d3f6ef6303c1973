use vstd::prelude::*;
use crate::error::TrainError;
use crate::layer::Layer;

verus! {

/// Number of parameters owned by the first `k` layers: the offset at which
/// the slice of layer `k` starts in the parameter vector.
pub open spec fn params_before(layers: Seq<Layer>, k: nat) -> nat
    recommends
        k <= layers.len(),
    decreases k,
{
    if k == 0 {
        0
    } else {
        params_before(layers, (k - 1) as nat) + layers[k - 1].spec_params_cnt()
    }
}

/// Number of parameters of the whole network.
pub open spec fn total_params(layers: Seq<Layer>) -> nat {
    params_before(layers, layers.len())
}

/// Layer `k` takes as many numbers as the layer before it gives.
pub open spec fn fits_previous(layers: Seq<Layer>, k: int) -> bool
    recommends
        0 < k < layers.len(),
{
    layers[k].spec_neurons_in() == layers[k - 1].spec_neurons_out()
}

/// Every layer gives as many numbers as the next one takes.
pub open spec fn chained(layers: Seq<Layer>) -> bool {
    forall|k: int| 0 < k < layers.len() ==> #[trigger] fits_previous(layers, k)
}

/// A list of layers makes a network when it is not empty, adjacent layers
/// fit, and a parameter vector for it can be indexed on this machine.
pub open spec fn legal(layers: Seq<Layer>) -> bool {
    &&& 0 < layers.len() <= usize::MAX
    &&& chained(layers)
    &&& total_params(layers) <= usize::MAX
}

/// How far the derivative protocol has come since the last forward pass.
#[derive(Clone, Copy, Debug, PartialEq, Eq, Structural)]
pub enum Stage {
    /// No forward pass was made yet.
    Fresh,
    /// A forward pass was made; the layers hold its signals.
    Forwarded,
    /// A backward pass followed the forward pass; derivatives can be read.
    Ready,
}

/// Where the vector comes from that was fed into a layer in the forward pass.
#[derive(Clone, Copy, Debug, PartialEq, Eq, Structural)]
pub enum InputSource {
    /// The network's own input.
    NetworkInput,
    /// The signal that the layer with this index kept.
    SignalOf(usize),
}

/// One step of the reverse chain accumulation that assembles the network
/// Jacobian: the contribution of one layer's parameters.
#[derive(Clone, Copy, Debug, PartialEq, Eq, Structural)]
pub struct JacobianStep {
    /// Index of the layer whose parameter Jacobian is taken.
    pub layer: usize,
    /// The vector at which that parameter Jacobian is evaluated.
    pub input: InputSource,
    /// First column of the network Jacobian that the contribution fills.
    pub column_offset: usize,
    /// Number of columns that it fills: the layer's parameter count.
    pub columns: usize,
    /// Number of columns of the accumulated chain when this step is made:
    /// the layer's output size.
    pub chain_cols: usize,
}

/// The step that places the parameters of layer `k`.
pub open spec fn spec_step(layers: Seq<Layer>, k: nat) -> JacobianStep
    recommends
        k < layers.len(),
{
    JacobianStep {
        layer: k as usize,
        input: if k == 0 {
            InputSource::NetworkInput
        } else {
            InputSource::SignalOf((k - 1) as usize)
        },
        column_offset: params_before(layers, k) as usize,
        columns: layers[k as int].spec_params_cnt() as usize,
        chain_cols: layers[k as int].spec_neurons_out() as usize,
    }
}

/// The steps of the accumulation, from the last layer to the first.
pub open spec fn spec_plan(layers: Seq<Layer>) -> Seq<JacobianStep> {
    Seq::new(layers.len(), |i: int| spec_step(layers, (layers.len() - 1 - i) as nat))
}

/// The kind names of the first `k` layers, each in double quotes, separated
/// by a comma and a space.
pub open spec fn spec_names(layers: Seq<Layer>, k: nat) -> Seq<char>
    recommends
        k <= layers.len(),
    decreases k,
{
    if k == 0 {
        Seq::empty()
    } else if k == 1 {
        "\""@ + layers[0].spec_name() + "\""@
    } else {
        spec_names(layers, (k - 1) as nat) + ", "@ + "\""@ + layers[k - 1].spec_name() + "\""@
    }
}

/// The description of a network: its kind names in composition order, in
/// square brackets.
pub open spec fn spec_layers_info(layers: Seq<Layer>) -> Seq<char> {
    "["@ + spec_names(layers, layers.len()) + "]"@
}

/// An ordered chain of layers with the layout of its parameter vector.
#[derive(Debug)]
pub struct Network {
    layers: Vec<Layer>,
    offsets: Vec<usize>,
    stage: Stage,
}

impl Network {
    /// The layers in composition order.
    pub closed spec fn layers(&self) -> Seq<Layer> {
        self.layers@
    }

    /// The stored slice boundaries: one per layer, and the total.
    pub closed spec fn offsets(&self) -> Seq<usize> {
        self.offsets@
    }

    /// The stage of the derivative protocol.
    pub closed spec fn stage(&self) -> Stage {
        self.stage
    }

    /// The layers make a legal network and the stored boundaries are the
    /// running sums of their parameter counts.
    pub open spec fn wf(&self) -> bool {
        &&& legal(self.layers())
        &&& self.offsets().len() == self.layers().len() + 1
        &&& forall|k: int|
            0 <= k <= self.layers().len() ==> #[trigger] self.offsets()[k] == params_before(
                self.layers(),
                k as nat,
            )
    }

    /// The stage of the derivative protocol.
    pub fn current_stage(&self) -> (stage: Stage)
        ensures
            stage == self.stage(),
    {
        self.stage
    }

    /// Number of layers.
    pub fn layer_count(&self) -> (n: usize)
        requires
            self.wf(),
        ensures
            n == self.layers().len(),
            n > 0,
    {
        self.layers.len()
    }

    /// The layer at position `k`.
    pub fn layer(&self, k: usize) -> (l: Layer)
        requires
            self.wf(),
            k < self.layers().len(),
        ensures
            l == self.layers()[k as int],
    {
        self.layers[k]
    }

    /// Length of the parameter vector.
    pub fn params_cnt(&self) -> (n: usize)
        requires
            self.wf(),
        ensures
            n == total_params(self.layers()),
    {
        self.offsets[self.layers.len()]
    }

    /// Length of the vector that the network takes: that of its first layer.
    pub fn neurons_in(&self) -> (n: usize)
        requires
            self.wf(),
        ensures
            n == self.layers()[0].spec_neurons_in(),
    {
        self.layers[0].neurons_in()
    }

    /// Length of the vector that the network gives: that of its last layer.
    pub fn neurons_out(&self) -> (n: usize)
        requires
            self.wf(),
        ensures
            n == self.layers().last().spec_neurons_out(),
    {
        self.layers[self.layers.len() - 1].neurons_out()
    }

    /// The offset at which the slice of layer `k` starts; for `k` the number
    /// of layers, the length of the parameter vector.
    pub fn offset(&self, k: usize) -> (off: usize)
        requires
            self.wf(),
            k <= self.layers().len(),
        ensures
            off == params_before(self.layers(), k as nat),
    {
        self.offsets[k]
    }

    /// The half-open range of the parameter vector that layer `k` owns.
    pub fn slice_bounds(&self, k: usize) -> (bounds: (usize, usize))
        requires
            self.wf(),
            k < self.layers().len(),
        ensures
            bounds.0 == params_before(self.layers(), k as nat),
            bounds.1 == bounds.0 + self.layers()[k as int].spec_params_cnt(),
            bounds.1 <= total_params(self.layers()),
    {
        let n = self.layers.len();
        proof {
            lemma_offsets_monotone(self.layers(), (k + 1) as nat, n as nat);
        }
        (self.offsets[k], self.offsets[k + 1])
    }

    /// The layer that owns column `column` of the network Jacobian, that is
    /// parameter `column` of the parameter vector, and the parameter's index
    /// within that layer's slice.
    pub fn column_owner(&self, column: usize) -> (owner: (usize, usize))
        requires
            self.wf(),
            column < total_params(self.layers()),
        ensures
            owner.0 < self.layers().len(),
            owner.1 < self.layers()[owner.0 as int].spec_params_cnt(),
            params_before(self.layers(), owner.0 as nat) + owner.1 == column,
    {
        let n = self.layers.len();
        let mut k: usize = 0;
        while self.offsets[k + 1] <= column
            invariant
                self.wf(),
                n == self.layers().len(),
                k < n,
                column < total_params(self.layers()),
                params_before(self.layers(), k as nat) <= column,
            decreases n - k,
        {
            k = k + 1;
        }
        (k, column - self.offsets[k])
    }

    /// Tells whether a stateless evaluation can be made with a parameter
    /// vector of `p_len` numbers and an input of `x_len` numbers. The network
    /// is left as it is.
    pub fn check_eval(&self, p_len: usize, x_len: usize) -> (res: Result<(), TrainError>)
        requires
            self.wf(),
        ensures
            res.is_ok() <==> p_len == total_params(self.layers()) && x_len
                == self.layers()[0].spec_neurons_in(),
            res.is_err() ==> res == Err::<(), TrainError>(TrainError::ShapeMismatch),
    {
        if p_len == self.params_cnt() && x_len == self.neurons_in() {
            Ok(())
        } else {
            Err(TrainError::ShapeMismatch)
        }
    }

    /// Records a forward pass made with a parameter vector of `p_len`
    /// numbers and an input of `x_len` numbers.
    ///
    /// With the declared sizes the layers hold the signals of this pass
    /// afterwards, and derivatives need a new backward pass. With other sizes
    /// the pass is refused and nothing changes.
    pub fn note_forward(&mut self, p_len: usize, x_len: usize) -> (res: Result<(), TrainError>)
        requires
            old(self).wf(),
        ensures
            final(self).wf(),
            final(self).layers() == old(self).layers(),
            res.is_ok() <==> p_len == total_params(old(self).layers()) && x_len == old(self).layers()[0].spec_neurons_in(),
            res.is_ok() ==> final(self).stage() == Stage::Forwarded,
            res.is_err() ==> res == Err::<(), TrainError>(TrainError::ShapeMismatch) && final(self).stage() == old(self).stage(),
    {
        match self.check_eval(p_len, x_len) {
            Ok(()) => {
                self.stage = Stage::Forwarded;
                Ok(())
            },
            Err(e) => Err(e),
        }
    }

    /// Records a backward pass made with a parameter vector of `p_len`
    /// numbers.
    ///
    /// A vector of another length is a shape mismatch. With the right length,
    /// a backward pass before any forward pass is a protocol violation. In
    /// both cases nothing changes. Otherwise derivatives can be read
    /// afterwards.
    pub fn note_backward(&mut self, p_len: usize) -> (res: Result<(), TrainError>)
        requires
            old(self).wf(),
        ensures
            final(self).wf(),
            final(self).layers() == old(self).layers(),
            res.is_ok() <==> p_len == total_params(old(self).layers()) && old(self).stage()
                != Stage::Fresh,
            res.is_ok() ==> final(self).stage() == Stage::Ready,
            res.is_err() ==> final(self).stage() == old(self).stage(),
            res.is_err() ==> res == Err::<(), TrainError>(
                if p_len != total_params(old(self).layers()) {
                    TrainError::ShapeMismatch
                } else {
                    TrainError::Protocol
                },
            ),
    {
        if p_len != self.params_cnt() {
            Err(TrainError::ShapeMismatch)
        } else if self.stage == Stage::Fresh {
            Err(TrainError::Protocol)
        } else {
            self.stage = Stage::Ready;
            Ok(())
        }
    }

    /// The steps that assemble the Jacobian of the network's output with
    /// respect to its parameters, for an input of `x_len` numbers.
    ///
    /// The steps run from the last layer to the first; each names the layer
    /// whose parameter Jacobian is multiplied into the accumulated chain, the
    /// vector that was fed into that layer, and the columns that the product
    /// fills. An input of another length is a shape mismatch; with the right
    /// length, a request that does not follow a forward and a backward pass
    /// is a protocol violation.
    pub fn jacobian_plan(&self, x_len: usize) -> (res: Result<Vec<JacobianStep>, TrainError>)
        requires
            self.wf(),
        ensures
            res.is_ok() <==> x_len == self.layers()[0].spec_neurons_in() && self.stage()
                == Stage::Ready,
            res matches Ok(plan) ==> plan@ == spec_plan(self.layers()),
            res matches Err(e) ==> e == if x_len != self.layers()[0].spec_neurons_in() {
                TrainError::ShapeMismatch
            } else {
                TrainError::Protocol
            },
    {
        if x_len != self.neurons_in() {
            return Err(TrainError::ShapeMismatch);
        }
        if self.stage != Stage::Ready {
            return Err(TrainError::Protocol);
        }
        let n = self.layers.len();
        let mut plan: Vec<JacobianStep> = Vec::new();
        let mut k: usize = n;
        while k > 0
            invariant
                self.wf(),
                n == self.layers().len(),
                k <= n,
                plan@.len() == n - k,
                forall|i: int|
                    0 <= i < plan@.len() ==> plan@[i] == spec_step(
                        self.layers(),
                        (n - 1 - i) as nat,
                    ),
            decreases k,
        {
            k = k - 1;
            let layer = self.layers[k];
            let input = if k == 0 {
                InputSource::NetworkInput
            } else {
                InputSource::SignalOf(k - 1)
            };
            let step = JacobianStep {
                layer: k,
                input,
                column_offset: self.offsets[k],
                columns: self.offsets[k + 1] - self.offsets[k],
                chain_cols: layer.neurons_out(),
            };
            plan.push(step);
        }
        assert(plan@ =~= spec_plan(self.layers()));
        Ok(plan)
    }

    /// A listing of the layer kinds in composition order.
    pub fn layers_info(&self) -> (text: String)
        requires
            self.wf(),
        ensures
            text@ == spec_layers_info(self.layers()),
    {
        let n = self.layers.len();
        let mut text = String::from_str("[");
        let ghost opening = text@;
        let mut k: usize = 0;
        while k < n
            invariant
                n == self.layers().len(),
                k <= n,
                opening == "["@,
                text@ == opening + spec_names(self.layers(), k as nat),
            decreases n - k,
        {
            if k > 0 {
                text.append(", ");
            }
            text.append("\"");
            text.append(self.layers[k].name());
            text.append("\"");
            k = k + 1;
            assert(text@ =~= opening + spec_names(self.layers(), k as nat));
        }
        text.append("]");
        text
    }
}

/// Composes a network from its layers in order.
///
/// The composition fails with a shape mismatch exactly when the list is
/// empty, when some layer gives another number of values than the next one
/// takes, or when the parameter counts add up to more than can be indexed.
/// Otherwise the network holds the layers as given, with every layer's slice
/// laid out behind the one before it, and no forward pass recorded.
pub fn neural_network(layers: Vec<Layer>) -> (res: Result<Network, TrainError>)
    ensures
        res.is_ok() <==> legal(layers@),
        res matches Ok(net) ==> net.wf() && net.layers() == layers@ && net.stage() == Stage::Fresh,
        res matches Err(e) ==> e == TrainError::ShapeMismatch,
{
    let n = layers.len();
    if n == 0 {
        return Err(TrainError::ShapeMismatch);
    }
    let mut offsets: Vec<usize> = Vec::new();
    offsets.push(0);
    let mut total: usize = 0;
    let mut k: usize = 0;
    while k < n
        invariant
            n == layers@.len(),
            k <= n,
            offsets@.len() == k + 1,
            total == params_before(layers@, k as nat),
            forall|i: int| 0 <= i <= k ==> #[trigger] offsets@[i] == params_before(layers@, i as nat),
            forall|i: int| 0 < i < k ==> #[trigger] fits_previous(layers@, i),
        decreases n - k,
    {
        if k > 0 && layers[k - 1].neurons_out() != layers[k].neurons_in() {
            assert(!fits_previous(layers@, k as int));
            return Err(TrainError::ShapeMismatch);
        }
        proof {
            lemma_offsets_monotone(layers@, (k + 1) as nat, n as nat);
        }
        let cnt = match layers[k].params_cnt() {
            Some(cnt) => cnt,
            None => {
                return Err(TrainError::ShapeMismatch);
            },
        };
        total = match total.checked_add(cnt) {
            Some(sum) => sum,
            None => {
                return Err(TrainError::ShapeMismatch);
            },
        };
        offsets.push(total);
        k = k + 1;
    }
    Ok(Network { layers, offsets, stage: Stage::Fresh })
}

/// Offsets never decrease along the chain.
pub proof fn lemma_offsets_monotone(layers: Seq<Layer>, i: nat, j: nat)
    requires
        i <= j,
    ensures
        params_before(layers, i) <= params_before(layers, j),
    decreases j,
{
    if i < j {
        lemma_offsets_monotone(layers, i, (j - 1) as nat);
    }
}

/// The parameter slices partition the parameter vector: the first starts at
/// zero, each starts where the one before it ends, and the last ends at the
/// network's parameter count, which is the sum of the layers' counts.
pub proof fn lemma_slices_partition(layers: Seq<Layer>, k: nat)
    requires
        k < layers.len(),
    ensures
        params_before(layers, 0) == 0,
        params_before(layers, k + 1) == params_before(layers, k) + layers[k as int].spec_params_cnt(),
        params_before(layers, k) <= params_before(layers, k + 1) <= total_params(layers),
        params_before(layers, layers.len()) == total_params(layers),
{
    lemma_offsets_monotone(layers, k + 1, layers.len());
}

/// The parameter slices do not overlap: a position of the parameter vector
/// belongs to one layer only, at one index of its slice.
pub proof fn lemma_column_owner_unique(layers: Seq<Layer>, k1: nat, j1: nat, k2: nat, j2: nat)
    requires
        k1 < layers.len(),
        k2 < layers.len(),
        j1 < layers[k1 as int].spec_params_cnt(),
        j2 < layers[k2 as int].spec_params_cnt(),
        params_before(layers, k1) + j1 == params_before(layers, k2) + j2,
    ensures
        k1 == k2,
        j1 == j2,
{
    if k1 < k2 {
        lemma_offsets_monotone(layers, k1 + 1, k2);
    } else if k2 < k1 {
        lemma_offsets_monotone(layers, k2 + 1, k1);
    }
}

/// The steps of the Jacobian assembly fill every column exactly once: step
/// `i` fills the slice of layer `len - 1 - i`, and the steps' column ranges
/// follow one another downwards from the parameter count to zero.
pub proof fn lemma_plan_tiles_columns(layers: Seq<Layer>, i: nat)
    requires
        legal(layers),
        i < layers.len(),
    ensures
        spec_plan(layers).len() == layers.len(),
        spec_plan(layers)[i as int].layer == layers.len() - 1 - i,
        spec_plan(layers)[i as int].column_offset + spec_plan(layers)[i as int].columns == (if i
            == 0 {
            total_params(layers)
        } else {
            spec_plan(layers)[i - 1].column_offset as nat
        }),
        i == layers.len() - 1 ==> spec_plan(layers)[i as int].column_offset == 0,
        i == layers.len() - 1 ==> spec_plan(layers)[i as int].input == InputSource::NetworkInput,
        i < layers.len() - 1 ==> (spec_plan(layers)[i as int].input matches InputSource::SignalOf(
            previous,
        ) && previous + 1 == spec_plan(layers)[i as int].layer),
{
    let n = layers.len();
    let k = (n - 1 - i) as nat;
    let plan = spec_plan(layers);
    assert(plan[i as int] == spec_step(layers, k));
    lemma_offsets_monotone(layers, k + 1, n);
    assert(params_before(layers, k + 1) == params_before(layers, k) + layers[k as int].spec_params_cnt());
    if i > 0 {
        assert(plan[i - 1] == spec_step(layers, k + 1));
    }
}

/// The shapes met in the Jacobian assembly fit: the accumulated chain
/// starts with as many columns as the network has outputs, and after the
/// step of a layer it has as many columns as that layer has inputs, which is
/// what the next step expects.
pub proof fn lemma_plan_chain_shapes(layers: Seq<Layer>, i: nat)
    requires
        legal(layers),
        i < layers.len(),
    ensures
        spec_plan(layers)[0].chain_cols == layers.last().spec_neurons_out(),
        i + 1 < layers.len() ==> spec_plan(layers)[(i + 1) as int].chain_cols
            == layers[spec_plan(layers)[i as int].layer as int].spec_neurons_in(),
{
    let n = layers.len();
    let plan = spec_plan(layers);
    assert(plan[0] == spec_step(layers, (n - 1) as nat));
    assert(plan[i as int] == spec_step(layers, (n - 1 - i) as nat));
    if i + 1 < n {
        assert(plan[(i + 1) as int] == spec_step(layers, (n - 2 - i) as nat));
        assert(fits_previous(layers, n - 1 - i));
    }
}

} // verus!
