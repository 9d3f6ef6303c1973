use vstd::prelude::*;
use crate::error::TrainError;
use crate::network::Network;
use crate::network::total_params;

verus! {

/// Every length in `lens` is `n`.
pub open spec fn all_have_len(lens: Seq<usize>, n: nat) -> bool {
    forall|i: int| 0 <= i < lens.len() ==> #[trigger] lens[i] == n
}

/// Tells whether every length in `lens` is `n`.
pub fn uniform_len(lens: &Vec<usize>, n: usize) -> (uniform: bool)
    ensures
        uniform == all_have_len(lens@, n as nat),
{
    let mut i: usize = 0;
    while i < lens.len()
        invariant
            i <= lens@.len(),
            forall|j: int| 0 <= j < i ==> #[trigger] lens@[j] == n,
        decreases lens@.len() - i,
    {
        if lens[i] != n {
            return false;
        }
        i = i + 1;
    }
    true
}

/// A trainer can be built for `network` from a parameter vector of `p_len`
/// numbers, inputs of the lengths `x_lens` and targets of the lengths
/// `d_lens`.
pub open spec fn trainable(network: Network, p_len: usize, x_lens: Seq<usize>, d_lens: Seq<usize>) -> bool {
    &&& p_len == total_params(network.layers())
    &&& x_lens.len() == d_lens.len()
    &&& all_have_len(x_lens, network.layers()[0].spec_neurons_in())
    &&& all_have_len(d_lens, network.layers().last().spec_neurons_out())
}

/// Checks what a trainer is given against the network.
///
/// A parameter vector of the wrong length is a shape mismatch. With the
/// right length, different numbers of inputs and targets are a protocol
/// violation. With equal numbers, an input or a target of the wrong length is
/// a shape mismatch.
pub fn check_training_set(
    network: &Network,
    p_len: usize,
    x_lens: &Vec<usize>,
    d_lens: &Vec<usize>,
) -> (res: Result<(), TrainError>)
    requires
        network.wf(),
    ensures
        res.is_ok() <==> trainable(*network, p_len, x_lens@, d_lens@),
        res matches Err(e) ==> e == if p_len == total_params(network.layers()) && x_lens@.len()
            != d_lens@.len() {
            TrainError::Protocol
        } else {
            TrainError::ShapeMismatch
        },
{
    if p_len != network.params_cnt() {
        Err(TrainError::ShapeMismatch)
    } else if x_lens.len() != d_lens.len() {
        Err(TrainError::Protocol)
    } else if uniform_len(x_lens, network.neurons_in()) && uniform_len(
        d_lens,
        network.neurons_out(),
    ) {
        Ok(())
    } else {
        Err(TrainError::ShapeMismatch)
    }
}

/// Checks that a step has one component per parameter, as adding it to the
/// parameter vector or taking it off again requires.
pub fn check_step(p_len: usize, step_len: usize) -> (res: Result<(), TrainError>)
    ensures
        res.is_ok() <==> p_len == step_len,
        res.is_err() ==> res == Err::<(), TrainError>(TrainError::ShapeMismatch),
{
    if p_len == step_len {
        Ok(())
    } else {
        Err(TrainError::ShapeMismatch)
    }
}

} // verus!
