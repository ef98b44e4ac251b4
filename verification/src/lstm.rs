//! The shape of a stacked LSTM: what each layer reads and how wide its gates
//! are. The tensors themselves are not held here.

use vstd::prelude::*;

verus! {

/// The shape of a stacked LSTM.
#[derive(Debug, Clone)]
pub struct LstmConfig {
    /// Width of the input features.
    pub input_size: usize,
    /// Width of the hidden state.
    pub hidden_size: usize,
    /// Number of stacked layers.
    pub num_layers: usize,
    /// Whether the gates carry bias terms.
    pub bias: bool,
    /// Whether input comes as (batch, sequence, features) rather than
    /// (sequence, batch, features).
    pub batch_first: bool,
}

impl Default for LstmConfig {
    fn default() -> (config: LstmConfig)
        ensures
            config == (LstmConfig {
                input_size: 128,
                hidden_size: 256,
                num_layers: 1,
                bias: true,
                batch_first: true,
            }),
    {
        LstmConfig { input_size: 128, hidden_size: 256, num_layers: 1, bias: true, batch_first: true }
    }
}

/// The shape of the cell at `layer`: the first layer reads the input, every
/// layer above reads the hidden state of the one below.
pub open spec fn layer_shape(config: LstmConfig, layer: int) -> LstmConfig {
    LstmConfig {
        input_size: if layer == 0 {
            config.input_size
        } else {
            config.hidden_size
        },
        hidden_size: config.hidden_size,
        num_layers: config.num_layers,
        bias: config.bias,
        batch_first: config.batch_first,
    }
}

/// An input's dimensions in the order (sequence, batch, features).
pub open spec fn time_major(batch_first: bool, dims: [usize; 3]) -> (usize, usize, usize) {
    if batch_first {
        (dims[1], dims[0], dims[2])
    } else {
        (dims[0], dims[1], dims[2])
    }
}

impl LstmConfig {
    /// The shape of the cell at `layer`.
    pub fn layer_config(&self, layer: usize) -> (cell: LstmConfig)
        ensures
            cell == layer_shape(*self, layer as int),
    {
        LstmConfig {
            input_size: if layer == 0 {
                self.input_size
            } else {
                self.hidden_size
            },
            hidden_size: self.hidden_size,
            num_layers: self.num_layers,
            bias: self.bias,
            batch_first: self.batch_first,
        }
    }

    /// The shapes of all cells, from the first layer up.
    pub fn layer_configs(&self) -> (cells: Vec<LstmConfig>)
        ensures
            cells@.len() == self.num_layers,
            forall|layer: int|
                0 <= layer < self.num_layers ==> #[trigger] cells@[layer] == layer_shape(
                    *self,
                    layer,
                ),
    {
        let mut cells: Vec<LstmConfig> = Vec::new();
        let mut layer: usize = 0;
        while layer < self.num_layers
            invariant
                layer <= self.num_layers,
                cells@.len() == layer,
                forall|below: int|
                    0 <= below < layer ==> #[trigger] cells@[below] == layer_shape(*self, below),
            decreases self.num_layers - layer,
        {
            cells.push(self.layer_config(layer));
            layer = layer + 1;
        }
        cells
    }

    /// The width of the four gates of a cell, side by side.
    pub fn gate_width(&self) -> (width: usize)
        requires
            4 * self.hidden_size <= usize::MAX,
        ensures
            width == 4 * self.hidden_size,
    {
        4 * self.hidden_size
    }

}

/// An input's dimensions as (sequence, batch, features), whichever way it
/// came.
pub fn sequence_dims(batch_first: bool, dims: [usize; 3]) -> (ordered: (usize, usize, usize))
    ensures
        ordered == time_major(batch_first, dims),
{
    if batch_first {
        (dims[1], dims[0], dims[2])
    } else {
        (dims[0], dims[1], dims[2])
    }
}

} // verus!
