//! The burn layers of the model, described by the sizes they are built with,
//! and the shapes they map their inputs to.
use vstd::prelude::*;
use crate::shape::{conv_output_size, conv_output_size_spec};

verus! {

/// A 2-d convolution with valid padding and unit dilation (burn's
/// `Conv2dConfig` defaults), as the patch embedding builds it.
#[derive(Clone, Copy, Debug)]
pub struct Conv2dLayout {
    /// `[channels_in, channels_out]`.
    pub channels: [usize; 2],
    /// `[kernel_height, kernel_width]`.
    pub kernel_size: [usize; 2],
    /// `[stride_height, stride_width]`.
    pub stride: [usize; 2],
    /// Number of channel groups; the weight has shape
    /// `[channels_out, channels_in / groups, kernel_height, kernel_width]`.
    pub groups: usize,
    /// Whether the convolution adds a bias of `channels_out` values.
    pub bias: bool,
}

impl Conv2dLayout {
    /// Input channels the weight expects: `(channels_in / groups) * groups`.
    pub open spec fn weight_channels(self) -> int {
        (self.channels[0] / self.groups) * self.groups
    }

    /// Whether `conv2d` accepts an input of shape `[batch, channels, height, width]`:
    /// the channels match the weight's (burn checks this), and the kernel fits
    /// in both spatial axes (else the output-size arithmetic underflows).
    pub open spec fn admits(self, input: Seq<usize>) -> bool {
        &&& input.len() == 4
        &&& self.groups > 0
        &&& input[1] == self.weight_channels()
        &&& self.stride[0] > 0
        &&& self.stride[1] > 0
        &&& 1 <= self.kernel_size[0] <= input[2]
        &&& 1 <= self.kernel_size[1] <= input[3]
    }

    /// Output length along one spatial axis with no padding and unit dilation.
    pub open spec fn axis_output(kernel_size: usize, stride: usize, size_in: usize) -> usize {
        conv_output_size_spec(kernel_size as int, stride as int, 0, 1, size_in as int) as usize
    }

    /// Output shape `[batch, channels_out, height_out, width_out]`.
    pub open spec fn output(self, input: Seq<usize>) -> Seq<usize> {
        seq![
            input[0],
            self.channels[1],
            Self::axis_output(self.kernel_size[0], self.stride[0], input[2]),
            Self::axis_output(self.kernel_size[1], self.stride[1], input[3]),
        ]
    }

    /// Decides `admits`.
    pub fn accepts(&self, input: [usize; 4]) -> (r: bool)
        ensures
            r == self.admits(input@),
    {
        if self.groups == 0 {
            return false;
        }
        let per_group: usize = self.channels[0] / self.groups;
        proof {
            vstd::arithmetic::div_mod::lemma_fundamental_div_mod(
                self.channels[0] as int,
                self.groups as int,
            );
            vstd::arithmetic::div_mod::lemma_mod_pos_bound(
                self.channels[0] as int,
                self.groups as int,
            );
            vstd::arithmetic::mul::lemma_mul_is_commutative(per_group as int, self.groups as int);
        }
        input[1] == per_group * self.groups && self.stride[0] > 0 && self.stride[1] > 0 && 1
            <= self.kernel_size[0] && self.kernel_size[0] <= input[2] && 1 <= self.kernel_size[1]
            && self.kernel_size[1] <= input[3]
    }

    /// Shape of the convolution's output.
    pub fn forward(&self, input: [usize; 4]) -> (out: [usize; 4])
        requires
            self.admits(input@),
        ensures
            out@ == self.output(input@),
    {
        let height: usize = conv_output_size(self.kernel_size[0], self.stride[0], 0, 1, input[2]);
        let width: usize = conv_output_size(self.kernel_size[1], self.stride[1], 0, 1, input[3]);
        let out: [usize; 4] = [input[0], self.channels[1], height, width];
        assert(out@ =~= self.output(input@));
        out
    }
}

/// A linear layer `d_input -> d_output`.
#[derive(Clone, Copy, Debug)]
pub struct LinearLayout {
    pub d_input: usize,
    pub d_output: usize,
    /// Whether the layer adds a bias of `d_output` values.
    pub bias: bool,
}

impl LinearLayout {
    /// Whether the layer takes a `[rows, features]` input: `features == d_input`.
    pub open spec fn admits(self, input: Seq<usize>) -> bool {
        input.len() == 2 && input[1] == self.d_input
    }

    /// Shape `[rows, d_output]` of the output.
    pub fn forward(&self, input: [usize; 2]) -> (out: [usize; 2])
        requires
            self.admits(input@),
        ensures
            out@ == seq![input@[0], self.d_output],
    {
        let out: [usize; 2] = [input[0], self.d_output];
        assert(out@ =~= seq![input@[0], self.d_output]);
        out
    }
}

/// A layer normalisation over the last axis, of size `d_model`.
#[derive(Clone, Copy, Debug)]
pub struct LayerNormLayout {
    pub d_model: usize,
    /// Whether the normalisation adds a learned bias (beta).
    pub bias: bool,
}

impl LayerNormLayout {
    /// Whether the layer takes a `[rows, features]` input: `features == d_model`.
    pub open spec fn admits(self, input: Seq<usize>) -> bool {
        input.len() == 2 && input[1] == self.d_model
    }

    /// The output has the input's shape.
    pub fn forward(&self, input: [usize; 2]) -> (out: [usize; 2])
        requires
            self.admits(input@),
        ensures
            out@ == input@,
    {
        let out: [usize; 2] = [input[0], input[1]];
        assert(out@ =~= input@);
        out
    }
}

/// A batch normalisation over `num_features` channels (axis 1).
#[derive(Clone, Copy, Debug)]
pub struct BatchNormLayout {
    pub num_features: usize,
}

impl BatchNormLayout {
    /// Whether the layer takes a `[batch, channels]` input: `channels == num_features`.
    pub open spec fn admits(self, input: Seq<usize>) -> bool {
        input.len() == 2 && input[1] == self.num_features
    }

    /// The output has the input's shape.
    pub fn forward(&self, input: [usize; 2]) -> (out: [usize; 2])
        requires
            self.admits(input@),
        ensures
            out@ == input@,
    {
        let out: [usize; 2] = [input[0], input[1]];
        assert(out@ =~= input@);
        out
    }
}

/// A stack of `n_layers` transformer encoder layers of width `d_model`,
/// feed-forward width `d_ff` and `n_heads` attention heads.
#[derive(Clone, Copy, Debug)]
pub struct TransformerEncoderLayout {
    pub d_model: usize,
    pub d_ff: usize,
    pub n_heads: usize,
    pub n_layers: usize,
    /// Whether each layer normalises before attention and feed-forward.
    pub norm_first: bool,
    /// IEEE-754 bit pattern of the dropout probability.
    pub dropout_bits: u64,
}

impl TransformerEncoderLayout {
    /// Whether the attention heads can split `d_model`: each head gets
    /// `d_model / n_heads` features, and the split `[batch, seq, n_heads, d_k]`
    /// must hold as many elements as `[batch, seq, d_model]` (for an empty
    /// batch it always does). With no layer there is no attention.
    pub open spec fn admits_batch(self, batch: usize) -> bool {
        ||| self.n_layers == 0
        ||| (0 < self.n_heads <= self.d_model && (self.d_model % self.n_heads == 0 || batch == 0))
    }

    /// Whether the encoder takes a `[batch, seq, features]` input.
    pub open spec fn admits(self, input: Seq<usize>) -> bool {
        input.len() == 3 && input[2] == self.d_model && self.admits_batch(input[0])
    }

    /// Decides `admits`.
    pub fn accepts(&self, input: [usize; 3]) -> (r: bool)
        ensures
            r == self.admits(input@),
    {
        input[2] == self.d_model && (self.n_layers == 0 || (0 < self.n_heads && self.n_heads
            <= self.d_model && (self.d_model % self.n_heads == 0 || input[0] == 0)))
    }

    /// The output has the input's shape.
    pub fn forward(&self, input: [usize; 3]) -> (out: [usize; 3])
        requires
            self.admits(input@),
        ensures
            out@ == input@,
    {
        let out: [usize; 3] = [input[0], input[1], input[2]];
        assert(out@ =~= input@);
        out
    }
}

} // verus!
