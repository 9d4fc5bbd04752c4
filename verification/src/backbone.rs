//! The Vision Transformer backbone: image `[B, C, H, W]` to class-token
//! embedding `[B, D]`.
use vstd::prelude::*;
use vstd::arithmetic::div_mod::lemma_div_plus_one;
use crate::layers::{Conv2dLayout, TransformerEncoderLayout};
use crate::shape::{
    axis_broadcastable, broadcast, cat_middle, flatten_spatial, repeat_front, slice_prefix,
    squeeze_middle, swap_last_two, unsqueeze_front,
};

verus! {

/// Number of input channels when none is given.
pub const DEFAULT_NUM_CHANNELS: usize = 3;

/// IEEE-754 bit pattern of the default dropout probability, 0.1.
pub const DEFAULT_DROPOUT_BITS: u64 = 0x3FB9_9999_9999_999A;

/// Bit pattern of the `f64` value 1.0.
pub const ONE_BITS: u64 = 0x3FF0_0000_0000_0000;

/// Bit pattern of the `f64` value +infinity; above it (in each sign) lie the NaNs.
pub const INFINITY_BITS: u64 = 0x7FF0_0000_0000_0000;

/// Bit pattern of the `f64` value -0.0: the sign bit alone.
pub const SIGN_BIT: u64 = 0x8000_0000_0000_0000;

/// Whether the `f64` whose IEEE-754 bit pattern is `bits` passes burn's
/// dropout check `!(prob < 0.0 || prob > 1.0)`: it is in `[0, 1]`, or it is
/// a NaN (every comparison with a NaN is false), or it is -0.0.
pub open spec fn dropout_allowed(bits: u64) -> bool {
    if bits < SIGN_BIT {
        // Non-negative: above 1.0 and up to +infinity is too large.
        !(ONE_BITS < bits <= INFINITY_BITS)
    } else {
        // Negative: any magnitude from the smallest subnormal up to infinity is below 0.
        !(0 < bits - SIGN_BIT <= INFINITY_BITS)
    }
}

/// Decides `dropout_allowed`.
pub fn dropout_allowed_bits(bits: u64) -> (r: bool)
    ensures
        r == dropout_allowed(bits),
{
    if bits < SIGN_BIT {
        !(ONE_BITS < bits && bits <= INFINITY_BITS)
    } else {
        let magnitude: u64 = bits - SIGN_BIT;
        !(0 < magnitude && magnitude <= INFINITY_BITS)
    }
}

/// Configuration of the backbone.
#[derive(Clone, Copy, Debug)]
pub struct BackboneConfig {
    /// Input image size (height and width, e.g., 224).
    pub image_size: usize,
    /// The dimension of the hidden layers.
    pub hidden_dim: usize,
    /// The number of transformer layers.
    pub num_layers: usize,
    /// The number of attention heads.
    pub num_heads: usize,
    /// The dimension of the MLP layers.
    pub mlp_dim: usize,
    /// The size of each patch.
    pub patch_size: usize,
    /// The number of channels in the input images.
    pub num_channels: usize,
    /// IEEE-754 bit pattern of the dropout rate.
    pub dropout_bits: u64,
}

impl BackboneConfig {
    /// Patches along each side of the configured image.
    pub open spec fn patches_per_side(self) -> int {
        self.image_size as int / self.patch_size as int
    }

    /// Patches in the configured image.
    pub open spec fn num_patches(self) -> int {
        self.patches_per_side() * self.patches_per_side()
    }

    /// Whether a backbone can be built: the patch size is positive, the
    /// token sequence length `num_patches + 1` fits in `usize`, and, when
    /// there is a transformer layer, there is at least one attention head
    /// (each head's width is `hidden_dim / num_heads`) and the dropout rate
    /// passes burn's range check.
    pub open spec fn buildable(self) -> bool {
        &&& self.patch_size > 0
        &&& self.num_patches() + 1 <= usize::MAX
        &&& (self.num_layers == 0 || (self.num_heads > 0 && dropout_allowed(self.dropout_bits)))
    }

    /// Whether the attention heads split the hidden dimension evenly
    /// (vacuous without transformer layers).
    pub open spec fn heads_split(self) -> bool {
        ||| self.num_layers == 0
        ||| (0 < self.num_heads <= self.hidden_dim && self.hidden_dim % self.num_heads == 0)
    }

    /// A configuration with the given sizes, `DEFAULT_NUM_CHANNELS` channels and
    /// the default dropout.
    pub fn new(
        image_size: usize,
        hidden_dim: usize,
        num_layers: usize,
        num_heads: usize,
        mlp_dim: usize,
        patch_size: usize,
    ) -> (c: Self)
        ensures
            c.image_size == image_size,
            c.hidden_dim == hidden_dim,
            c.num_layers == num_layers,
            c.num_heads == num_heads,
            c.mlp_dim == mlp_dim,
            c.patch_size == patch_size,
            c.num_channels == DEFAULT_NUM_CHANNELS,
            c.dropout_bits == DEFAULT_DROPOUT_BITS,
    {
        BackboneConfig {
            image_size,
            hidden_dim,
            num_layers,
            num_heads,
            mlp_dim,
            patch_size,
            num_channels: DEFAULT_NUM_CHANNELS,
            dropout_bits: DEFAULT_DROPOUT_BITS,
        }
    }

    /// Decides `buildable`.
    pub fn can_build(&self) -> (r: bool)
        ensures
            r == self.buildable(),
    {
        if self.patch_size == 0 {
            return false;
        }
        let n_per_side: usize = self.image_size / self.patch_size;
        let fits: bool = match n_per_side.checked_mul(n_per_side) {
            Some(n) => n < usize::MAX,
            None => false,
        };
        fits && (self.num_layers == 0 || (self.num_heads > 0 && dropout_allowed_bits(
            self.dropout_bits,
        )))
    }

    /// The same configuration with `num_channels` input channels.
    pub fn with_num_channels(self, num_channels: usize) -> (c: Self)
        ensures
            c == (BackboneConfig { num_channels, ..self }),
    {
        BackboneConfig { num_channels, ..self }
    }

    /// The same configuration with the dropout rate whose bit pattern is `dropout_bits`.
    pub fn with_dropout_bits(self, dropout_bits: u64) -> (c: Self)
        ensures
            c == (BackboneConfig { dropout_bits, ..self }),
    {
        BackboneConfig { dropout_bits, ..self }
    }
}

/// The backbone's layers, by their sizes.
#[derive(Clone, Copy, Debug)]
pub struct Backbone {
    /// Patch embedding: a convolution whose kernel and stride are the patch size.
    pub patch_embed: Conv2dLayout,
    /// Shape of the class token, `[1, hidden_dim]`.
    pub cls_token: [usize; 2],
    /// Shape of the position embedding, `[1, num_patches + 1, hidden_dim]`.
    pub pos_embed: [usize; 3],
    /// The transformer encoder.
    pub transformer: TransformerEncoderLayout,
    pub hidden_dim: usize,
    pub num_patches: usize,
}

impl Backbone {
    /// Patch size of the embedding.
    pub open spec fn patch_size(self) -> usize {
        self.patch_embed.kernel_size[0]
    }

    /// The layers fit together.
    pub open spec fn wf(self) -> bool {
        let p = self.patch_size();
        &&& p > 0
        &&& self.patch_embed.kernel_size@ == seq![p, p]
        &&& self.patch_embed.stride@ == seq![p, p]
        &&& self.patch_embed.channels[1] == self.hidden_dim
        &&& self.cls_token@ == seq![1usize, self.hidden_dim]
        &&& self.num_patches + 1 <= usize::MAX
        &&& self.pos_embed@ == seq![1usize, (self.num_patches + 1) as usize, self.hidden_dim]
        &&& self.transformer.d_model == self.hidden_dim
    }

    /// The backbone is the one `config` describes.
    pub open spec fn built_from(self, config: BackboneConfig) -> bool {
        &&& self.wf()
        &&& self.patch_embed.channels@ == seq![config.num_channels, config.hidden_dim]
        &&& self.patch_size() == config.patch_size
        &&& self.patch_embed.groups == 1
        &&& self.patch_embed.bias
        &&& self.hidden_dim == config.hidden_dim
        &&& self.num_patches == config.num_patches()
        &&& self.transformer == TransformerEncoderLayout {
            d_model: config.hidden_dim,
            d_ff: config.mlp_dim,
            n_heads: config.num_heads,
            n_layers: config.num_layers,
            norm_first: true,
            dropout_bits: config.dropout_bits,
        }
    }

    /// Number of patch tokens the embedding makes of an admitted input.
    pub open spec fn token_count(self, input: Seq<usize>) -> int {
        let grid = self.patch_embed.output(input);
        grid[2] * grid[3]
    }

    /// Whether `forward` runs on an input of shape `[batch, channels, height, width]`:
    /// the patch embedding takes it, the token sequence (class token first)
    /// fits in `usize` and can be added to the position embedding, and the
    /// attention heads split the hidden dimension for this batch.
    pub open spec fn admits(self, input: Seq<usize>) -> bool {
        &&& self.patch_embed.admits(input)
        &&& self.token_count(input) + 1 <= usize::MAX
        &&& axis_broadcastable((self.token_count(input) + 1) as usize, self.pos_embed[1])
        &&& self.transformer.admits_batch(input[0])
    }

    /// Builds the backbone `config` describes: `image_size / patch_size`
    /// patches per side, `num_patches` patches, a sequence of
    /// `num_patches + 1` tokens, and a pre-norm transformer encoder.
    pub fn new(config: &BackboneConfig) -> (b: Backbone)
        requires
            config.buildable(),
        ensures
            b.built_from(*config),
            b.num_patches == config.patches_per_side() * config.patches_per_side(),
            b.pos_embed@[1] == b.num_patches + 1,
    {
        let n_per_side: usize = config.image_size / config.patch_size;
        let num_patches: usize = n_per_side * n_per_side;
        let seq_len: usize = num_patches + 1;
        let p: usize = config.patch_size;
        let patch_embed = Conv2dLayout {
            channels: [config.num_channels, config.hidden_dim],
            kernel_size: [p, p],
            stride: [p, p],
            groups: 1,
            bias: true,
        };
        let transformer = TransformerEncoderLayout {
            d_model: config.hidden_dim,
            d_ff: config.mlp_dim,
            n_heads: config.num_heads,
            n_layers: config.num_layers,
            norm_first: true,
            dropout_bits: config.dropout_bits,
        };
        let cls_token: [usize; 2] = [1, config.hidden_dim];
        let pos_embed: [usize; 3] = [1, seq_len, config.hidden_dim];
        let b = Backbone {
            patch_embed,
            cls_token,
            pos_embed,
            transformer,
            hidden_dim: config.hidden_dim,
            num_patches,
        };
        assert(b.patch_embed.kernel_size@ =~= seq![p, p]);
        assert(b.patch_embed.stride@ =~= seq![p, p]);
        assert(b.patch_embed.channels@ =~= seq![config.num_channels, config.hidden_dim]);
        assert(b.cls_token@ =~= seq![1usize, config.hidden_dim]);
        assert(b.pos_embed@ =~= seq![1usize, seq_len, config.hidden_dim]);
        b
    }

    /// Decides `admits`.
    pub fn accepts(&self, input: [usize; 4]) -> (r: bool)
        requires
            self.wf(),
        ensures
            r == self.admits(input@),
    {
        if !self.patch_embed.accepts(input) {
            return false;
        }
        let grid: [usize; 4] = self.patch_embed.forward(input);
        let tokens: usize = match grid[2].checked_mul(grid[3]) {
            Some(t) => t,
            None => {
                return false;
            },
        };
        if tokens == usize::MAX {
            return false;
        }
        let seq_len: usize = tokens + 1;
        let pos_len: usize = self.pos_embed[1];
        if !(seq_len == pos_len || seq_len == 1 || pos_len == 1) {
            return false;
        }
        self.transformer.accepts([input[0], seq_len, self.hidden_dim])
    }

    /// Shape of the class-token embedding for an image batch: the patch
    /// embedding's grid is flattened into tokens, the class token is
    /// repeated over the batch and put first, the position embedding is
    /// added, the sequence is encoded, and the first token is taken.
    pub fn forward(&self, input: [usize; 4]) -> (out: [usize; 2])
        requires
            self.wf(),
            self.admits(input@),
        ensures
            out@ == seq![input@[0], self.hidden_dim],
    {
        let batch_size: usize = input[0];
        let patches: [usize; 4] = self.patch_embed.forward(input);
        let tokens: [usize; 3] = swap_last_two(flatten_spatial(patches));
        let cls: [usize; 3] = repeat_front(unsqueeze_front(self.cls_token), batch_size);
        let sequence: [usize; 3] = cat_middle(cls, tokens);
        let sequence: [usize; 3] = broadcast(sequence, self.pos_embed);
        let encoded: [usize; 3] = self.transformer.forward(sequence);
        let first: [usize; 3] = slice_prefix(encoded, [batch_size, 1, self.hidden_dim]);
        squeeze_middle(first)
    }
}

/// Law: burn's dropout check on a rate that is finite and non-negative
/// (sign bit clear, below the pattern of +infinity): the rate is allowed
/// exactly when it is at most 1.0. For such patterns the bit order is the
/// numeric order, so every rate in `[0, 1]` is allowed and every rate above
/// 1.0 is refused.
pub proof fn lemma_dropout_nonnegative_finite(bits: u64)
    requires
        bits < INFINITY_BITS,
    ensures
        dropout_allowed(bits) <==> bits <= ONE_BITS,
{
}

/// Law: burn's dropout check on a negative rate: every negative rate from
/// the smallest subnormal down to -infinity is refused, while -0.0 and the
/// NaNs (of either sign) pass, since every comparison with them is false.
pub proof fn lemma_dropout_signed_and_nan(bits: u64)
    ensures
        SIGN_BIT < bits <= SIGN_BIT + INFINITY_BITS ==> !dropout_allowed(bits),
        bits == SIGN_BIT ==> dropout_allowed(bits),
        INFINITY_BITS < bits < SIGN_BIT ==> dropout_allowed(bits),
        SIGN_BIT + INFINITY_BITS < bits ==> dropout_allowed(bits),
        bits == INFINITY_BITS ==> !dropout_allowed(bits),
{
}

/// Law: the number of input channels never decides whether a backbone can
/// be built; the patch embedding takes any channel count.
pub proof fn lemma_buildable_ignores_channels(config: BackboneConfig, num_channels: usize)
    ensures
        (BackboneConfig { num_channels, ..config }).buildable() == config.buildable(),
{
}

/// Law: a backbone can be built from every configuration whose patch size is
/// positive, whose `(image_size / patch_size)^2 + 1` tokens fit in `usize`,
/// and which, when it has a transformer layer, has at least one attention
/// head and a dropout rate in `[0, 1]` (sign bit clear, pattern at most that
/// of 1.0), whatever its channel count, hidden and MLP widths.
pub proof fn lemma_buildable_when(config: BackboneConfig)
    requires
        config.patch_size > 0,
        (config.image_size / config.patch_size) * (config.image_size / config.patch_size) + 1
            <= usize::MAX,
        config.num_layers == 0 || (config.num_heads >= 1 && config.dropout_bits <= ONE_BITS),
    ensures
        config.buildable(),
{
}

/// Law: a configuration fixes the backbone: two backbones built from the
/// same configuration are equal.
pub proof fn lemma_backbone_built_from_unique(a: Backbone, b: Backbone, config: BackboneConfig)
    requires
        a.built_from(config),
        b.built_from(config),
    ensures
        a == b,
{
    broadcast use vstd::array::group_array_axioms;

    assert(a.patch_embed.channels =~= b.patch_embed.channels);
    assert(a.patch_embed.kernel_size =~= b.patch_embed.kernel_size);
    assert(a.patch_embed.stride =~= b.patch_embed.stride);
    assert(a.cls_token =~= b.cls_token);
    assert(a.pos_embed =~= b.pos_embed);
}

/// With a kernel and stride of `p`, a side of length `size >= p` is cut into
/// `size / p` patches.
pub proof fn lemma_patch_grid_axis(p: usize, size: usize)
    requires
        0 < p <= size,
    ensures
        Conv2dLayout::axis_output(p, p, size) == size / p,
        size / p >= 1,
{
    lemma_div_plus_one(size - p, p as int);
    assert((size + 2 * 0 - 1 * (p - 1) - 1) == size - p);
}

/// Law: an image batch of the configured size and channel count is accepted
/// by the backbone built from that configuration, for every batch size, when
/// a patch fits in the image and the heads split the hidden dimension.
pub proof fn lemma_configured_image_admitted(
    backbone: Backbone,
    config: BackboneConfig,
    batch: usize,
)
    requires
        backbone.built_from(config),
        config.patch_size <= config.image_size,
        config.heads_split(),
    ensures
        backbone.admits(seq![batch, config.num_channels, config.image_size, config.image_size]),
{
    let input = seq![batch, config.num_channels, config.image_size, config.image_size];
    lemma_patch_grid_axis(config.patch_size, config.image_size);
    let grid = backbone.patch_embed.output(input);
    assert(grid[2] == config.patches_per_side());
    assert(grid[3] == config.patches_per_side());
    assert(backbone.token_count(input) == config.num_patches());
}

/// Law: when a patch fits in the configured image and the heads split the
/// hidden dimension, the backbone accepts exactly the images with the
/// configured channel count, sides of at least one patch, and as many
/// patches (`(height / p) * (width / p)`) as the configured image has.
pub proof fn lemma_admits_iff_same_patch_count(
    backbone: Backbone,
    config: BackboneConfig,
    input: Seq<usize>,
)
    requires
        backbone.built_from(config),
        config.patch_size <= config.image_size,
        config.heads_split(),
        input.len() == 4,
    ensures
        backbone.admits(input) <==> {
            &&& input[1] == config.num_channels
            &&& config.patch_size <= input[2]
            &&& config.patch_size <= input[3]
            &&& (input[2] / config.patch_size) * (input[3] / config.patch_size)
                == config.num_patches()
        },
{
    let p = config.patch_size;
    let n = config.patches_per_side();
    lemma_patch_grid_axis(p, config.image_size);
    assert(n * n >= 1) by (nonlinear_arith)
        requires
            n >= 1,
    ;
    if p <= input[2] && p <= input[3] {
        lemma_patch_grid_axis(p, input[2]);
        lemma_patch_grid_axis(p, input[3]);
        let h = input[2] / p;
        let w = input[3] / p;
        assert(h * w >= 1) by (nonlinear_arith)
            requires
                h >= 1,
                w >= 1,
        ;
        assert(backbone.token_count(input) == h * w);
    }
}

/// Law: whether an image batch is accepted does not depend on its size,
/// among non-empty batches; and a non-empty batch that is accepted stays
/// accepted when the batch is emptied.
pub proof fn lemma_admits_any_batch(backbone: Backbone, input: Seq<usize>, batch: usize)
    requires
        backbone.wf(),
        backbone.admits(input),
        input[0] > 0,
    ensures
        backbone.admits(input.update(0, batch)),
{
    let other = input.update(0, batch);
    assert(backbone.patch_embed.output(other) =~= backbone.patch_embed.output(input).update(
        0,
        batch,
    ));
    assert(backbone.token_count(other) == backbone.token_count(input));
}

} // verus!
