//! Projection: backbone, then a linear layer over the hidden dimension and a
//! batch norm.
use vstd::prelude::*;
use crate::backbone::{Backbone, BackboneConfig};
use crate::layers::{BatchNormLayout, LinearLayout};

verus! {

/// Configuration of the projection model.
#[derive(Clone, Copy, Debug)]
pub struct ProjectionConfig {
    pub backbone: BackboneConfig,
}

impl ProjectionConfig {
    /// A configuration around a backbone configuration.
    pub fn new(backbone: BackboneConfig) -> (c: Self)
        ensures
            c.backbone == backbone,
    {
        ProjectionConfig { backbone }
    }

    /// Builds the projection model this configuration describes; the same as
    /// `Projection::new`.
    pub fn init(&self) -> (m: Projection)
        requires
            self.backbone.buildable(),
        ensures
            m.built_from(*self),
    {
        Projection::new(self)
    }
}

/// Projection head: a square linear layer over the hidden dimension, then a
/// batch norm over it.
#[derive(Clone, Copy, Debug)]
pub struct Head {
    pub linear: LinearLayout,
    pub bn: BatchNormLayout,
}

impl Head {
    /// Whether the head takes a `[batch, features]` input.
    pub open spec fn admits(self, cls: Seq<usize>) -> bool {
        self.linear.admits(cls) && self.bn.num_features == self.linear.d_output
    }

    /// A head over `hidden_dim` features.
    pub fn new(hidden_dim: usize) -> (h: Head)
        ensures
            h.linear == (LinearLayout { d_input: hidden_dim, d_output: hidden_dim, bias: true }),
            h.bn == (BatchNormLayout { num_features: hidden_dim }),
    {
        Head {
            linear: LinearLayout { d_input: hidden_dim, d_output: hidden_dim, bias: true },
            bn: BatchNormLayout { num_features: hidden_dim },
        }
    }

    /// Shape of the projection of a class embedding `[batch, hidden_dim]`.
    pub fn forward(&self, cls: [usize; 2]) -> (out: [usize; 2])
        requires
            self.admits(cls@),
        ensures
            out@ == seq![cls@[0], self.bn.num_features],
    {
        self.bn.forward(self.linear.forward(cls))
    }
}

/// The projection model's layers.
#[derive(Clone, Copy, Debug)]
pub struct Projection {
    pub backbone: Backbone,
    pub head: Head,
}

impl Projection {
    /// The head takes what the backbone gives.
    pub open spec fn wf(self) -> bool {
        &&& self.backbone.wf()
        &&& self.head.linear.d_input == self.backbone.hidden_dim
        &&& self.head.linear.d_output == self.backbone.hidden_dim
        &&& self.head.bn.num_features == self.backbone.hidden_dim
    }

    /// The model is the one `config` describes: the backbone built from its
    /// backbone configuration, and the head `Head::new(hidden_dim)`.
    pub open spec fn built_from(self, config: ProjectionConfig) -> bool {
        &&& self.wf()
        &&& self.backbone.built_from(config.backbone)
        &&& self.head == (Head {
            linear: LinearLayout {
                d_input: config.backbone.hidden_dim,
                d_output: config.backbone.hidden_dim,
                bias: true,
            },
            bn: BatchNormLayout { num_features: config.backbone.hidden_dim },
        })
    }

    /// Whether `forward` runs on an image batch `[batch, channels, height, width]`.
    pub open spec fn admits(self, images: Seq<usize>) -> bool {
        self.backbone.admits(images)
    }

    /// Builds the backbone and a head over its hidden dimension.
    pub fn new(config: &ProjectionConfig) -> (m: Projection)
        requires
            config.backbone.buildable(),
        ensures
            m.built_from(*config),
            m.backbone.built_from(config.backbone),
            m.head.linear.d_input == m.backbone.hidden_dim,
            m.head.linear.d_output == m.backbone.hidden_dim,
    {
        Projection {
            backbone: Backbone::new(&config.backbone),
            head: Head::new(config.backbone.hidden_dim),
        }
    }

    /// Decides `admits`.
    pub fn accepts(&self, images: [usize; 4]) -> (r: bool)
        requires
            self.wf(),
        ensures
            r == self.admits(images@),
    {
        self.backbone.accepts(images)
    }

    /// Shape `[batch, hidden_dim]` of the projection of an image batch.
    pub fn forward(&self, images: [usize; 4]) -> (out: [usize; 2])
        requires
            self.wf(),
            self.admits(images@),
        ensures
            out@ == seq![images@[0], self.backbone.hidden_dim],
    {
        self.head.forward(self.backbone.forward(images))
    }
}

/// Law: a configuration fixes the projection model. `ProjectionConfig::init`
/// and `Projection::new` both ensure `built_from`, so they build equal
/// models from the same configuration.
pub proof fn lemma_projection_built_from_unique(a: Projection, b: Projection, config: ProjectionConfig)
    requires
        a.built_from(config),
        b.built_from(config),
    ensures
        a == b,
{
    crate::backbone::lemma_backbone_built_from_unique(a.backbone, b.backbone, config.backbone);
}

/// Law: when a patch fits in the configured image and the heads split the
/// hidden dimension, the model takes an image batch of the configured size
/// and channel count for every batch size, a single image included.
pub proof fn lemma_projection_configured_image_admitted(
    model: Projection,
    config: ProjectionConfig,
    batch: usize,
)
    requires
        model.built_from(config),
        config.backbone.patch_size <= config.backbone.image_size,
        config.backbone.heads_split(),
    ensures
        model.admits(
            seq![
                batch,
                config.backbone.num_channels,
                config.backbone.image_size,
                config.backbone.image_size,
            ],
        ),
{
    crate::backbone::lemma_configured_image_admitted(model.backbone, config.backbone, batch);
}

/// Law: when a patch fits in the configured image and the heads split the
/// hidden dimension, the model takes exactly the image batches, of any
/// size, with the configured channel count, sides of at least one patch,
/// and as many patches `(height / p) * (width / p)` as the configured image.
pub proof fn lemma_projection_admits_iff_same_patch_count(
    model: Projection,
    config: ProjectionConfig,
    images: Seq<usize>,
)
    requires
        model.built_from(config),
        config.backbone.patch_size <= config.backbone.image_size,
        config.backbone.heads_split(),
        images.len() == 4,
    ensures
        model.admits(images) <==> {
            &&& images[1] == config.backbone.num_channels
            &&& config.backbone.patch_size <= images[2]
            &&& config.backbone.patch_size <= images[3]
            &&& (images[2] / config.backbone.patch_size) * (images[3] / config.backbone.patch_size)
                == config.backbone.num_patches()
        },
{
    crate::backbone::lemma_admits_iff_same_patch_count(model.backbone, config.backbone, images);
}

} // verus!
