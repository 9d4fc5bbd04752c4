//! Image classification: backbone, then a layer norm and a linear layer to
//! `num_classes` logits, with a cross-entropy loss for training.
use vstd::prelude::*;
use crate::backbone::{Backbone, BackboneConfig};
use crate::layers::{LayerNormLayout, LinearLayout};

verus! {

/// Configuration of the classifier.
#[derive(Clone, Copy, Debug)]
pub struct ClassificationConfig {
    pub backbone: BackboneConfig,
    pub num_classes: usize,
}

impl ClassificationConfig {
    /// A configuration from its two parts.
    pub fn new(backbone: BackboneConfig, num_classes: usize) -> (c: Self)
        ensures
            c.backbone == backbone,
            c.num_classes == num_classes,
    {
        ClassificationConfig { backbone, num_classes }
    }

    /// Builds the classifier this configuration describes; the same as
    /// `Classification::new`.
    pub fn init(&self) -> (m: Classification)
        requires
            self.backbone.buildable(),
        ensures
            m.built_from(*self),
    {
        Classification::new(self)
    }
}

/// Classification head: layer norm over the hidden dimension, then a linear
/// layer to the class logits.
#[derive(Clone, Copy, Debug)]
pub struct Head {
    pub linear: LinearLayout,
    pub ln: LayerNormLayout,
}

impl Head {
    /// Whether the head takes a `[batch, features]` input.
    pub open spec fn admits(self, cls: Seq<usize>) -> bool {
        self.ln.admits(cls) && self.linear.admits(cls)
    }

    /// A head from `hidden_dim` features to `num_classes` logits.
    pub fn new(hidden_dim: usize, num_classes: usize) -> (h: Head)
        ensures
            h.linear == (LinearLayout { d_input: hidden_dim, d_output: num_classes, bias: true }),
            h.ln == (LayerNormLayout { d_model: hidden_dim, bias: true }),
    {
        Head {
            linear: LinearLayout { d_input: hidden_dim, d_output: num_classes, bias: true },
            ln: LayerNormLayout { d_model: hidden_dim, bias: true },
        }
    }

    /// Shape `[batch, num_classes]` of the logits for a class embedding
    /// `[batch, hidden_dim]`.
    pub fn forward(&self, cls: [usize; 2]) -> (out: [usize; 2])
        requires
            self.admits(cls@),
        ensures
            out@ == seq![cls@[0], self.linear.d_output],
    {
        self.linear.forward(self.ln.forward(cls))
    }
}

/// Shapes of what a training or validation step produces.
#[derive(Clone, Copy, Debug)]
pub struct ClassificationOutputShape {
    /// The mean cross-entropy loss, `[1]`.
    pub loss: [usize; 1],
    /// The logits, `[batch, num_classes]`.
    pub output: [usize; 2],
    /// The target classes, `[batch]`.
    pub targets: [usize; 1],
}

/// The classifier's layers.
#[derive(Clone, Copy, Debug)]
pub struct Classification {
    pub backbone: Backbone,
    pub head: Head,
}

impl Classification {
    /// Number of classes the head scores.
    pub open spec fn num_classes(self) -> usize {
        self.head.linear.d_output
    }

    /// The head takes what the backbone gives.
    pub open spec fn wf(self) -> bool {
        &&& self.backbone.wf()
        &&& self.head.ln.d_model == self.backbone.hidden_dim
        &&& self.head.linear.d_input == self.backbone.hidden_dim
    }

    /// The classifier is the one `config` describes: the backbone built from
    /// its backbone configuration, and the head `Head::new(hidden_dim, num_classes)`.
    pub open spec fn built_from(self, config: ClassificationConfig) -> bool {
        &&& self.wf()
        &&& self.backbone.built_from(config.backbone)
        &&& self.head == (Head {
            linear: LinearLayout {
                d_input: config.backbone.hidden_dim,
                d_output: config.num_classes,
                bias: true,
            },
            ln: LayerNormLayout { d_model: config.backbone.hidden_dim, bias: true },
        })
    }

    /// Whether `forward` runs on an image batch `[batch, channels, height, width]`.
    pub open spec fn admits(self, images: Seq<usize>) -> bool {
        self.backbone.admits(images)
    }

    /// Builds the backbone and a head from its hidden dimension to
    /// `num_classes`.
    pub fn new(config: &ClassificationConfig) -> (m: Classification)
        requires
            config.backbone.buildable(),
        ensures
            m.built_from(*config),
            m.backbone.built_from(config.backbone),
            m.head.linear.d_input == m.backbone.hidden_dim,
            m.num_classes() == config.num_classes,
    {
        Classification {
            backbone: Backbone::new(&config.backbone),
            head: Head::new(config.backbone.hidden_dim, config.num_classes),
        }
    }

    /// Decides `admits`.
    pub fn accepts(&self, images: [usize; 4]) -> (r: bool)
        requires
            self.wf(),
        ensures
            r == self.admits(images@),
    {
        self.backbone.accepts(images)
    }

    /// Shape `[batch, num_classes]` of the logits for an image batch.
    pub fn forward(&self, images: [usize; 4]) -> (out: [usize; 2])
        requires
            self.wf(),
            self.admits(images@),
        ensures
            out@ == seq![images@[0], self.num_classes()],
    {
        self.head.forward(self.backbone.forward(images))
    }

    /// Shapes of a training step on an image batch and its targets: the
    /// loss check needs one target per image.
    pub fn forward_classification(&self, images: [usize; 4], targets: [usize; 1]) -> (out:
        ClassificationOutputShape)
        requires
            self.wf(),
            self.admits(images@),
            targets@[0] == images@[0],
        ensures
            out.loss@ == seq![1usize],
            out.output@ == seq![images@[0], self.num_classes()],
            out.targets@ == targets@,
    {
        let logits: [usize; 2] = self.forward(images);
        let loss: [usize; 1] = [1];
        assert(loss@ =~= seq![1usize]);
        ClassificationOutputShape { loss, output: logits, targets }
    }
}

/// Law: a configuration fixes the classifier. `ClassificationConfig::init`
/// and `Classification::new` both ensure `built_from`, so they build equal
/// classifiers from the same configuration.
pub proof fn lemma_classification_built_from_unique(
    a: Classification,
    b: Classification,
    config: ClassificationConfig,
)
    requires
        a.built_from(config),
        b.built_from(config),
    ensures
        a == b,
{
    crate::backbone::lemma_backbone_built_from_unique(a.backbone, b.backbone, config.backbone);
}

/// Law: when a patch fits in the configured image and the heads split the
/// hidden dimension, the model takes an image batch of the configured size
/// and channel count for every batch size, a single image included.
pub proof fn lemma_classification_configured_image_admitted(
    model: Classification,
    config: ClassificationConfig,
    batch: usize,
)
    requires
        model.built_from(config),
        config.backbone.patch_size <= config.backbone.image_size,
        config.backbone.heads_split(),
    ensures
        model.admits(
            seq![
                batch,
                config.backbone.num_channels,
                config.backbone.image_size,
                config.backbone.image_size,
            ],
        ),
{
    crate::backbone::lemma_configured_image_admitted(model.backbone, config.backbone, batch);
}

/// Law: when a patch fits in the configured image and the heads split the
/// hidden dimension, the model takes exactly the image batches, of any
/// size, with the configured channel count, sides of at least one patch,
/// and as many patches `(height / p) * (width / p)` as the configured image.
pub proof fn lemma_classification_admits_iff_same_patch_count(
    model: Classification,
    config: ClassificationConfig,
    images: Seq<usize>,
)
    requires
        model.built_from(config),
        config.backbone.patch_size <= config.backbone.image_size,
        config.backbone.heads_split(),
        images.len() == 4,
    ensures
        model.admits(images) <==> {
            &&& images[1] == config.backbone.num_channels
            &&& config.backbone.patch_size <= images[2]
            &&& config.backbone.patch_size <= images[3]
            &&& (images[2] / config.backbone.patch_size) * (images[3] / config.backbone.patch_size)
                == config.backbone.num_patches()
        },
{
    crate::backbone::lemma_admits_iff_same_patch_count(model.backbone, config.backbone, images);
}

} // verus!
