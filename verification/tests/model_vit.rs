use model_vit::backbone::{dropout_allowed_bits, DEFAULT_DROPOUT_BITS, DEFAULT_NUM_CHANNELS};
use model_vit::encoder::classification::Head as ClassificationHead;
use model_vit::encoder::projection::Head as ProjectionHead;
use model_vit::layers::{Conv2dLayout, TransformerEncoderLayout};
use model_vit::shape::{broadcast, cat_middle, flatten_spatial, repeat_front, swap_last_two};
use model_vit::{
    Backbone, BackboneConfig, Classification, ClassificationConfig, Projection, ProjectionConfig,
};

fn vit_config() -> BackboneConfig {
    BackboneConfig::new(224, 192, 12, 3, 768, 14)
}

#[test]
fn config_defaults() {
    let c = vit_config();
    assert_eq!(c.image_size, 224);
    assert_eq!(c.hidden_dim, 192);
    assert_eq!(c.num_layers, 12);
    assert_eq!(c.num_heads, 3);
    assert_eq!(c.mlp_dim, 768);
    assert_eq!(c.patch_size, 14);
    assert_eq!(c.num_channels, 3);
    assert_eq!(DEFAULT_NUM_CHANNELS, 3);
    assert_eq!(f64::from_bits(c.dropout_bits), 0.1);
    assert_eq!(c.dropout_bits, DEFAULT_DROPOUT_BITS);
}

#[test]
fn config_builders() {
    let c = vit_config().with_num_channels(1).with_dropout_bits(0.25f64.to_bits());
    assert_eq!(c.num_channels, 1);
    assert_eq!(f64::from_bits(c.dropout_bits), 0.25);
    assert_eq!(c.image_size, 224);
    assert_eq!(c.patch_size, 14);
}

#[test]
fn backbone_new_layout() {
    let b = Backbone::new(&vit_config());
    assert_eq!(b.num_patches, 256);
    assert_eq!(b.hidden_dim, 192);
    assert_eq!(b.cls_token, [1, 192]);
    assert_eq!(b.pos_embed, [1, 257, 192]);
    assert_eq!(b.patch_embed.channels, [3, 192]);
    assert_eq!(b.patch_embed.kernel_size, [14, 14]);
    assert_eq!(b.patch_embed.stride, [14, 14]);
    assert_eq!(b.transformer.d_model, 192);
    assert_eq!(b.transformer.d_ff, 768);
    assert_eq!(b.transformer.n_heads, 3);
    assert_eq!(b.transformer.n_layers, 12);
    assert!(b.transformer.norm_first);
    assert_eq!(b.patch_embed.groups, 1);
    assert!(b.patch_embed.bias);
    assert_eq!(f64::from_bits(b.transformer.dropout_bits), 0.1);
}

#[test]
fn backbone_new_rounds_patches_down() {
    let b = Backbone::new(&BackboneConfig::new(32, 8, 1, 2, 16, 5));
    assert_eq!(b.num_patches, 36);
    assert_eq!(b.pos_embed, [1, 37, 8]);
}

#[test]
fn backbone_forward_configured_image() {
    let b = Backbone::new(&vit_config());
    assert!(b.accepts([16, 3, 224, 224]));
    assert_eq!(b.forward([16, 3, 224, 224]), [16, 192]);
    assert_eq!(b.forward([1, 3, 224, 224]), [1, 192]);
}

#[test]
fn backbone_accepts_any_batch() {
    let b = Backbone::new(&vit_config());
    for batch in [1usize, 2, 7, 64] {
        assert!(b.accepts([batch, 3, 224, 224]));
        assert_eq!(b.forward([batch, 3, 224, 224]), [batch, 192]);
    }
}

#[test]
fn backbone_accepts_same_patch_count() {
    let b = Backbone::new(&vit_config());
    // 230 / 14 == 16 patches per side, as for 224.
    assert!(b.accepts([2, 3, 230, 237]));
    assert_eq!(b.forward([2, 3, 230, 237]), [2, 192]);
    // 8 * 32 == 256 patches too.
    assert!(b.accepts([2, 3, 112, 448]));
    // 17 patches along the width: 272 tokens.
    assert!(!b.accepts([2, 3, 224, 238]));
}

#[test]
fn backbone_rejects_wrong_channels() {
    let b = Backbone::new(&vit_config());
    assert!(!b.accepts([2, 1, 224, 224]));
    assert!(!b.accepts([2, 4, 224, 224]));
}

#[test]
fn backbone_rejects_image_smaller_than_patch() {
    let b = Backbone::new(&vit_config());
    assert!(!b.accepts([2, 3, 13, 224]));
    assert!(!b.accepts([2, 3, 224, 0]));
}

#[test]
fn backbone_tiny_configured_image_broadcasts() {
    // An image smaller than a patch has no patch: the position embedding has
    // one position, which broadcasts over any token sequence.
    let b = Backbone::new(&BackboneConfig::new(10, 8, 1, 2, 16, 14));
    assert_eq!(b.num_patches, 0);
    assert_eq!(b.pos_embed, [1, 1, 8]);
    assert!(b.accepts([3, 3, 28, 42]));
    assert_eq!(b.forward([3, 3, 28, 42]), [3, 8]);
    assert!(!b.accepts([3, 3, 10, 10]));
}

#[test]
fn backbone_heads_must_split_hidden_dim() {
    let b = Backbone::new(&BackboneConfig::new(28, 10, 1, 3, 16, 14));
    assert!(!b.accepts([2, 3, 28, 28]));
    // An empty batch passes the head split.
    assert!(b.accepts([0, 3, 28, 28]));
    assert_eq!(b.forward([0, 3, 28, 28]), [0, 10]);
    // More heads than features never split.
    let b = Backbone::new(&BackboneConfig::new(28, 2, 1, 3, 16, 14));
    assert!(!b.accepts([0, 3, 28, 28]));
}

#[test]
fn backbone_without_layers_needs_no_heads() {
    let b = Backbone::new(&BackboneConfig::new(28, 10, 0, 0, 16, 14));
    assert!(b.accepts([2, 3, 28, 28]));
    assert_eq!(b.forward([2, 3, 28, 28]), [2, 10]);
}

#[test]
fn conv_layout_output_sizes() {
    let conv = Conv2dLayout { channels: [3, 192], kernel_size: [14, 14], stride: [14, 14], groups: 1, bias: true };
    assert!(conv.accepts([2, 3, 224, 238]));
    assert_eq!(conv.forward([2, 3, 224, 238]), [2, 192, 16, 17]);
    let conv = Conv2dLayout { channels: [1, 4], kernel_size: [3, 5], stride: [2, 1], groups: 1, bias: true };
    assert_eq!(conv.forward([5, 1, 7, 9]), [5, 4, 3, 5]);
    assert!(!conv.accepts([5, 2, 7, 9]));
    assert!(!conv.accepts([5, 1, 2, 9]));
    let conv = Conv2dLayout { channels: [1, 4], kernel_size: [3, 3], stride: [0, 1], groups: 1, bias: false };
    assert!(!conv.accepts([5, 1, 7, 9]));
}

#[test]
fn shape_operations() {
    assert_eq!(flatten_spatial([2, 192, 16, 17]), [2, 192, 272]);
    assert_eq!(swap_last_two([2, 192, 272]), [2, 272, 192]);
    assert_eq!(repeat_front([1, 1, 192], 16), [16, 1, 192]);
    assert_eq!(cat_middle([16, 1, 192], [16, 256, 192]), [16, 257, 192]);
    assert_eq!(broadcast([16, 257, 192], [1, 257, 192]), [16, 257, 192]);
    assert_eq!(broadcast([1, 5, 192], [1, 1, 192]), [1, 5, 192]);
    assert_eq!(broadcast([1, 1, 3], [4, 6, 3]), [4, 6, 3]);
}

#[test]
fn transformer_layout_accepts() {
    let t = TransformerEncoderLayout {
        d_model: 192,
        d_ff: 768,
        n_heads: 3,
        n_layers: 12,
        norm_first: true,
        dropout_bits: DEFAULT_DROPOUT_BITS,
    };
    assert!(t.accepts([4, 257, 192]));
    assert_eq!(t.forward([4, 257, 192]), [4, 257, 192]);
    assert!(!t.accepts([4, 257, 191]));
}

#[test]
fn classification_forward_shapes() {
    let config = ClassificationConfig::new(vit_config(), 2);
    let model = config.init();
    assert_eq!(model.head.linear.d_input, 192);
    assert_eq!(model.head.linear.d_output, 2);
    assert_eq!(model.head.ln.d_model, 192);
    assert!(model.accepts([16, 3, 224, 224]));
    assert_eq!(model.forward([16, 3, 224, 224]), [16, 2]);
    let out = model.forward_classification([16, 3, 224, 224], [16]);
    assert_eq!(out.loss, [1]);
    assert_eq!(out.output, [16, 2]);
    assert_eq!(out.targets, [16]);
}

#[test]
fn classification_init_is_new() {
    let config = ClassificationConfig::new(vit_config(), 10);
    let a = config.init();
    let b = Classification::new(&config);
    assert_eq!(a.backbone.pos_embed, b.backbone.pos_embed);
    assert_eq!(a.head.linear.d_output, b.head.linear.d_output);
    assert_eq!(a.forward([3, 3, 224, 224]), b.forward([3, 3, 224, 224]));
}

#[test]
fn classification_head_shapes() {
    let head = ClassificationHead::new(192, 5);
    assert_eq!(head.forward([8, 192]), [8, 5]);
}

#[test]
fn projection_forward_shapes() {
    let config = ProjectionConfig::new(vit_config());
    let model = config.init();
    assert_eq!(model.head.linear.d_input, 192);
    assert_eq!(model.head.linear.d_output, 192);
    assert_eq!(model.head.bn.num_features, 192);
    assert_eq!(model.forward([4, 3, 224, 224]), [4, 192]);
    let other = Projection::new(&config);
    assert!(!other.accepts([4, 1, 224, 224]));
}

#[test]
fn projection_head_shapes() {
    let head = ProjectionHead::new(64);
    assert_eq!(head.forward([3, 64]), [3, 64]);
}

#[test]
fn conv_layout_groups() {
    // 6 input channels in 4 groups: the weight takes (6 / 4) * 4 == 4 channels.
    let conv = Conv2dLayout { channels: [6, 8], kernel_size: [1, 1], stride: [1, 1], groups: 4, bias: true };
    assert!(conv.accepts([1, 4, 3, 3]));
    assert!(!conv.accepts([1, 6, 3, 3]));
    let conv = Conv2dLayout { channels: [6, 8], kernel_size: [1, 1], stride: [1, 1], groups: 2, bias: true };
    assert!(conv.accepts([1, 6, 3, 3]));
    assert_eq!(conv.forward([1, 6, 3, 3]), [1, 8, 3, 3]);
    let conv = Conv2dLayout { channels: [6, 8], kernel_size: [1, 1], stride: [1, 1], groups: 0, bias: true };
    assert!(!conv.accepts([1, 6, 3, 3]));
}

#[test]
fn buildable_configurations() {
    assert!(vit_config().can_build());
    assert!(!BackboneConfig::new(224, 192, 12, 3, 768, 0).can_build());
    assert!(!BackboneConfig::new(usize::MAX, 8, 1, 2, 16, 1).can_build());
    // A transformer layer needs an attention head.
    assert!(!BackboneConfig::new(224, 192, 1, 0, 768, 14).can_build());
    assert!(BackboneConfig::new(224, 192, 0, 0, 768, 14).can_build());
    // The dropout rate must pass burn's range check once there is a layer.
    assert!(!vit_config().with_dropout_bits(1.5f64.to_bits()).can_build());
    assert!(!vit_config().with_dropout_bits((-0.25f64).to_bits()).can_build());
    assert!(!vit_config().with_dropout_bits(f64::INFINITY.to_bits()).can_build());
    assert!(vit_config().with_dropout_bits(1.0f64.to_bits()).can_build());
    assert!(vit_config().with_dropout_bits(0.0f64.to_bits()).can_build());
    assert!(BackboneConfig::new(224, 192, 0, 3, 768, 14).with_dropout_bits(1.5f64.to_bits()).can_build());
}

#[test]
fn dropout_range_check() {
    for p in [0.0f64, -0.0, 0.1, 0.5, 1.0, f64::NAN, -f64::NAN, f64::MIN_POSITIVE] {
        assert_eq!(dropout_allowed_bits(p.to_bits()), !(p < 0.0 || p > 1.0), "{p}");
    }
    for p in [1.0000001f64, 2.0, f64::INFINITY, -1e-300, -1.0, f64::NEG_INFINITY, -5e-324] {
        assert_eq!(dropout_allowed_bits(p.to_bits()), !(p < 0.0 || p > 1.0), "{p}");
        assert!(!dropout_allowed_bits(p.to_bits()), "{p}");
    }
}

#[test]
fn heads_have_bias() {
    let h = ClassificationHead::new(192, 5);
    assert!(h.linear.bias);
    assert!(h.ln.bias);
    let h = ProjectionHead::new(64);
    assert!(h.linear.bias);
}
