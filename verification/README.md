# model_vit

A Vision Transformer (ViT) built from burn layers, with its shapes verified
in Verus.

- `src/` is the verified library. It describes each layer by its sizes
  (`layers.rs`), gives the shape rules of the tensor operations the model
  uses, as burn checks them (`shape.rs`), and builds the backbone
  (`backbone.rs`) and the classification and projection models
  (`encoder/`). Contracts state the exact layer sizes a configuration gives,
  exactly which input shapes each forward pass takes, and the output shape.
- `app/` holds the burn modules themselves: tensors, random initialisation
  and the float computation. Each module builds its layers from the verified
  layout and checks the input shape with it before running.
- `tests/` runs the library on concrete configurations.
