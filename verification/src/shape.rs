//! Shapes of the tensor operations the model composes, as burn checks and
//! computes them.
use vstd::prelude::*;

verus! {

/// Output length of a convolution along one spatial axis:
/// `(size_in + 2 * padding - dilation * (kernel_size - 1) - 1) / stride + 1`.
pub open spec fn conv_output_size_spec(
    kernel_size: int,
    stride: int,
    padding: int,
    dilation: int,
    size_in: int,
) -> int {
    (size_in + 2 * padding - dilation * (kernel_size - 1) - 1) / stride + 1
}

/// `burn::tensor::ops::conv::calculate_conv_output_size` evaluates
/// `(size_in + 2 * padding - dilation * (kernel_size - 1) - 1) / stride + 1`
/// in `usize` arithmetic. The contract admits the arguments for which no step
/// overflows, underflows or divides by zero, and claims the exact value.
#[verifier::external_body]
pub(crate) fn conv_output_size(
    kernel_size: usize,
    stride: usize,
    padding: usize,
    dilation: usize,
    size_in: usize,
) -> (r: usize)
    requires
        stride > 0,
        kernel_size >= 1,
        size_in + 2 * padding <= usize::MAX,
        dilation * (kernel_size - 1) + 1 <= size_in + 2 * padding,
    ensures
        r == conv_output_size_spec(
            kernel_size as int,
            stride as int,
            padding as int,
            dilation as int,
            size_in as int,
        ),
{
    burn::tensor::ops::conv::calculate_conv_output_size(
        kernel_size,
        stride,
        padding,
        dilation,
        size_in,
    )
}


/// `[d0, d1, d2, d3]` reshaped to `[d0, d1, d2 * d3]`: the spatial axes of a
/// feature map flattened into one.
pub fn flatten_spatial(dims: [usize; 4]) -> (out: [usize; 3])
    requires
        dims@[2] * dims@[3] <= usize::MAX,
    ensures
        out@ == seq![dims@[0], dims@[1], (dims@[2] * dims@[3]) as usize],
{
    let out: [usize; 3] = [dims[0], dims[1], dims[2] * dims[3]];
    assert(out@ =~= seq![dims@[0], dims@[1], (dims@[2] * dims@[3]) as usize]);
    out
}


/// `swap_dims(1, 2)` on a rank-3 shape: `[d0, d1, d2]` becomes `[d0, d2, d1]`.
pub fn swap_last_two(dims: [usize; 3]) -> (out: [usize; 3])
    ensures
        out@ == seq![dims@[0], dims@[2], dims@[1]],
{
    let out: [usize; 3] = [dims[0], dims[2], dims[1]];
    assert(out@ =~= seq![dims@[0], dims@[2], dims@[1]]);
    out
}

/// `unsqueeze_dim(0)` on a rank-2 shape: `[d0, d1]` becomes `[1, d0, d1]`.
pub fn unsqueeze_front(dims: [usize; 2]) -> (out: [usize; 3])
    ensures
        out@ == seq![1usize, dims@[0], dims@[1]],
{
    let out: [usize; 3] = [1, dims[0], dims[1]];
    assert(out@ =~= seq![1usize, dims@[0], dims@[1]]);
    out
}

/// `repeat_dim(0, times)` on a rank-3 shape: the first axis is multiplied by
/// `times`.
pub fn repeat_front(dims: [usize; 3], times: usize) -> (out: [usize; 3])
    requires
        dims@[0] * times <= usize::MAX,
    ensures
        out@ == seq![(dims@[0] * times) as usize, dims@[1], dims@[2]],
{
    let out: [usize; 3] = [dims[0] * times, dims[1], dims[2]];
    assert(out@ =~= seq![(dims@[0] * times) as usize, dims@[1], dims@[2]]);
    out
}

/// Whether burn's `cat` accepts two rank-3 tensors along axis 1: every
/// other axis agrees.
pub open spec fn cat_compatible(a: Seq<usize>, b: Seq<usize>) -> bool {
    &&& a.len() == 3
    &&& b.len() == 3
    &&& a[0] == b[0]
    &&& a[2] == b[2]
    &&& a[1] + b[1] <= usize::MAX
}

/// `Tensor::cat(vec![a, b], 1)` on rank-3 shapes: the middle axes add up.
pub fn cat_middle(a: [usize; 3], b: [usize; 3]) -> (out: [usize; 3])
    requires
        cat_compatible(a@, b@),
    ensures
        out@ == seq![a@[0], (a@[1] + b@[1]) as usize, a@[2]],
{
    let out: [usize; 3] = [a[0], a[1] + b[1], a[2]];
    assert(out@ =~= seq![a@[0], (a@[1] + b@[1]) as usize, a@[2]]);
    out
}

/// Whether burn lets two axis lengths meet in an element-wise operation:
/// they agree, or one of them is 1.
pub open spec fn axis_broadcastable(x: usize, y: usize) -> bool {
    x == y || x == 1 || y == 1
}

/// The axis length an element-wise operation produces from two
/// broadcastable lengths.
pub open spec fn broadcast_axis(x: usize, y: usize) -> usize {
    if x == 1 {
        y
    } else {
        x
    }
}

/// Whether burn's element-wise check accepts two rank-3 shapes.
pub open spec fn broadcastable(a: Seq<usize>, b: Seq<usize>) -> bool {
    &&& a.len() == 3
    &&& b.len() == 3
    &&& forall|i: int| 0 <= i < 3 ==> axis_broadcastable(#[trigger] a[i], b[i])
}

/// Shape of `a + b` for two broadcastable rank-3 shapes.
pub fn broadcast(a: [usize; 3], b: [usize; 3]) -> (out: [usize; 3])
    requires
        broadcastable(a@, b@),
    ensures
        out@ == seq![
            broadcast_axis(a@[0], b@[0]),
            broadcast_axis(a@[1], b@[1]),
            broadcast_axis(a@[2], b@[2]),
        ],
{
    let out: [usize; 3] = [
        if a[0] == 1 { b[0] } else { a[0] },
        if a[1] == 1 { b[1] } else { a[1] },
        if a[2] == 1 { b[2] } else { a[2] },
    ];
    assert(out@ =~= seq![
        broadcast_axis(a@[0], b@[0]),
        broadcast_axis(a@[1], b@[1]),
        broadcast_axis(a@[2], b@[2]),
    ]);
    out
}

/// `slice([0..e0, 0..e1, 0..e2])` on a rank-3 shape whose axes are at least
/// as long as the ends: the result has the ends as its shape.
pub fn slice_prefix(dims: [usize; 3], ends: [usize; 3]) -> (out: [usize; 3])
    requires
        forall|i: int| 0 <= i < 3 ==> #[trigger] ends@[i] <= dims@[i],
    ensures
        out@ == ends@,
{
    let out: [usize; 3] = [ends[0], ends[1], ends[2]];
    assert(out@ =~= ends@);
    out
}

/// `squeeze_dim(1)` on a rank-3 shape whose middle axis has length 1.
pub fn squeeze_middle(dims: [usize; 3]) -> (out: [usize; 2])
    requires
        dims@[1] == 1,
    ensures
        out@ == seq![dims@[0], dims@[2]],
{
    let out: [usize; 2] = [dims[0], dims[2]];
    assert(out@ =~= seq![dims@[0], dims@[2]]);
    out
}

} // verus!
