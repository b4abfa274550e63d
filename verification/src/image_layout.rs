//! How the decoded pixels of a batch are cut into one buffer per image.

use vstd::prelude::*;

verus! {

/// Colour channels of a decoded image (RGB).
pub const IMAGE_CHANNELS: usize = 3;

/// Height of a decoded image, in pixels.
pub const IMAGE_HEIGHT: usize = 512;

/// Width of a decoded image, in pixels.
pub const IMAGE_WIDTH: usize = 512;

/// Number of values in the buffer of one decoded image.
pub open spec fn spec_values_per_image() -> nat {
    (IMAGE_CHANNELS * IMAGE_HEIGHT * IMAGE_WIDTH) as nat
}

/// Number of values in the buffer of one decoded image: channels, height and
/// width multiplied.
pub fn values_per_image() -> (n: usize)
    ensures
        n == spec_values_per_image(),
{
    IMAGE_CHANNELS * IMAGE_HEIGHT * IMAGE_WIDTH
}

/// The buffers of `n_batch` images of `per_image` values each, cut in order
/// from the front of `values`.
pub open spec fn spec_split_images<T>(values: Seq<T>, n_batch: nat, per_image: nat) -> Seq<Seq<T>> {
    Seq::new(n_batch, |b: int| values.subrange(b * per_image, b * per_image + per_image))
}

/// Cuts the flattened values of a batch (image after image) into one buffer
/// per image. The values must cover the whole batch.
pub fn split_images<T: Copy>(values: &Vec<T>, n_batch: usize, per_image: usize) -> (images: Vec<Vec<T>>)
    requires
        n_batch * per_image <= values.len(),
    ensures
        images.len() == n_batch,
        forall|b: int|
            0 <= b < n_batch ==> #[trigger] images[b]@ == spec_split_images(
                values@,
                n_batch as nat,
                per_image as nat,
            )[b],
        // image `b` is the `b`-th run of `per_image` values, in order
        forall|b: int|
            0 <= b < n_batch ==> #[trigger] images[b]@ == values@.subrange(
                b * per_image,
                b * per_image + per_image,
            ),
{
    let mut images: Vec<Vec<T>> = Vec::new();
    let mut start: usize = 0;
    for b in 0..n_batch
        invariant
            n_batch * per_image <= values.len(),
            images.len() == b,
            start == b * per_image,
            forall|c: int|
                0 <= c < b ==> #[trigger] images[c]@ == values@.subrange(
                    c * per_image,
                    c * per_image + per_image,
                ),
    {
        assert(start + per_image <= values.len()) by (nonlinear_arith)
            requires
                start == b * per_image,
                b < n_batch,
                n_batch * per_image <= values.len(),
        ;
        let mut image: Vec<T> = Vec::new();
        for i in 0..per_image
            invariant
                start + per_image <= values.len(),
                image@ == values@.subrange(start as int, start + i),
        {
            image.push(values[start + i]);
            assert(values@.subrange(start as int, start + i + 1) == values@.subrange(
                start as int,
                start + i,
            ).push(values@[start + i]));
        }
        images.push(image);
        assert((b + 1) * per_image == b * per_image + per_image) by (nonlinear_arith);
        start = start + per_image;
    }
    images
}

/// Putting the image buffers back one after another gives the values that
/// the batch covers.
pub proof fn lemma_split_images_concatenate<T>(values: Seq<T>, n_batch: nat, per_image: nat)
    requires
        n_batch * per_image <= values.len(),
    ensures
        spec_split_images(values, n_batch, per_image).flatten() == values.subrange(
            0,
            (n_batch * per_image) as int,
        ),
    decreases n_batch,
{
    let images = spec_split_images(values, n_batch, per_image);
    images.lemma_flatten_and_flatten_alt_are_equivalent();
    if n_batch == 0 {
        assert(images.flatten_alt() =~= values.subrange(0, 0));
    } else {
        let m = (n_batch - 1) as nat;
        assert(m * per_image + per_image == n_batch * per_image) by (nonlinear_arith)
            requires
                m == n_batch - 1,
        ;
        assert(m * per_image <= values.len()) by (nonlinear_arith)
            requires
                m * per_image + per_image <= values.len(),
        ;
        lemma_split_images_concatenate(values, m, per_image);
        let fewer = spec_split_images(values, m, per_image);
        fewer.lemma_flatten_and_flatten_alt_are_equivalent();
        assert(images.drop_last() =~= fewer);
        assert(images.flatten_alt() == fewer.flatten_alt() + images.last());
        assert(images.flatten_alt() =~= values.subrange(0, (n_batch * per_image) as int));
    }
}

} // verus!
