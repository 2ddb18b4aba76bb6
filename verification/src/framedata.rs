//! The frame buffer: a rectangular grid of pixel elements with explicit
//! width and height, generic over the element type.

use vstd::prelude::*;
use crate::pixel::MonoPixel;

verus! {

/// A rectangular grid of pixel elements. A well-formed buffer holds exactly
/// `width * height` elements, in row-major order.
#[derive(Clone)]
pub struct FrameData<T> {
    pub width: u32,
    pub height: u32,
    pub data: Vec<T>,
}

/// A frame buffer whose elements are monochrome.
pub type MonoFrameData<T> = FrameData<T>;

impl<T> FrameData<T> {
    /// Well-formedness: the element count matches the dimensions.
    pub open spec fn wf(&self) -> bool {
        self.data@.len() == self.width as int * self.height as int
    }

    /// The number of pixels in the buffer.
    pub open spec fn npixels(&self) -> int {
        self.width as int * self.height as int
    }

    /// Both dimensions of `other` equal this buffer's.
    pub open spec fn same_dims<U>(&self, other: &FrameData<U>) -> bool {
        self.width == other.width && self.height == other.height
    }
}

impl<T: MonoPixel> FrameData<T> {
    /// The mathematical value of the element at index `i`.
    pub open spec fn px(&self, i: int) -> int {
        self.data@[i].as_int()
    }

    /// The buffer's elements as a sequence of mathematical values.
    pub open spec fn values(&self) -> Seq<int> {
        self.data@.map_values(|x: T| x.as_int())
    }

    /// The value sequence indexes as the elements do: `values()[i]` is
    /// `px(i)`, over the same length.
    pub broadcast proof fn lemma_values_index(&self, i: int)
        requires
            0 <= i < self.data@.len(),
        ensures
            #[trigger] self.values()[i] == self.px(i),
            self.values().len() == self.data@.len(),
    {
    }

    /// A buffer of the given dimensions with every element set to `value`.
    pub fn filled(width: u32, height: u32, value: T) -> (r: FrameData<T>)
        requires
            width as int * height as int <= usize::MAX as int,
        ensures
            r.wf(),
            r.width == width,
            r.height == height,
            forall|i: int| 0 <= i < r.data@.len() ==> #[trigger] r.px(i) == value.as_int(),
    {
        let n: usize = (width as usize) * (height as usize);
        let mut data: Vec<T> = Vec::new();
        let mut i: usize = 0;
        while i < n
            invariant
                i <= n,
                data@.len() == i as int,
                forall|j: int| 0 <= j < i as int ==> #[trigger] data@[j].as_int() == value.as_int(),
            decreases n - i,
        {
            data.push(value);
            i = i + 1;
        }
        FrameData { width, height, data }
    }

    /// A zero-filled buffer of the given dimensions.
    pub fn zeros(width: u32, height: u32) -> (r: FrameData<T>)
        requires
            width as int * height as int <= usize::MAX as int,
        ensures
            r.wf(),
            r.width == width,
            r.height == height,
            forall|i: int| 0 <= i < r.data@.len() ==> #[trigger] r.px(i) == 0,
    {
        FrameData::filled(width, height, T::zero_value())
    }

    /// A one-filled buffer of the given dimensions.
    pub fn ones(width: u32, height: u32) -> (r: FrameData<T>)
        requires
            width as int * height as int <= usize::MAX as int,
        ensures
            r.wf(),
            r.width == width,
            r.height == height,
            forall|i: int| 0 <= i < r.data@.len() ==> #[trigger] r.px(i) == 1,
    {
        FrameData::filled(width, height, T::one_value())
    }
}

} // verus!
