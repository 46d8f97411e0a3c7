//! The output buffer: pixel bytes of a fixed capacity with the image's size
//! and the name of its destination.

use crate::errors::ImageDataErrors;
use vstd::prelude::*;

verus! {

/// What a [`FloatingImage`] holds, as mathematical values.
pub struct FloatingImageView {
    pub width: u32,
    pub height: u32,
    pub data: Seq<u8>,
    pub name: Seq<char>,
}

impl FloatingImageView {
    /// The number of bytes reserved: four for every pixel.
    pub open spec fn capacity(self) -> int {
        self.width as int * self.height as int * 4
    }
}

/// Raw RGBA data of one image, with its width, height and destination name.
/// The data never grows beyond the capacity fixed when the buffer was made.
pub struct FloatingImage {
    width: u32,
    height: u32,
    data: Vec<u8>,
    name: String,
}

impl View for FloatingImage {
    type V = FloatingImageView;

    closed spec fn view(&self) -> FloatingImageView {
        FloatingImageView {
            width: self.width,
            height: self.height,
            data: self.data@,
            name: self.name@,
        }
    }
}

impl FloatingImage {
    #[verifier::type_invariant]
    spec fn inv(&self) -> bool {
        self.data@.len() <= self@.capacity() <= usize::MAX
    }

    /// Makes an empty buffer for an image of `width` by `height` pixels and
    /// reserves room for its `width * height * 4` bytes, which must be a
    /// number the platform can represent as a size.
    pub fn new(width: u32, height: u32, name: String) -> (image: FloatingImage)
        requires
            width as int * height as int * 4 <= usize::MAX,
        ensures
            image@ == (FloatingImageView { width, height, data: Seq::empty(), name: name@ }),
    {
        proof {
            assert(0 <= height as int * width as int <= height as int * width as int * 4
                && height as int * width as int == width as int * height as int)
                by (nonlinear_arith)
                requires
                    0 <= width as int,
                    0 <= height as int,
            ;
        }
        let buffer_capacity: usize = (height as usize) * (width as usize) * 4;
        let buffer: Vec<u8> = Vec::with_capacity(buffer_capacity);
        FloatingImage { width, height, data: buffer, name }
    }

    /// Replaces the content with `data` if that is no longer than the
    /// capacity, shorter data included. Longer data is refused with
    /// `BufferTooSmall` and the buffer stays as it was.
    pub fn set_data(&mut self, data: Vec<u8>) -> (result: Result<(), ImageDataErrors>)
        ensures
            result is Ok <==> data@.len() <= old(self)@.capacity(),
            result is Ok ==> final(self)@ == (FloatingImageView { data: data@, ..old(self)@ }),
            result is Err ==> result->Err_0 is BufferTooSmall && final(self)@ == old(self)@,
    {
        proof {
            use_type_invariant(&*self);
        }
        if data.len() > self.capacity() {
            return Err(ImageDataErrors::BufferTooSmall);
        }
        self.data = data;
        Ok(())
    }

    /// The number of bytes reserved when the buffer was made.
    pub fn capacity(&self) -> (bytes: usize)
        ensures
            bytes == self@.capacity(),
    {
        proof {
            use_type_invariant(self);
            assert(0 <= self.height as int * self.width as int <= self.height as int
                * self.width as int * 4 && self.height as int * self.width as int
                == self.width as int * self.height as int) by (nonlinear_arith)
                requires
                    0 <= self.width as int,
                    0 <= self.height as int,
            ;
        }
        (self.height as usize) * (self.width as usize) * 4
    }

    /// The width in pixels.
    pub fn width(&self) -> (w: u32)
        ensures
            w == self@.width,
    {
        self.width
    }

    /// The height in pixels.
    pub fn height(&self) -> (h: u32)
        ensures
            h == self@.height,
    {
        self.height
    }

    /// The bytes held, never more than the capacity.
    pub fn data(&self) -> (bytes: &Vec<u8>)
        ensures
            bytes@ == self@.data,
            bytes@.len() <= self@.capacity(),
    {
        proof {
            use_type_invariant(self);
        }
        &self.data
    }

    /// The name of the destination.
    pub fn name(&self) -> (name: &str)
        ensures
            name@ == self@.name,
    {
        self.name.as_str()
    }
}

} // verus!
