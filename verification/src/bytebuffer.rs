use vstd::prelude::*;

verus! {

/// A buffer whose memory is handed across the C boundary.
///
/// `data` is the memory the buffer owns (`None` is a buffer without memory, a
/// null pointer on the C side). `length` and `capacity` are the sizes the C
/// side reads: for a buffer of bytes they count bytes, for a buffer made by
/// [`ByteBuffer::from_vec_struct`] they count the bytes of the elements.
pub struct ByteBuffer<T = u8> {
    pub data: Option<Vec<T>>,
    pub length: i32,
    pub capacity: i32,
}

/// The C-side size of `count` elements of `element_size` bytes, computed as
/// the buffer does it: both are first cast to `i32` (wrapping), then multiplied.
pub open spec fn scaled_size(count: int, element_size: int) -> int {
    (count as i32) as int * (element_size as i32) as int
}

/// For elements of at most one byte, the C-side size of any count fits in an
/// `i32`: the count is wrapped to an `i32` and multiplied by 0 or 1.
pub proof fn lemma_scaled_size_small_element_fits(count: int, element_size: int)
    requires
        0 <= element_size <= 1,
    ensures
        fits_i32(scaled_size(count, element_size)),
{
    let c = (count as i32) as int;
    assert(i32::MIN <= c <= i32::MAX);
    if element_size == 0 {
        assert((0int as i32) as int == 0);
        assert(scaled_size(count, element_size) == c * 0);
    } else {
        assert((1int as i32) as int == 1);
        assert(scaled_size(count, element_size) == c * 1);
    }
}

/// Whether a value fits in an `i32`.
pub open spec fn fits_i32(v: int) -> bool {
    i32::MIN <= v <= i32::MAX
}

/// `std::vec::Vec::capacity`: the number of elements the vector can hold
/// without reallocating. Its documentation guarantees that it is never below
/// the length; the exact value is the allocator's choice and is left unsaid.
#[verifier::external_body]
pub(crate) fn vec_capacity<T>(v: &Vec<T>) -> (r: usize)
    ensures
        r >= v.len(),
{
    v.capacity()
}

impl<T> ByteBuffer<T> {
    /// The buffer owns memory, and `bytes` is what that memory holds.
    pub open spec fn holds(self, bytes: Seq<T>) -> bool {
        self.data matches Some(v) && v@ == bytes
    }

    /// The elements [`ByteBuffer::destroy_into_vec`] gives back.
    pub open spec fn contents(self) -> Seq<T> {
        match self.data {
            Some(v) => v@.take(self.length as int),
            None => Seq::empty(),
        }
    }

    /// The inputs on which [`ByteBuffer::destroy_into_vec`] is defined: a buffer
    /// without memory, or sizes that are not negative, a length within the
    /// capacity, and a length within the memory the buffer owns.
    pub open spec fn destroyable(self) -> bool {
        self.data matches Some(v) ==> {
            &&& 0 <= self.length <= self.capacity
            &&& self.length <= v@.len()
        }
    }

    /// The number of elements [`ByteBuffer::destroy_into_vec_struct`] reads
    /// back: the length scaled once more by the element size.
    pub open spec fn struct_length(self) -> int {
        self.length as int * (vstd::layout::size_of::<T>() as i32) as int
    }

    /// The capacity [`ByteBuffer::destroy_into_vec_struct`] reads back.
    pub open spec fn struct_capacity(self) -> int {
        self.capacity as int * (vstd::layout::size_of::<T>() as i32) as int
    }

    /// The inputs on which [`ByteBuffer::destroy_into_vec_struct`] is defined.
    pub open spec fn struct_destroyable(self) -> bool {
        self.data matches Some(v) ==> {
            &&& fits_i32(self.struct_length())
            &&& fits_i32(self.struct_capacity())
            &&& 0 <= self.struct_length() <= self.struct_capacity()
            &&& self.struct_length() <= v@.len()
        }
    }

    /// The elements [`ByteBuffer::destroy_into_vec_struct`] gives back.
    pub open spec fn struct_contents(self) -> Seq<T> {
        match self.data {
            Some(v) => v@.take(self.struct_length()),
            None => Seq::empty(),
        }
    }

    /// The number of elements of the buffer, as the C side recorded it.
    ///
    /// The length of a buffer is never negative; on a negative one the
    /// conversion fails, so such a buffer is left out.
    pub fn len(&self) -> (r: usize)
        requires
            self.length >= 0,
        ensures
            r == self.length,
    {
        self.length as usize
    }

    /// Wraps a vector of elements in a buffer whose sizes count bytes:
    /// the element count times the element size.
    ///
    /// The length is computed from the vector's length and must fit in an
    /// `i32`. The capacity comes from the allocator; where its scaled size
    /// does not fit, the result is `None`. For elements of at most one byte it
    /// always fits, so the result is then always a buffer.
    pub fn from_vec_struct(bytes: Vec<T>) -> (r: Option<ByteBuffer<T>>)
        requires
            fits_i32(scaled_size(bytes.len() as int, vstd::layout::size_of::<T>() as int)),
        ensures
            r matches Some(b) ==> {
                &&& b.holds(bytes@)
                &&& b.length == scaled_size(bytes.len() as int, vstd::layout::size_of::<T>() as int)
                &&& exists|cap: usize|
                    #![trigger scaled_size(cap as int, vstd::layout::size_of::<T>() as int)]
                    cap >= bytes.len() && b.capacity == scaled_size(
                        cap as int,
                        vstd::layout::size_of::<T>() as int,
                    )
            },
            vstd::layout::size_of::<T>() <= 1 ==> r is Some,
    {
        let capacity = vec_capacity(&bytes);
        proof {
            if vstd::layout::size_of::<T>() <= 1 {
                lemma_scaled_size_small_element_fits(capacity as int, vstd::layout::size_of::<T>() as int);
            }
        }
        Self::from_vec_struct_and_capacity(bytes, capacity)
    }

    /// The part of [`ByteBuffer::from_vec_struct`] that follows the query of
    /// the vector's capacity: `capacity` is that capacity.
    pub fn from_vec_struct_and_capacity(bytes: Vec<T>, capacity: usize) -> (r: Option<ByteBuffer<T>>)
        requires
            fits_i32(scaled_size(bytes.len() as int, vstd::layout::size_of::<T>() as int)),
            capacity >= bytes.len(),
        ensures
            r is Some <==> fits_i32(scaled_size(capacity as int, vstd::layout::size_of::<T>() as int)),
            r matches Some(b) ==> {
                &&& b.holds(bytes@)
                &&& b.length == scaled_size(bytes.len() as int, vstd::layout::size_of::<T>() as int)
                &&& b.capacity == scaled_size(capacity as int, vstd::layout::size_of::<T>() as int)
            },
    {
        let element_size = core::mem::size_of::<T>() as i32;
        let length = (bytes.len() as i32) * element_size;
        match (capacity as i32).checked_mul(element_size) {
            Some(capacity) => Some(ByteBuffer { data: Some(bytes), length, capacity }),
            None => None,
        }
    }

    /// Takes the elements back out of a buffer made by
    /// [`ByteBuffer::from_vec_struct`]: the first `length * element size`
    /// elements (the length is scaled by the element size once more).
    /// A buffer without memory gives an empty vector.
    pub fn destroy_into_vec_struct(self) -> (r: Vec<T>)
        requires
            self.struct_destroyable(),
        ensures
            r@ == self.struct_contents(),
    {
        match self.data {
            None => Vec::new(),
            Some(mut v) => {
                let element_size = core::mem::size_of::<T>() as i32;
                let length = (self.length * element_size) as usize;
                v.truncate(length);
                v
            },
        }
    }
}

impl ByteBuffer<u8> {
    /// Wraps a vector of bytes in a buffer; its length and capacity are the
    /// vector's.
    ///
    /// The length must fit in an `i32`. The capacity comes from the
    /// allocator; where it does not fit, the result is `None`.
    pub fn from_vec(bytes: Vec<u8>) -> (r: Option<ByteBuffer>)
        requires
            bytes.len() <= i32::MAX,
        ensures
            r matches Some(b) ==> {
                &&& b.holds(bytes@)
                &&& b.length == bytes.len()
                &&& b.length <= b.capacity
            },
    {
        let capacity = vec_capacity(&bytes);
        Self::from_vec_and_capacity(bytes, capacity)
    }

    /// The part of [`ByteBuffer::from_vec`] that follows the query of the
    /// vector's capacity: `capacity` is that capacity.
    pub fn from_vec_and_capacity(bytes: Vec<u8>, capacity: usize) -> (r: Option<ByteBuffer>)
        requires
            bytes.len() <= i32::MAX,
            capacity >= bytes.len(),
        ensures
            r is Some <==> capacity <= i32::MAX,
            r matches Some(b) ==> {
                &&& b.holds(bytes@)
                &&& b.length == bytes.len()
                &&& b.capacity == capacity
            },
    {
        if capacity <= i32::MAX as usize {
            let length = bytes.len() as i32;
            Some(ByteBuffer { data: Some(bytes), length, capacity: capacity as i32 })
        } else {
            None
        }
    }

    /// Takes the bytes back out of the buffer: the first `length` bytes of
    /// its memory, or an empty vector for a buffer without memory.
    pub fn destroy_into_vec(self) -> (r: Vec<u8>)
        requires
            self.destroyable(),
        ensures
            r@ == self.contents(),
    {
        match self.data {
            None => Vec::new(),
            Some(mut v) => {
                let length = self.length as usize;
                v.truncate(length);
                v
            },
        }
    }

    /// Releases the buffer and its memory: it takes the bytes out as
    /// [`ByteBuffer::destroy_into_vec`] does, on the same inputs, and drops them.
    pub fn destroy(self)
        requires
            self.destroyable(),
    {
        let _bytes = self.destroy_into_vec();
    }
}

/// A buffer made from a vector of bytes gives that vector back when it is
/// destroyed: [`ByteBuffer::from_vec`] keeps the bytes until
/// [`ByteBuffer::destroy_into_vec`] hands them back, and its length, which
/// [`ByteBuffer::len`] reads, is the vector's.
pub proof fn lemma_from_vec_round_trip(b: ByteBuffer, bytes: Seq<u8>)
    requires
        b.holds(bytes),
        b.length == bytes.len(),
        b.length <= b.capacity,
    ensures
        b.length >= 0,
        b.destroyable(),
        b.contents() == bytes,
{
    assert(b.data.unwrap()@.take(b.length as int) =~= bytes);
}

/// For elements of one byte, a buffer made by [`ByteBuffer::from_vec_struct`]
/// gives the vector back when destroyed by
/// [`ByteBuffer::destroy_into_vec_struct`], as long as the vector's length
/// fits in an `i32` and the recorded capacity is not below the length.
///
/// For larger elements the length is scaled by the element size twice (once
/// when the buffer is made, once when it is destroyed), so destroying such a
/// buffer of one or more elements asks for more elements than the buffer holds.
pub proof fn lemma_from_vec_struct_round_trip<T>(b: ByteBuffer<T>, elements: Seq<T>)
    requires
        vstd::layout::size_of::<T>() == 1,
        elements.len() <= i32::MAX,
        b.holds(elements),
        b.length == scaled_size(elements.len() as int, 1),
        b.length <= b.capacity,
    ensures
        b.struct_destroyable(),
        b.struct_contents() == elements,
{
    let n = elements.len() as int;
    assert((n as i32) as int == n);
    assert((1int as i32) as int == 1);
    assert(b.struct_length() == n);
    assert(b.data.unwrap()@.take(b.struct_length()) =~= elements);
}

} // verus!
