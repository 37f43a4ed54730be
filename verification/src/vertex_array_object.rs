//! How the attributes of a vertex array are laid out in its buffers, and what
//! has to be asked of the context to set them up.
//!
//! The vertex array object and its buffers stay with the caller. The library
//! holds the layout, sees to it that the layout can be set up, and says which
//! attribute is to be pointed where.

use vstd::prelude::*;

use crate::constants::{AttributeSize, IndexType, NumberType};

verus! {

/// How an attribute lies in its buffer.
#[derive(Debug, Clone, Copy)]
pub enum AttributeType {
    /// Tightly packed, one value for each vertex.
    Single,
    /// Among other attributes, one value for each vertex.
    Interleaved { stride: u8, offset: u32 },
    /// One value for each `divisor` instances.
    PerInstance { stride: u8, divisor: u8 },
    /// Among other attributes, one value for each `divisor` instances.
    PerInstanceInterleaved { stride: u8, offset: u32, divisor: u8 },
}

/// One attribute of a vertex array.
#[derive(Debug, Clone, Copy)]
pub struct AttributeDescription {
    pub location: u32,
    pub unit_type: NumberType,
    pub size: AttributeSize,
    pub buffer: usize,
    pub normalize: bool,
    pub kind: AttributeType,
}

/// What the context is asked for one attribute: an integer pointer or a
/// floating point pointer, with its arguments.
#[derive(Debug, Clone, Copy, PartialEq, Eq)]
pub struct AttributePointer {
    /// Whether the attribute is read as integers, without conversion.
    pub integer: bool,
    pub location: u32,
    pub size: i32,
    pub unit_type: u32,
    pub normalize: bool,
    pub stride: i32,
    pub offset: i32,
}

impl AttributeType {
    /// The distance in bytes from one value to the next; 0 where the values
    /// are tightly packed.
    pub open spec fn stride(self) -> u8 {
        match self {
            AttributeType::Single => 0,
            AttributeType::Interleaved { stride, .. } => stride,
            AttributeType::PerInstance { stride, .. } => stride,
            AttributeType::PerInstanceInterleaved { stride, .. } => stride,
        }
    }

    /// Where the first value begins, in bytes from the beginning of the
    /// buffer.
    pub open spec fn offset(self) -> u32 {
        match self {
            AttributeType::Single => 0,
            AttributeType::Interleaved { offset, .. } => offset,
            AttributeType::PerInstance { .. } => 0,
            AttributeType::PerInstanceInterleaved { offset, .. } => offset,
        }
    }

    /// For how many instances one value stands; none where there is one
    /// value for each vertex.
    pub open spec fn divisor(self) -> Option<u32> {
        match self {
            AttributeType::Single => None,
            AttributeType::Interleaved { .. } => None,
            AttributeType::PerInstance { divisor, .. } => Some(divisor as u32),
            AttributeType::PerInstanceInterleaved { divisor, .. } => Some(divisor as u32),
        }
    }
}

impl AttributeDescription {
    /// Where the value for the instance `instance_offset` begins: so many
    /// strides behind the first value.
    pub open spec fn start_of(self, instance_offset: u32) -> int {
        self.kind.offset() + instance_offset * self.kind.stride()
    }

    /// The pointer that sets the attribute up so that the instance
    /// `instance_offset` comes first. Integer components that are not to be
    /// normalized are read as integers.
    pub open spec fn pointer(self, instance_offset: u32) -> AttributePointer {
        AttributePointer {
            integer: self.unit_type.is_integer() && !self.normalize,
            location: self.location,
            size: self.size.code(),
            unit_type: self.unit_type.code(),
            normalize: self.normalize,
            stride: self.kind.stride() as i32,
            offset: self.start_of(instance_offset) as i32,
        }
    }

    /// The stride and the offset of the attribute.
    pub fn get_stride_and_offset(&self) -> (layout: (u8, u32))
        ensures
            layout == (self.kind.stride(), self.kind.offset()),
    {
        match self.kind {
            AttributeType::Single => (0, 0),
            AttributeType::PerInstance { stride, .. } => (stride, 0),
            AttributeType::Interleaved { stride, offset }
            | AttributeType::PerInstanceInterleaved { stride, offset, .. } => (stride, offset),
        }
    }

    /// What to ask of the context so that the attribute begins at the
    /// instance `instance_offset`. There is no such pointer where the
    /// beginning lies beyond what an offset can hold.
    pub fn vertex_attrib_pointer(&self, instance_offset: u32) -> (pointer: Option<AttributePointer>)
        ensures
            pointer == if self.start_of(instance_offset) <= i32::MAX {
                Some(self.pointer(instance_offset))
            } else {
                None
            },
    {
        let (stride, offset) = self.get_stride_and_offset();
        assert(instance_offset * stride <= 0xFFFF_FFFF * 0xFF) by (nonlinear_arith)
            requires
                0 <= instance_offset <= 0xFFFF_FFFF,
                0 <= stride <= 0xFF,
        ;
        let start: u64 = offset as u64 + (instance_offset as u64) * (stride as u64);
        if start > 0x7FFF_FFFF {
            return None;
        }
        Some(
            AttributePointer {
                integer: self.unit_type.is_integer_type() && !self.normalize,
                location: self.location,
                size: self.size.into(),
                unit_type: self.unit_type.into(),
                normalize: self.normalize,
                stride: stride as i32,
                offset: start as i32,
            },
        )
    }

    /// For how many instances one value of the attribute stands, where the
    /// context has to be told.
    pub fn vertex_attrib_divisor(&self) -> (divisor: Option<u32>)
        ensures
            divisor == self.kind.divisor(),
    {
        match self.kind {
            AttributeType::PerInstance { divisor, .. }
            | AttributeType::PerInstanceInterleaved { divisor, .. } => Some(divisor as u32),
            _ => None,
        }
    }
}

/// Whether the attributes `first` and `second` are two attributes at one
/// location.
pub open spec fn overlap(attributes: Seq<AttributeDescription>, first: int, second: int) -> bool {
    &&& 0 <= first < attributes.len()
    &&& 0 <= second < attributes.len()
    &&& first != second
    &&& attributes[first].location == attributes[second].location
}

/// Whether `first` and `second` are the overlap that is met first when,
/// for each attribute in turn, every attribute is held against it.
pub open spec fn is_first_overlap(
    attributes: Seq<AttributeDescription>,
    first: int,
    second: int,
) -> bool {
    &&& overlap(attributes, first, second)
    &&& forall|i: int, j: int| 0 <= i < first ==> !overlap(attributes, i, j)
    &&& forall|j: int| 0 <= j < second ==> !overlap(attributes, first, j)
}

/// Looks for two attributes at one location; finds the first such pair, or
/// none where every attribute has a location of its own.
pub fn check_no_overlapping_locations(attributes: &[AttributeDescription]) -> (found: Option<
    (usize, usize),
>)
    ensures
        match found {
            Some((first, second)) => is_first_overlap(attributes@, first as int, second as int),
            None => forall|i: int, j: int| !overlap(attributes@, i, j),
        },
{
    let mut current: usize = 0;
    while current < attributes.len()
        invariant
            0 <= current <= attributes@.len(),
            forall|i: int, j: int| 0 <= i < current ==> !overlap(attributes@, i, j),
        decreases attributes@.len() - current,
    {
        let mut other: usize = 0;
        while other < attributes.len()
            invariant
                0 <= current < attributes@.len(),
                0 <= other <= attributes@.len(),
                forall|i: int, j: int| 0 <= i < current ==> !overlap(attributes@, i, j),
                forall|j: int| 0 <= j < other ==> !overlap(attributes@, current as int, j),
            decreases attributes@.len() - other,
        {
            if current != other && attributes[current].location == attributes[other].location {
                return Some((current, other));
            }
            other += 1;
        }
        current += 1;
    }
    None
}

/// Why attributes cannot be the attributes of a vertex array.
#[derive(Debug, Clone, Copy, PartialEq, Eq)]
pub enum VertexArrayError {
    /// The attributes `first` and `second` have the same location.
    OverlappingLocations { first: usize, second: usize },
    /// The attribute names a buffer that the vertex array does not have.
    MissingBuffer { attribute: usize },
    /// The attribute begins beyond what an offset can hold.
    OffsetOutOfRange { attribute: usize },
}

/// What is asked of the context for one attribute, with the buffer of the
/// attribute bound: its pointer, and its divisor where it has one.
#[derive(Debug, Clone, Copy, PartialEq, Eq)]
pub struct AttributeSetup {
    /// The place of the attribute's buffer among the buffers of the vertex
    /// array.
    pub buffer: usize,
    pub pointer: AttributePointer,
    pub divisor: Option<u32>,
}

impl AttributeDescription {
    /// Whether the attribute can be set up in a vertex array with
    /// `buffer_count` buffers, beginning at the instance `instance_offset`.
    pub open spec fn fits(self, buffer_count: usize, instance_offset: u32) -> bool {
        self.buffer < buffer_count && self.start_of(instance_offset) <= i32::MAX
    }

    /// What is asked of the context to set the attribute up so that the
    /// instance `instance_offset` comes first.
    pub open spec fn setup(self, instance_offset: u32) -> AttributeSetup {
        AttributeSetup {
            buffer: self.buffer,
            pointer: self.pointer(instance_offset),
            divisor: self.kind.divisor(),
        }
    }
}

/// Whether the attributes can be the attributes of a vertex array with
/// `buffer_count` buffers: no two of them have the same location, and each
/// can be set up.
pub open spec fn valid_layout(attributes: Seq<AttributeDescription>, buffer_count: usize) -> bool {
    &&& forall|i: int, j: int| !overlap(attributes, i, j)
    &&& forall|i: int|
        0 <= i < attributes.len() ==> (#[trigger] attributes[i]).fits(buffer_count, 0)
}

/// Why the attribute `index` cannot be set up. A buffer that is missing is
/// reported before an offset that is out of range.
pub open spec fn setup_error(
    attributes: Seq<AttributeDescription>,
    buffer_count: usize,
    instance_offset: u32,
    index: int,
) -> VertexArrayError {
    if attributes[index].buffer >= buffer_count {
        VertexArrayError::MissingBuffer { attribute: index as usize }
    } else {
        VertexArrayError::OffsetOutOfRange { attribute: index as usize }
    }
}

/// The setups of all the attributes, in their order.
pub open spec fn setups(attributes: Seq<AttributeDescription>) -> Seq<AttributeSetup> {
    attributes.map_values(|attribute: AttributeDescription| attribute.setup(0))
}

/// The pointers of the attributes that lie in the buffer `index`, in the
/// order of the attributes.
pub open spec fn pointers_for_buffer(attributes: Seq<AttributeDescription>, index: usize) -> Seq<
    AttributePointer,
>
    decreases attributes.len(),
{
    if attributes.len() == 0 {
        Seq::empty()
    } else {
        let before = pointers_for_buffer(attributes.drop_last(), index);
        if attributes.last().buffer == index {
            before.push(attributes.last().pointer(0))
        } else {
            before
        }
    }
}

/// The setups, beginning at the instance `instance_offset`, of the
/// attributes that have one value for a number of instances, in the order
/// of the attributes; or the first of them that begins beyond what an
/// offset can hold.
pub open spec fn instance_setups(
    attributes: Seq<AttributeDescription>,
    instance_offset: u32,
) -> Result<Seq<AttributeSetup>, VertexArrayError>
    decreases attributes.len(),
{
    if attributes.len() == 0 {
        Ok(Seq::empty())
    } else {
        match instance_setups(attributes.drop_last(), instance_offset) {
            Err(error) => Err(error),
            Ok(before) => if attributes.last().kind.divisor() is None {
                Ok(before)
            } else if attributes.last().start_of(instance_offset) <= i32::MAX {
                Ok(before.push(attributes.last().setup(instance_offset)))
            } else {
                Err(
                    VertexArrayError::OffsetOutOfRange {
                        attribute: (attributes.len() - 1) as usize,
                    },
                )
            },
        }
    }
}

/// An error among the first `count` attributes is the error of them all.
proof fn lemma_instance_error_stays(
    attributes: Seq<AttributeDescription>,
    instance_offset: u32,
    count: int,
)
    requires
        0 <= count <= attributes.len(),
        instance_setups(attributes.take(count), instance_offset) is Err,
    ensures
        instance_setups(attributes, instance_offset) == instance_setups(
            attributes.take(count),
            instance_offset,
        ),
    decreases attributes.len() - count,
{
    if count == attributes.len() {
        assert(attributes.take(count) =~= attributes);
    } else {
        assert(attributes.take(count + 1).drop_last() =~= attributes.take(count));
        lemma_instance_error_stays(attributes, instance_offset, count + 1);
    }
}

/// The layout of a vertex array: its attributes, the number of its
/// buffers, and the type of its indices where it has an index buffer. The
/// layout is one that can be set up.
#[derive(Debug)]
pub struct GlVertexArrayObject {
    attribute_descriptors: Vec<AttributeDescription>,
    buffer_count: usize,
    index_type: Option<IndexType>,
}

impl GlVertexArrayObject {
    #[verifier::type_invariant]
    spec fn well_formed(&self) -> bool {
        valid_layout(self.attribute_descriptors@, self.buffer_count)
    }

    /// The attributes of the vertex array.
    pub closed spec fn attributes(&self) -> Seq<AttributeDescription> {
        self.attribute_descriptors@
    }

    /// The number of buffers of the vertex array.
    pub closed spec fn buffers(&self) -> usize {
        self.buffer_count
    }

    /// The type of the indices, where the vertex array has an index
    /// buffer.
    pub closed spec fn indices(&self) -> Option<IndexType> {
        self.index_type
    }

    /// The layout of a vertex array with the given attributes, with
    /// `buffer_count` buffers and with an index buffer of the given type.
    /// Two attributes at one location are an error; if there are none, the
    /// first attribute that cannot be set up is.
    pub fn new(
        attribute_descriptors: Vec<AttributeDescription>,
        buffer_count: usize,
        index_type: Option<IndexType>,
    ) -> (result: Result<Self, VertexArrayError>)
        ensures
            match result {
                Ok(layout) => {
                    &&& valid_layout(attribute_descriptors@, buffer_count)
                    &&& layout.attributes() == attribute_descriptors@
                    &&& layout.buffers() == buffer_count
                    &&& layout.indices() == index_type
                },
                Err(VertexArrayError::OverlappingLocations { first, second }) => is_first_overlap(
                    attribute_descriptors@,
                    first as int,
                    second as int,
                ),
                Err(error) => {
                    &&& forall|i: int, j: int| !overlap(attribute_descriptors@, i, j)
                    &&& exists|index: int|
                        {
                            &&& 0 <= index < attribute_descriptors@.len()
                            &&& !(#[trigger] attribute_descriptors@[index]).fits(buffer_count, 0)
                            &&& forall|i: int|
                                0 <= i < index ==> (#[trigger] attribute_descriptors@[i]).fits(
                                    buffer_count,
                                    0,
                                )
                            &&& error == setup_error(attribute_descriptors@, buffer_count, 0, index)
                        }
                },
            },
    {
        match check_no_overlapping_locations(attribute_descriptors.as_slice()) {
            Some((first, second)) => {
                return Err(VertexArrayError::OverlappingLocations { first, second });
            },
            None => {},
        }
        let mut index: usize = 0;
        while index < attribute_descriptors.len()
            invariant
                0 <= index <= attribute_descriptors@.len(),
                forall|i: int, j: int| !overlap(attribute_descriptors@, i, j),
                forall|i: int|
                    0 <= i < index ==> (#[trigger] attribute_descriptors@[i]).fits(buffer_count, 0),
            decreases attribute_descriptors@.len() - index,
        {
            let attribute = &attribute_descriptors[index];
            if attribute.buffer >= buffer_count {
                assert(!attribute_descriptors@[index as int].fits(buffer_count, 0));
                return Err(VertexArrayError::MissingBuffer { attribute: index });
            }
            if attribute.vertex_attrib_pointer(0).is_none() {
                assert(!attribute_descriptors@[index as int].fits(buffer_count, 0));
                return Err(VertexArrayError::OffsetOutOfRange { attribute: index });
            }
            index += 1;
        }
        Ok(GlVertexArrayObject { attribute_descriptors, buffer_count, index_type })
    }

    /// The type of the indices, where the vertex array has an index
    /// buffer.
    pub fn get_index_type(&self) -> (index_type: Option<IndexType>)
        ensures
            index_type == self.indices(),
    {
        self.index_type
    }

    /// What is asked of the context, attribute by attribute, when the
    /// vertex array is made.
    pub fn attribute_setups(&self) -> (list: Vec<AttributeSetup>)
        ensures
            list@ == setups(self.attributes()),
            valid_layout(self.attributes(), self.buffers()),
    {
        proof {
            use_type_invariant(self);
        }
        let mut list: Vec<AttributeSetup> = Vec::new();
        let mut index: usize = 0;
        while index < self.attribute_descriptors.len()
            invariant
                0 <= index <= self.attribute_descriptors@.len(),
                valid_layout(self.attribute_descriptors@, self.buffer_count),
                list@ == setups(self.attribute_descriptors@).take(index as int),
            decreases self.attribute_descriptors@.len() - index,
        {
            let attribute = &self.attribute_descriptors[index];
            assert(attribute.fits(self.buffer_count, 0));
            match attribute.vertex_attrib_pointer(0) {
                Some(pointer) => {
                    list.push(
                        AttributeSetup {
                            buffer: attribute.buffer,
                            pointer,
                            divisor: attribute.vertex_attrib_divisor(),
                        },
                    );
                },
                None => {},
            }
            assert(list@ =~= setups(self.attribute_descriptors@).take(index + 1));
            index += 1;
        }
        assert(list@ =~= setups(self.attribute_descriptors@));
        list
    }

    /// The pointers that are set anew when the buffer `index` gives way to
    /// another: those of the attributes that lie in it. There are none to
    /// tell where the vertex array has no such buffer.
    pub fn swap_buffer(&self, index: usize) -> (pointers: Option<Vec<AttributePointer>>)
        ensures
            match pointers {
                Some(pointers) => index < self.buffers() && pointers@ == pointers_for_buffer(
                    self.attributes(),
                    index,
                ),
                None => index >= self.buffers(),
            },
    {
        proof {
            use_type_invariant(self);
        }
        if index >= self.buffer_count {
            return None;
        }
        let ghost attributes = self.attribute_descriptors@;
        let mut pointers: Vec<AttributePointer> = Vec::new();
        let mut at: usize = 0;
        assert(attributes.take(0) =~= Seq::<AttributeDescription>::empty());
        while at < self.attribute_descriptors.len()
            invariant
                0 <= at <= attributes.len(),
                attributes == self.attribute_descriptors@,
                valid_layout(attributes, self.buffer_count),
                pointers@ == pointers_for_buffer(attributes.take(at as int), index),
            decreases attributes.len() - at,
        {
            let attribute = &self.attribute_descriptors[at];
            proof {
                assert(attributes.take(at + 1).drop_last() =~= attributes.take(at as int));
                assert(attributes.take(at + 1).last() == *attribute);
                assert(attribute.fits(self.buffer_count, 0));
            }
            if attribute.buffer == index {
                match attribute.vertex_attrib_pointer(0) {
                    Some(pointer) => {
                        pointers.push(pointer);
                    },
                    None => {},
                }
            }
            at += 1;
        }
        assert(attributes.take(at as int) =~= attributes);
        Some(pointers)
    }

    /// What is asked of the context so that the instance `instance_offset`
    /// comes first: the setups of the attributes that have one value for a
    /// number of instances.
    pub fn set_instance_offset(&self, instance_offset: u32) -> (result: Result<
        Vec<AttributeSetup>,
        VertexArrayError,
    >)
        ensures
            match result {
                Ok(list) => instance_setups(self.attributes(), instance_offset) == Ok::<
                    Seq<AttributeSetup>,
                    VertexArrayError,
                >(list@),
                Err(error) => instance_setups(self.attributes(), instance_offset) == Err::<
                    Seq<AttributeSetup>,
                    VertexArrayError,
                >(error),
            },
    {
        let ghost attributes = self.attribute_descriptors@;
        let mut list: Vec<AttributeSetup> = Vec::new();
        let mut at: usize = 0;
        assert(attributes.take(0) =~= Seq::<AttributeDescription>::empty());
        while at < self.attribute_descriptors.len()
            invariant
                0 <= at <= attributes.len(),
                attributes == self.attribute_descriptors@,
                instance_setups(attributes.take(at as int), instance_offset) == Ok::<
                    Seq<AttributeSetup>,
                    VertexArrayError,
                >(list@),
            decreases attributes.len() - at,
        {
            let attribute = &self.attribute_descriptors[at];
            proof {
                assert(attributes.take(at + 1).drop_last() =~= attributes.take(at as int));
                assert(attributes.take(at + 1).last() == *attribute);
            }
            match attribute.vertex_attrib_divisor() {
                Some(divisor) => {
                    match attribute.vertex_attrib_pointer(instance_offset) {
                        Some(pointer) => {
                            list.push(
                                AttributeSetup {
                                    buffer: attribute.buffer,
                                    pointer,
                                    divisor: Some(divisor),
                                },
                            );
                        },
                        None => {
                            proof {
                                lemma_instance_error_stays(attributes, instance_offset, at + 1);
                            }
                            return Err(VertexArrayError::OffsetOutOfRange { attribute: at });
                        },
                    }
                },
                None => {},
            }
            at += 1;
        }
        assert(attributes.take(at as int) =~= attributes);
        Ok(list)
    }
}

} // verus!
