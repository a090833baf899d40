use vstd::prelude::*;
use crate::consts::{GL_FALSE, GL_FLOAT};

verus! {

/// The element shape of one vertex field: a float, a float vector of two to
/// four components, or a square float matrix of order two to four.
#[derive(Clone, Copy, Debug, PartialEq, Eq, Structural)]
pub enum AttribKind {
    Float,
    Vec2,
    Vec3,
    Vec4,
    Mat2,
    Mat3,
    Mat4,
}

/// Component count handed to the driver for a field of this shape; a matrix
/// counts its columns.
pub open spec fn kind_components(k: AttribKind) -> int {
    match k {
        AttribKind::Float => 1,
        AttribKind::Vec2 => 2,
        AttribKind::Vec3 => 3,
        AttribKind::Vec4 => 4,
        AttribKind::Mat2 => 2,
        AttribKind::Mat3 => 3,
        AttribKind::Mat4 => 4,
    }
}

/// Bytes a field of this shape occupies: four per float.
pub open spec fn kind_bytes(k: AttribKind) -> int {
    match k {
        AttribKind::Float => 4,
        AttribKind::Vec2 => 8,
        AttribKind::Vec3 => 12,
        AttribKind::Vec4 => 16,
        AttribKind::Mat2 => 16,
        AttribKind::Mat3 => 36,
        AttribKind::Mat4 => 64,
    }
}

/// Byte size of a record whose fields have the given shapes, laid out in
/// declaration order. Every shape is made of floats, so no field needs
/// padding and the size is the sum of the fields' sizes.
pub open spec fn record_size(kinds: Seq<AttribKind>) -> int
    decreases kinds.len(),
{
    if kinds.len() == 0 {
        0
    } else {
        record_size(kinds.drop_last()) + kind_bytes(kinds.last())
    }
}

/// Byte offset of field `i` within such a record.
pub open spec fn field_offset(kinds: Seq<AttribKind>, i: int) -> int {
    record_size(kinds.take(i))
}

impl AttribKind {
    /// Component count of a field of this shape.
    pub fn vertex_attrib_size(&self) -> (r: i32)
        ensures
            r == kind_components(*self),
    {
        match self {
            AttribKind::Float => 1,
            AttribKind::Vec2 => 2,
            AttribKind::Vec3 => 3,
            AttribKind::Vec4 => 4,
            AttribKind::Mat2 => 2,
            AttribKind::Mat3 => 3,
            AttribKind::Mat4 => 4,
        }
    }

    /// Byte size of a field of this shape.
    pub fn byte_size(&self) -> (r: usize)
        ensures
            r == kind_bytes(*self),
    {
        match self {
            AttribKind::Float => 4,
            AttribKind::Vec2 => 8,
            AttribKind::Vec3 => 12,
            AttribKind::Vec4 => 16,
            AttribKind::Mat2 => 16,
            AttribKind::Mat3 => 36,
            AttribKind::Mat4 => 64,
        }
    }

    /// Element type of a field of this shape: every shape is made of floats.
    pub fn gl_type(&self) -> (r: u32)
        ensures
            r == GL_FLOAT,
    {
        GL_FLOAT
    }
}

/// How the fields of one vertex record map to vertex attributes: a name and
/// a shape per field, in declaration order, with the byte offsets and the
/// stride of the record that holds them.
pub struct VertexLayout {
    names: Vec<String>,
    kinds: Vec<AttribKind>,
    offsets: Vec<usize>,
    stride: usize,
}

impl VertexLayout {
    /// The field names, in declaration order.
    pub closed spec fn field_names(&self) -> Seq<Seq<char>> {
        Seq::new(self.kinds@.len(), |i: int| self.names@[i]@)
    }

    /// The field shapes, in declaration order.
    pub closed spec fn field_kinds(&self) -> Seq<AttribKind> {
        self.kinds@
    }

    #[verifier::type_invariant]
    spec fn inv(&self) -> bool {
        &&& self.names@.len() == self.kinds@.len()
        &&& self.offsets@.len() == self.kinds@.len()
        &&& forall|i: int|
            0 <= i < self.kinds@.len() ==> #[trigger] self.offsets@[i] == field_offset(
                self.kinds@,
                i,
            )
        &&& self.stride == record_size(self.kinds@)
        &&& self.stride <= i32::MAX
    }

    /// A layout with no fields.
    pub fn new() -> (r: VertexLayout)
        ensures
            r.field_names() == Seq::<Seq<char>>::empty(),
            r.field_kinds() == Seq::<AttribKind>::empty(),
    {
        let r = VertexLayout { names: Vec::new(), kinds: Vec::new(), offsets: Vec::new(), stride: 0 };
        assert(r.field_names() =~= Seq::<Seq<char>>::empty());
        r
    }

    /// The layout with one more field after the present ones.
    pub fn field(self, name: &str, kind: AttribKind) -> (r: VertexLayout)
        requires
            record_size(self.field_kinds()) + kind_bytes(kind) <= i32::MAX,
        ensures
            r.field_names() == self.field_names().push(name@),
            r.field_kinds() == self.field_kinds().push(kind),
    {
        proof {
            use_type_invariant(&self);
        }
        let ghost old_kinds = self.kinds@;
        let VertexLayout { mut names, mut kinds, mut offsets, stride } = self;
        names.push(name.to_owned());
        kinds.push(kind);
        offsets.push(stride);
        let new_stride = stride + kind.byte_size();
        assert(kinds@.drop_last() == old_kinds);
        assert(kinds@.take(old_kinds.len() as int) == old_kinds);
        assert forall|i: int| 0 <= i < old_kinds.len() implies kinds@.take(i) == old_kinds.take(
            i,
        ) by {}
        let r = VertexLayout { names, kinds, offsets, stride: new_stride };
        assert(r.field_names() =~= self.field_names().push(name@));
        r
    }

    /// Number of fields.
    pub fn len(&self) -> (r: usize)
        ensures
            r == self.field_kinds().len(),
            r == self.field_names().len(),
    {
        proof {
            use_type_invariant(self);
        }
        self.kinds.len()
    }

    /// The attribute names to look up in a program, one per field.
    pub fn names(&self) -> (r: Vec<String>)
        ensures
            r@.len() == self.field_names().len(),
            forall|i: int| 0 <= i < r@.len() ==> #[trigger] r@[i]@ == self.field_names()[i],
    {
        proof {
            use_type_invariant(self);
        }
        let mut r: Vec<String> = Vec::new();
        let mut i: usize = 0;
        while i < self.names.len()
            invariant
                0 <= i <= self.names@.len(),
                r@.len() == i,
                forall|j: int| 0 <= j < i ==> #[trigger] r@[j]@ == self.names@[j]@,
            decreases self.names@.len() - i,
        {
            r.push(self.names[i].clone());
            i = i + 1;
        }
        r
    }

    /// Component count of each field.
    pub fn sizes(&self) -> (r: Vec<i32>)
        ensures
            r@.len() == self.field_kinds().len(),
            forall|i: int|
                0 <= i < r@.len() ==> #[trigger] r@[i] == kind_components(self.field_kinds()[i]),
    {
        let mut r: Vec<i32> = Vec::new();
        let mut i: usize = 0;
        while i < self.kinds.len()
            invariant
                0 <= i <= self.kinds@.len(),
                r@.len() == i,
                forall|j: int| 0 <= j < i ==> #[trigger] r@[j] == kind_components(self.kinds@[j]),
            decreases self.kinds@.len() - i,
        {
            r.push(self.kinds[i].vertex_attrib_size());
            i = i + 1;
        }
        r
    }

    /// Element type of each field.
    pub fn types(&self) -> (r: Vec<u32>)
        ensures
            r@.len() == self.field_kinds().len(),
            forall|i: int| 0 <= i < r@.len() ==> #[trigger] r@[i] == GL_FLOAT,
    {
        let mut r: Vec<u32> = Vec::new();
        let mut i: usize = 0;
        while i < self.kinds.len()
            invariant
                0 <= i <= self.kinds@.len(),
                r@.len() == i,
                forall|j: int| 0 <= j < i ==> #[trigger] r@[j] == GL_FLOAT,
            decreases self.kinds@.len() - i,
        {
            r.push(self.kinds[i].gl_type());
            i = i + 1;
        }
        r
    }

    /// Normalization flag of each field: never normalized.
    pub fn normalizeds(&self) -> (r: Vec<u8>)
        ensures
            r@.len() == self.field_kinds().len(),
            forall|i: int| 0 <= i < r@.len() ==> #[trigger] r@[i] == GL_FALSE,
    {
        let mut r: Vec<u8> = Vec::new();
        let mut i: usize = 0;
        while i < self.kinds.len()
            invariant
                0 <= i <= self.kinds@.len(),
                r@.len() == i,
                forall|j: int| 0 <= j < i ==> #[trigger] r@[j] == GL_FALSE,
            decreases self.kinds@.len() - i,
        {
            r.push(GL_FALSE);
            i = i + 1;
        }
        r
    }

    /// Byte size of one record.
    pub fn stride(&self) -> (r: i32)
        ensures
            r == record_size(self.field_kinds()),
    {
        proof {
            use_type_invariant(self);
        }
        self.stride as i32
    }

    /// Byte offset of each field within a record.
    pub fn pointers(&self) -> (r: Vec<usize>)
        ensures
            r@.len() == self.field_kinds().len(),
            forall|i: int|
                0 <= i < r@.len() ==> #[trigger] r@[i] == field_offset(self.field_kinds(), i),
    {
        proof {
            use_type_invariant(self);
        }
        self.offsets.clone()
    }
}

/// Arguments of one configure-and-enable call for a vertex attribute.
#[derive(Clone, Copy, Debug, PartialEq, Eq, Structural)]
pub struct AttribPointer {
    /// Attribute slot in the program; never the "not found" value -1.
    pub location: i32,
    pub size: i32,
    pub gl_type: u32,
    pub normalized: u8,
    pub stride: i32,
    /// Byte offset of the field within a record.
    pub offset: usize,
}

/// The call that configures field `i` of a record at the given slot.
pub open spec fn pointer_for(kinds: Seq<AttribKind>, i: int, location: i32) -> AttribPointer {
    AttribPointer {
        location,
        size: kind_components(kinds[i]) as i32,
        gl_type: GL_FLOAT,
        normalized: GL_FALSE,
        stride: record_size(kinds) as i32,
        offset: field_offset(kinds, i) as usize,
    }
}

/// The calls for the first `locs.len()` fields, in field order, where
/// `locs[i]` is the slot the program gives field `i`. A field whose slot is -1
/// is not used by the program and gets no call.
pub open spec fn attrib_calls(kinds: Seq<AttribKind>, locs: Seq<i32>) -> Seq<AttribPointer>
    decreases locs.len(),
{
    if locs.len() == 0 {
        Seq::empty()
    } else {
        let n = locs.len() - 1;
        attrib_calls(kinds, locs.drop_last()) + if locs[n] == -1 {
            Seq::empty()
        } else {
            seq![pointer_for(kinds, n, locs[n])]
        }
    }
}

impl VertexLayout {
    /// The vertex-attribute calls for a program, given the slot the program
    /// reports for each field's name (in field order). Fields whose slot is
    /// -1 are skipped; every other field is configured with its own size,
    /// type, normalization flag and offset, and the record's stride.
    pub fn attrib_pointers(&self, locations: &Vec<i32>) -> (r: Vec<AttribPointer>)
        requires
            locations@.len() == self.field_kinds().len(),
        ensures
            r@ == attrib_calls(self.field_kinds(), locations@),
    {
        proof {
            use_type_invariant(self);
        }
        let mut r: Vec<AttribPointer> = Vec::new();
        let mut i: usize = 0;
        while i < locations.len()
            invariant
                locations@.len() == self.kinds@.len(),
                self.offsets@.len() == self.kinds@.len(),
                forall|j: int|
                    0 <= j < self.kinds@.len() ==> #[trigger] self.offsets@[j] == field_offset(
                        self.kinds@,
                        j,
                    ),
                self.stride == record_size(self.kinds@),
                self.stride <= i32::MAX,
                0 <= i <= locations@.len(),
                r@ == attrib_calls(self.kinds@, locations@.take(i as int)),
            decreases locations@.len() - i,
        {
            let ghost prefix = locations@.take(i + 1);
            assert(prefix.drop_last() == locations@.take(i as int));
            let location = locations[i];
            if location != -1 {
                let kind = self.kinds[i];
                r.push(
                    AttribPointer {
                        location,
                        size: kind.vertex_attrib_size(),
                        gl_type: kind.gl_type(),
                        normalized: GL_FALSE,
                        stride: self.stride as i32,
                        offset: self.offsets[i],
                    },
                );
            }
            proof {
                assert(r@ == attrib_calls(self.kinds@, prefix));
            }
            i = i + 1;
        }
        assert(locations@.take(locations@.len() as int) == locations@);
        r
    }
}

proof fn lemma_prefix_size_bounded(kinds: Seq<AttribKind>, j: int)
    requires
        0 <= j <= kinds.len(),
    ensures
        0 <= record_size(kinds.take(j)) <= record_size(kinds),
    decreases kinds.len(),
{
    if kinds.len() > 0 {
        if j == kinds.len() {
            assert(kinds.take(j) == kinds);
            lemma_prefix_size_bounded(kinds.drop_last(), j - 1);
            assert(kinds.drop_last().take(j - 1) == kinds.drop_last());
        } else {
            lemma_prefix_size_bounded(kinds.drop_last(), j);
            assert(kinds.drop_last().take(j) == kinds.take(j));
        }
    }
}

/// The fields of a record lie one after the other without gaps or overlap:
/// each starts where the one before it ends, and the last ends at the
/// record's size, which is what `stride` returns.
pub proof fn lemma_fields_contiguous(kinds: Seq<AttribKind>, i: int)
    requires
        0 <= i < kinds.len(),
    ensures
        field_offset(kinds, 0) == 0,
        0 <= field_offset(kinds, i),
        field_offset(kinds, i) + kind_bytes(kinds[i]) == field_offset(kinds, i + 1),
        field_offset(kinds, i + 1) <= record_size(kinds),
        field_offset(kinds, kinds.len() as int) == record_size(kinds),
{
    assert(kinds.take(i + 1).drop_last() == kinds.take(i));
    assert(kinds.take(kinds.len() as int) == kinds);
    lemma_prefix_size_bounded(kinds, i);
    lemma_prefix_size_bounded(kinds, i + 1);
}

/// No attribute call is made for a field the program does not use, at most
/// one is made per field, and when the program uses every field each field
/// is configured, in order, at its own slot.
pub proof fn lemma_missing_attributes_skipped(kinds: Seq<AttribKind>, locs: Seq<i32>)
    ensures
        attrib_calls(kinds, locs).len() <= locs.len(),
        forall|k: int|
            0 <= k < attrib_calls(kinds, locs).len() ==> #[trigger] attrib_calls(
                kinds,
                locs,
            )[k].location != -1,
        (forall|i: int| 0 <= i < locs.len() ==> #[trigger] locs[i] != -1) ==> attrib_calls(
            kinds,
            locs,
        ) == Seq::new(locs.len(), |i: int| pointer_for(kinds, i, locs[i])),
    decreases locs.len(),
{
    if locs.len() > 0 {
        let n = locs.len() - 1;
        lemma_missing_attributes_skipped(kinds, locs.drop_last());
        if forall|i: int| 0 <= i < locs.len() ==> #[trigger] locs[i] != -1 {
            assert forall|i: int| 0 <= i < locs.drop_last().len() implies #[trigger] locs.drop_last()[i]
                != -1 by {
                assert(locs.drop_last()[i] == locs[i]);
            }
            assert(attrib_calls(kinds, locs) =~= Seq::new(
                locs.len(),
                |i: int| pointer_for(kinds, i, locs[i]),
            ));
        }
    } else {
        assert(attrib_calls(kinds, locs) =~= Seq::new(
            locs.len(),
            |i: int| pointer_for(kinds, i, locs[i]),
        ));
    }
}

/// A layout has exactly one name per field shape, so every per-field list it
/// reports (names, sizes, types, normalization flags, offsets) has the same length.
pub proof fn lemma_one_entry_per_field(layout: &VertexLayout)
    ensures
        layout.field_names().len() == layout.field_kinds().len(),
{
}

/// A record type whose fields can be fed to the driver as vertex attributes.
/// The layout lists the record's fields in declaration order; the record is
/// expected to be laid out as `#[repr(C)]`, so that the layout's offsets and
/// stride are the record's own.
pub trait VertexAttribFields {
    fn vertex_layout() -> VertexLayout;
}

impl VertexLayout {
    /// Bytes occupied by `count` consecutive records.
    pub fn buffer_size(&self, count: usize) -> (r: isize)
        requires
            count * record_size(self.field_kinds()) <= isize::MAX,
        ensures
            r == count * record_size(self.field_kinds()),
    {
        proof {
            use_type_invariant(self);
        }
        (count * self.stride) as isize
    }
}

} // verus!
