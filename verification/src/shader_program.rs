//! The uniforms of a program as the library keeps track of them: which
//! uniform has which shape, under which name it is found, and whether the
//! value that was set last has reached the program.
//!
//! The values themselves, and the places of the uniforms in the program,
//! stay with the caller, in the order in which the uniforms were inserted.

use vstd::prelude::*;

use crate::codes;
use crate::webgl2_shader_definition::data_type::WebGLDataType;

verus! {

/// The shape of a uniform of floating point numbers.
#[derive(Clone, Copy, Debug, PartialEq, Eq, Structural)]
pub enum FloatUniformShape {
    Scalar,
    Vec2,
    Vec3,
    Vec4,
    Mat2,
    Mat3,
    Mat4,
}

/// The shape of a uniform of signed or of unsigned integers.
#[derive(Clone, Copy, Debug, PartialEq, Eq, Structural)]
pub enum IntegerUniformShape {
    Scalar,
    Vec2,
    Vec3,
    Vec4,
}

/// The shape of the value of a uniform: what its components are, and how
/// many there are.
#[derive(Clone, Copy, Debug, PartialEq, Eq, Structural)]
pub enum GlUniformShape {
    Float(FloatUniformShape),
    Int(IntegerUniformShape),
    UInt(IntegerUniformShape),
}

impl GlUniformShape {
    /// The shape of the values that a uniform of the kind `kind` takes.
    /// There is none for `void` and for the kinds made of booleans.
    pub open spec fn of_kind(kind: WebGLDataType) -> Option<GlUniformShape> {
        match kind {
            WebGLDataType::Float => Some(GlUniformShape::Float(FloatUniformShape::Scalar)),
            WebGLDataType::Vec2 => Some(GlUniformShape::Float(FloatUniformShape::Vec2)),
            WebGLDataType::Vec3 => Some(GlUniformShape::Float(FloatUniformShape::Vec3)),
            WebGLDataType::Vec4 => Some(GlUniformShape::Float(FloatUniformShape::Vec4)),
            WebGLDataType::Mat2 => Some(GlUniformShape::Float(FloatUniformShape::Mat2)),
            WebGLDataType::Mat3 => Some(GlUniformShape::Float(FloatUniformShape::Mat3)),
            WebGLDataType::Mat4 => Some(GlUniformShape::Float(FloatUniformShape::Mat4)),
            WebGLDataType::Int => Some(GlUniformShape::Int(IntegerUniformShape::Scalar)),
            WebGLDataType::IVec2 => Some(GlUniformShape::Int(IntegerUniformShape::Vec2)),
            WebGLDataType::IVec3 => Some(GlUniformShape::Int(IntegerUniformShape::Vec3)),
            WebGLDataType::IVec4 => Some(GlUniformShape::Int(IntegerUniformShape::Vec4)),
            WebGLDataType::Uint => Some(GlUniformShape::UInt(IntegerUniformShape::Scalar)),
            WebGLDataType::UVec2 => Some(GlUniformShape::UInt(IntegerUniformShape::Vec2)),
            WebGLDataType::UVec3 => Some(GlUniformShape::UInt(IntegerUniformShape::Vec3)),
            WebGLDataType::UVec4 => Some(GlUniformShape::UInt(IntegerUniformShape::Vec4)),
            WebGLDataType::Void => None,
            WebGLDataType::Bool => None,
            WebGLDataType::BVec2 => None,
            WebGLDataType::BVec3 => None,
            WebGLDataType::BVec4 => None,
        }
    }

    /// The shape of the values that a uniform of the kind `kind` takes.
    pub fn from_kind(kind: WebGLDataType) -> (shape: Option<GlUniformShape>)
        ensures
            shape == Self::of_kind(kind),
    {
        match kind {
            WebGLDataType::Float => Some(GlUniformShape::Float(FloatUniformShape::Scalar)),
            WebGLDataType::Vec2 => Some(GlUniformShape::Float(FloatUniformShape::Vec2)),
            WebGLDataType::Vec3 => Some(GlUniformShape::Float(FloatUniformShape::Vec3)),
            WebGLDataType::Vec4 => Some(GlUniformShape::Float(FloatUniformShape::Vec4)),
            WebGLDataType::Mat2 => Some(GlUniformShape::Float(FloatUniformShape::Mat2)),
            WebGLDataType::Mat3 => Some(GlUniformShape::Float(FloatUniformShape::Mat3)),
            WebGLDataType::Mat4 => Some(GlUniformShape::Float(FloatUniformShape::Mat4)),
            WebGLDataType::Int => Some(GlUniformShape::Int(IntegerUniformShape::Scalar)),
            WebGLDataType::IVec2 => Some(GlUniformShape::Int(IntegerUniformShape::Vec2)),
            WebGLDataType::IVec3 => Some(GlUniformShape::Int(IntegerUniformShape::Vec3)),
            WebGLDataType::IVec4 => Some(GlUniformShape::Int(IntegerUniformShape::Vec4)),
            WebGLDataType::Uint => Some(GlUniformShape::UInt(IntegerUniformShape::Scalar)),
            WebGLDataType::UVec2 => Some(GlUniformShape::UInt(IntegerUniformShape::Vec2)),
            WebGLDataType::UVec3 => Some(GlUniformShape::UInt(IntegerUniformShape::Vec3)),
            WebGLDataType::UVec4 => Some(GlUniformShape::UInt(IntegerUniformShape::Vec4)),
            _ => None,
        }
    }

    /// Whether two values of these shapes can stand for one another.
    pub fn equal_variant(&self, other: &Self) -> (equal: bool)
        ensures
            equal == (*self == *other),
    {
        *self == *other
    }
}

/// What the context's answer to the question for the index of a uniform
/// block means: the index, or, where the answer is the one number that is
/// no index, that the program has no such block.
pub fn uniform_block_index(answer: u32) -> (index: Option<u32>)
    ensures
        index == if answer == codes::INVALID_INDEX {
            None
        } else {
            Some(answer)
        },
{
    if answer == codes::INVALID_INDEX {
        None
    } else {
        Some(answer)
    }
}

/// The place of a uniform among the uniforms of a program.
#[derive(Clone, Copy, Debug, PartialEq, Eq, Structural)]
pub struct UniformIndex(pub usize);

/// What is known of one uniform.
#[derive(Clone, Copy, Debug, PartialEq, Eq, Structural)]
pub struct UniformState {
    /// The shape of the uniform's value.
    pub shape: GlUniformShape,
    /// Whether the program holds the value that was set last.
    pub in_program: bool,
}

/// The uniforms of a program, as a model: their states in the order of
/// insertion, and the index that each name stands for.
pub struct ProgramUniformsView {
    pub uniforms: Seq<UniformState>,
    pub keys: Map<Seq<char>, int>,
}

struct UniformTable {
    uniforms: Vec<UniformState>,
    names: Vec<String>,
    indices: Vec<usize>,
}

spec fn table_names_at(table: UniformTable, name: Seq<char>, i: int) -> bool {
    0 <= i < table.names@.len() && table.names@[i]@ == name
}

spec fn table_keys(table: UniformTable) -> Map<Seq<char>, int> {
    Map::new(
        |name: Seq<char>| exists|i: int| table_names_at(table, name, i),
        |name: Seq<char>| table.indices@[choose|i: int| table_names_at(table, name, i)] as int,
    )
}

spec fn table_well_formed(table: UniformTable) -> bool {
    &&& table.names@.len() == table.indices@.len()
    &&& forall|i: int, j: int|
        0 <= i < j < table.names@.len() ==> table.names@[i]@ != table.names@[j]@
    &&& forall|i: int| 0 <= i < table.indices@.len() ==> table.indices@[i] < table.uniforms@.len()
}

proof fn lemma_key(table: UniformTable, i: int)
    requires
        table_well_formed(table),
        0 <= i < table.names@.len(),
    ensures
        table_keys(table).dom().contains(table.names@[i]@),
        table_keys(table)[table.names@[i]@] == table.indices@[i],
{
    let name = table.names@[i]@;
    assert(table_names_at(table, name, i));
    let chosen = choose|k: int| table_names_at(table, name, k);
    assert(table_names_at(table, name, chosen));
}

proof fn lemma_key_replaced(before: UniformTable, after: UniformTable, at: int, index: usize)
    requires
        table_well_formed(before),
        0 <= at < before.names@.len(),
        after.names@ == before.names@,
        after.indices@ == before.indices@.update(at, index),
        index < after.uniforms@.len(),
        before.uniforms@.len() <= after.uniforms@.len(),
    ensures
        table_well_formed(after),
        table_keys(after) == table_keys(before).insert(before.names@[at]@, index as int),
{
    let expected = table_keys(before).insert(before.names@[at]@, index as int);
    assert forall|name: Seq<char>| #[trigger]
        table_keys(after).dom().contains(name) implies expected.dom().contains(name) by {
        let k = choose|k: int| table_names_at(after, name, k);
        assert(table_names_at(before, name, k));
    }
    assert forall|name: Seq<char>| #[trigger]
        expected.dom().contains(name) implies table_keys(after).dom().contains(name)
        && table_keys(after)[name] == expected[name] by {
        if name == before.names@[at]@ {
            lemma_key(after, at);
        } else {
            let k = choose|k: int| table_names_at(before, name, k);
            assert(table_names_at(before, name, k));
            lemma_key(before, k);
            lemma_key(after, k);
        }
    }
    assert(table_keys(after) =~= expected);
}

proof fn lemma_key_added(before: UniformTable, after: UniformTable, name: Seq<char>, index: usize)
    requires
        table_well_formed(before),
        !table_keys(before).dom().contains(name),
        after.names@.len() == before.names@.len() + 1,
        after.names@.drop_last() == before.names@,
        after.names@.last()@ == name,
        after.indices@ == before.indices@.push(index),
        index < after.uniforms@.len(),
        before.uniforms@.len() <= after.uniforms@.len(),
    ensures
        table_well_formed(after),
        table_keys(after) == table_keys(before).insert(name, index as int),
{
    let expected = table_keys(before).insert(name, index as int);
    let last = before.names@.len() as int;
    assert forall|i: int| 0 <= i < last implies after.names@[i] == before.names@[i] by {
        assert(after.names@.drop_last()[i] == after.names@[i]);
    }
    assert forall|i: int, j: int| 0 <= i < j < after.names@.len() implies after.names@[i]@
        != after.names@[j]@ by {
        if j == last {
            assert(table_names_at(before, before.names@[i]@, i));
        }
    }
    assert forall|other: Seq<char>| #[trigger]
        table_keys(after).dom().contains(other) implies expected.dom().contains(other) by {
        let k = choose|k: int| table_names_at(after, other, k);
        if k < last {
            assert(table_names_at(before, other, k));
        }
    }
    assert forall|other: Seq<char>| #[trigger]
        expected.dom().contains(other) implies table_keys(after).dom().contains(other)
        && table_keys(after)[other] == expected[other] by {
        if other == name {
            lemma_key(after, last);
        } else {
            let k = choose|k: int| table_names_at(before, other, k);
            assert(table_names_at(before, other, k));
            lemma_key(before, k);
            lemma_key(after, k);
        }
    }
    assert(table_keys(after) =~= expected);
}

proof fn lemma_keys_kept(before: UniformTable, after: UniformTable)
    requires
        table_well_formed(before),
        after.names@ == before.names@,
        after.indices@ == before.indices@,
        after.uniforms@.len() == before.uniforms@.len(),
    ensures
        table_well_formed(after),
        table_keys(after) == table_keys(before),
{
    assert forall|name: Seq<char>, k: int|
        table_names_at(after, name, k) == table_names_at(before, name, k) by {}
    assert(table_keys(after) =~= table_keys(before));
}

fn empty_table() -> (table: UniformTable)
    ensures
        table.uniforms@.len() == 0,
        table.names@.len() == 0,
        table.indices@.len() == 0,
{
    UniformTable { uniforms: Vec::new(), names: Vec::new(), indices: Vec::new() }
}

fn find_name(table: &UniformTable, name: &String) -> (found: Option<usize>)
    requires
        table_well_formed(*table),
    ensures
        match found {
            Some(i) => i < table.names@.len() && table.names@[i as int]@ == name@,
            None => !table_keys(*table).dom().contains(name@),
        },
{
    let mut i: usize = 0;
    while i < table.names.len()
        invariant
            0 <= i <= table.names@.len(),
            forall|k: int| 0 <= k < i ==> table.names@[k]@ != name@,
        decreases table.names@.len() - i,
    {
        if table.names[i] == *name {
            return Some(i);
        }
        i += 1;
    }
    assert(forall|k: int| !table_names_at(*table, name@, k));
    None
}

/// The uniforms of a program.
pub struct ProgramUniforms {
    table: UniformTable,
}

impl View for ProgramUniforms {
    type V = ProgramUniformsView;

    closed spec fn view(&self) -> ProgramUniformsView {
        ProgramUniformsView { uniforms: self.table.uniforms@, keys: table_keys(self.table) }
    }
}

impl ProgramUniformsView {
    /// Every name stands for one of the uniforms.
    pub open spec fn well_formed(self) -> bool {
        forall|name: Seq<char>| #[trigger]
            self.keys.dom().contains(name) ==> 0 <= self.keys[name] < self.uniforms.len()
    }

    /// The uniforms after the value of the uniform `index` was set to one
    /// of the shape `shape`: where the shape is that of the uniform, the
    /// program no longer holds the uniform's value; else nothing changes.
    pub open spec fn after_set(self, index: int, shape: GlUniformShape) -> ProgramUniformsView {
        if self.uniforms[index].shape == shape {
            ProgramUniformsView {
                uniforms: self.uniforms.update(index, UniformState { shape, in_program: false }),
                keys: self.keys,
            }
        } else {
            self
        }
    }

    /// The uniforms after the value of the uniform `index` has reached the
    /// program.
    pub open spec fn after_push(self, index: int) -> ProgramUniformsView {
        ProgramUniformsView {
            uniforms: self.uniforms.update(
                index,
                UniformState { shape: self.uniforms[index].shape, in_program: true },
            ),
            keys: self.keys,
        }
    }

    /// The uniforms below `count` whose value the program does not hold,
    /// in ascending order.
    pub open spec fn pending_below(self, count: int) -> Seq<UniformIndex>
        decreases count,
    {
        if count <= 0 {
            Seq::empty()
        } else if !self.uniforms[count - 1].in_program {
            self.pending_below(count - 1).push(UniformIndex((count - 1) as usize))
        } else {
            self.pending_below(count - 1)
        }
    }
}

impl ProgramUniforms {
    #[verifier::type_invariant]
    spec fn well_formed(&self) -> bool {
        table_well_formed(self.table)
    }

    /// A program without uniforms.
    pub fn new() -> (uniforms: Self)
        ensures
            uniforms@.uniforms == Seq::<UniformState>::empty(),
            uniforms@.keys == Map::<Seq<char>, int>::empty(),
    {
        let uniforms = ProgramUniforms { table: empty_table() };
        assert(uniforms@.keys =~= Map::<Seq<char>, int>::empty());
        uniforms
    }

    /// How many uniforms were inserted.
    pub fn len(&self) -> (count: usize)
        ensures
            count == self@.uniforms.len(),
            self@.well_formed(),
    {
        proof {
            use_type_invariant(self);
            assert forall|name: Seq<char>| #[trigger] self@.keys.dom().contains(name) implies 0
                <= self@.keys[name] < self@.uniforms.len() by {
                let i = choose|i: int| table_names_at(self.table, name, i);
                assert(table_names_at(self.table, name, i));
            }
        }
        self.table.uniforms.len()
    }

    /// Whether `index` is the index of a uniform of this program.
    pub fn contains_index(&self, index: UniformIndex) -> (held: bool)
        ensures
            held == (index.0 < self@.uniforms.len()),
    {
        index.0 < self.table.uniforms.len()
    }

    /// What is known of the uniform `index`.
    pub fn get(&self, index: UniformIndex) -> (state: Option<UniformState>)
        ensures
            state == if index.0 < self@.uniforms.len() {
                Some(self@.uniforms[index.0 as int])
            } else {
                None
            },
    {
        if index.0 < self.table.uniforms.len() {
            Some(self.table.uniforms[index.0])
        } else {
            None
        }
    }

    /// Inserts a uniform of the shape `shape` behind the others; the
    /// program does not hold its value yet. From now on `uniform_name`
    /// stands for this uniform, whatever it stood for before.
    pub fn insert(&mut self, uniform_name: &String, shape: GlUniformShape) -> (index: UniformIndex)
        ensures
            index.0 == old(self)@.uniforms.len(),
            final(self)@.uniforms == old(self)@.uniforms.push(
                UniformState { shape, in_program: false },
            ),
            final(self)@.keys == old(self)@.keys.insert(
                uniform_name@,
                old(self)@.uniforms.len() as int,
            ),
    {
        proof {
            use_type_invariant(&*self);
        }
        let mut table = empty_table();
        core::mem::swap(&mut self.table, &mut table);
        let ghost before = table;
        let index = table.uniforms.len();
        let found = find_name(&table, uniform_name);
        table.uniforms.push(UniformState { shape, in_program: false });
        match found {
            Some(at) => {
                table.indices.set(at, index);
                proof {
                    lemma_key_replaced(before, table, at as int, index);
                }
            },
            None => {
                table.names.push(uniform_name.clone());
                table.indices.push(index);
                proof {
                    assert(table.names@.drop_last() =~= before.names@);
                    lemma_key_added(before, table, uniform_name@, index);
                }
            },
        }
        core::mem::swap(&mut self.table, &mut table);
        UniformIndex(index)
    }

    /// The uniform that `uniform_name` stands for.
    pub fn get_uniform_index(&self, uniform_name: &String) -> (found: Option<UniformIndex>)
        ensures
            match found {
                Some(index) => self@.keys.dom().contains(uniform_name@) && index.0
                    == self@.keys[uniform_name@] && index.0 < self@.uniforms.len(),
                None => !self@.keys.dom().contains(uniform_name@),
            },
    {
        proof {
            use_type_invariant(self);
        }
        match find_name(&self.table, uniform_name) {
            Some(at) => {
                proof {
                    lemma_key(self.table, at as int);
                }
                Some(UniformIndex(self.table.indices[at]))
            },
            None => None,
        }
    }

    /// Takes note that the value of the uniform `uniform_index` was set to
    /// one of the shape `shape`. A value of another shape than the
    /// uniform's is not taken: the answer is `false`, and nothing changes.
    pub fn set_uniform(&mut self, uniform_index: UniformIndex, shape: GlUniformShape) -> (taken:
        bool)
        requires
            uniform_index.0 < old(self)@.uniforms.len(),
        ensures
            taken == (old(self)@.uniforms[uniform_index.0 as int].shape == shape),
            final(self)@ == old(self)@.after_set(uniform_index.0 as int, shape),
    {
        proof {
            use_type_invariant(&*self);
        }
        let mut table = empty_table();
        core::mem::swap(&mut self.table, &mut table);
        let ghost before = table;
        let taken = table.uniforms[uniform_index.0].shape.equal_variant(&shape);
        if taken {
            table.uniforms.set(uniform_index.0, UniformState { shape, in_program: false });
        }
        proof {
            lemma_keys_kept(before, table);
        }
        core::mem::swap(&mut self.table, &mut table);
        taken
    }

    /// Takes note that the value of the uniform that `uniform_name` stands
    /// for was set. The answer is `None` where the name stands for no
    /// uniform.
    pub fn set_uniform_by_name(&mut self, uniform_name: &String, shape: GlUniformShape) -> (taken:
        Option<bool>)
        ensures
            match taken {
                Some(taken) => {
                    &&& old(self)@.keys.dom().contains(uniform_name@)
                    &&& 0 <= old(self)@.keys[uniform_name@] < old(self)@.uniforms.len()
                    &&& taken == (old(self)@.uniforms[old(self)@.keys[uniform_name@]].shape
                        == shape)
                    &&& final(self)@ == old(self)@.after_set(old(self)@.keys[uniform_name@], shape)
                },
                None => !old(self)@.keys.dom().contains(uniform_name@) && final(self)@ == old(
                    self,
                )@,
            },
    {
        match self.get_uniform_index(uniform_name) {
            Some(index) => Some(self.set_uniform(index, shape)),
            None => None,
        }
    }

    /// Decides whether the value of the uniform `uniform_index` has to be
    /// handed to the program, which is the case when the program does not
    /// hold it; the program then counts as holding it.
    pub fn push_uniform(&mut self, uniform_index: UniformIndex) -> (upload: bool)
        requires
            uniform_index.0 < old(self)@.uniforms.len(),
        ensures
            upload == !old(self)@.uniforms[uniform_index.0 as int].in_program,
            final(self)@ == old(self)@.after_push(uniform_index.0 as int),
    {
        proof {
            use_type_invariant(&*self);
        }
        let mut table = empty_table();
        core::mem::swap(&mut self.table, &mut table);
        let ghost before = table;
        let state = table.uniforms[uniform_index.0];
        table.uniforms.set(uniform_index.0, UniformState { shape: state.shape, in_program: true });
        proof {
            lemma_keys_kept(before, table);
        }
        core::mem::swap(&mut self.table, &mut table);
        !state.in_program
    }

    /// Decides whether the value of the uniform that `uniform_name` stands
    /// for has to be handed to the program. The answer is `None` where the
    /// name stands for no uniform.
    pub fn push_uniform_by_name(&mut self, uniform_name: &String) -> (upload: Option<
        (UniformIndex, bool),
    >)
        ensures
            match upload {
                Some((index, upload)) => {
                    &&& old(self)@.keys.dom().contains(uniform_name@)
                    &&& index.0 == old(self)@.keys[uniform_name@]
                    &&& index.0 < old(self)@.uniforms.len()
                    &&& upload == !old(self)@.uniforms[index.0 as int].in_program
                    &&& final(self)@ == old(self)@.after_push(index.0 as int)
                },
                None => !old(self)@.keys.dom().contains(uniform_name@) && final(self)@ == old(
                    self,
                )@,
            },
    {
        match self.get_uniform_index(uniform_name) {
            Some(index) => Some((index, self.push_uniform(index))),
            None => None,
        }
    }

    /// Lists the uniforms whose value has to be handed to the program, in
    /// the order of insertion; the program then counts as holding the
    /// value of every uniform.
    pub fn push_all_uniforms(&mut self) -> (pending: Vec<UniformIndex>)
        ensures
            pending@ == old(self)@.pending_below(old(self)@.uniforms.len() as int),
            final(self)@.keys == old(self)@.keys,
            final(self)@.uniforms.len() == old(self)@.uniforms.len(),
            forall|i: int|
                0 <= i < old(self)@.uniforms.len() ==> #[trigger] final(self)@.uniforms[i] == (
                    UniformState { shape: old(self)@.uniforms[i].shape, in_program: true }
                ),
    {
        proof {
            use_type_invariant(&*self);
        }
        let mut table = empty_table();
        core::mem::swap(&mut self.table, &mut table);
        let ghost before = table;
        let ghost start = ProgramUniformsView {
            uniforms: before.uniforms@,
            keys: table_keys(before),
        };
        let mut pending: Vec<UniformIndex> = Vec::new();
        let mut i: usize = 0;
        while i < table.uniforms.len()
            invariant
                0 <= i <= table.uniforms@.len(),
                table.uniforms@.len() == before.uniforms@.len(),
                table.names@ == before.names@,
                table.indices@ == before.indices@,
                start.uniforms == before.uniforms@,
                pending@ == start.pending_below(i as int),
                forall|k: int|
                    0 <= k < i ==> #[trigger] table.uniforms@[k] == (UniformState {
                        shape: before.uniforms@[k].shape,
                        in_program: true,
                    }),
                forall|k: int|
                    i <= k < table.uniforms@.len() ==> #[trigger] table.uniforms@[k]
                        == before.uniforms@[k],
            decreases table.uniforms@.len() - i,
        {
            let state = table.uniforms[i];
            if !state.in_program {
                pending.push(UniformIndex(i));
            }
            table.uniforms.set(i, UniformState { shape: state.shape, in_program: true });
            i += 1;
        }
        proof {
            lemma_keys_kept(before, table);
        }
        core::mem::swap(&mut self.table, &mut table);
        pending
    }
}

} // verus!
