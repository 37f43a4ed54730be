//! Which texture is bound to which of the sixteen texture units, and which
//! units a set of textures is given.

use vstd::array::*;
use vstd::prelude::*;

use crate::codes;

verus! {

/// What tells one texture from another.
#[derive(Clone, Copy, Debug, PartialEq, Eq, Hash, Structural)]
pub struct TextureId(pub usize);

/// A texture, by its place in the list that was asked for, and the unit
/// that it is bound to.
#[derive(Clone, Copy, Debug, PartialEq, Eq, Structural)]
pub struct TextureBindData {
    pub texture_index: usize,
    pub texture_unit: usize,
}

/// How far a list of textures has been given units.
#[derive(Debug, PartialEq, Eq)]
pub struct BoundTextureUnitsStatus {
    /// The units that can still be given away, the next one first.
    pub available_units: Vec<u32>,
    /// The textures that have a unit.
    pub bound_units: Vec<TextureBindData>,
    /// The places, in the list, of the textures that had no unit when the
    /// list was first gone through.
    pub missing_bindins: Vec<usize>,
}

/// The texture that each of the sixteen units holds.
#[derive(Debug, Clone, Copy, PartialEq, Eq)]
pub struct TextureUnits {
    pub active_textures: [Option<TextureId>; 16],
}

/// The first unit that holds `texture`, looking from the unit `from` on.
pub open spec fn unit_of(active: Seq<Option<TextureId>>, texture: TextureId, from: int) -> Option<
    int,
>
    decreases active.len() - from,
{
    if from < 0 || from >= active.len() {
        None
    } else if active[from] == Some(texture) {
        Some(from)
    } else {
        unit_of(active, texture, from + 1)
    }
}

/// The textures of the list that are bound to a unit, each with its place
/// in the list and its unit, in the order of the list.
pub open spec fn bound_textures(active: Seq<Option<TextureId>>, textures: Seq<TextureId>) -> Seq<
    TextureBindData,
>
    decreases textures.len(),
{
    if textures.len() == 0 {
        Seq::empty()
    } else {
        let before = bound_textures(active, textures.drop_last());
        match unit_of(active, textures.last(), 0) {
            Some(unit) => before.push(
                TextureBindData {
                    texture_index: (textures.len() - 1) as usize,
                    texture_unit: unit as usize,
                },
            ),
            None => before,
        }
    }
}

/// The places, in the list, of the textures that are bound to no unit, in
/// ascending order.
pub open spec fn missing_textures(active: Seq<Option<TextureId>>, textures: Seq<TextureId>) -> Seq<
    usize,
>
    decreases textures.len(),
{
    if textures.len() == 0 {
        Seq::empty()
    } else {
        let before = missing_textures(active, textures.drop_last());
        match unit_of(active, textures.last(), 0) {
            Some(_) => before,
            None => before.push((textures.len() - 1) as usize),
        }
    }
}

/// The units that are left to give away once the textures of the list that
/// are bound have been gone through. For each of them the entry at the
/// place of its unit's number is struck from what is left of the list of
/// all units. There is no such list where that place lies beyond the end.
pub open spec fn units_left(active: Seq<Option<TextureId>>, textures: Seq<TextureId>) -> Option<
    Seq<u32>,
>
    decreases textures.len(),
{
    if textures.len() == 0 {
        Some(Seq::new(16, |unit: int| unit as u32))
    } else {
        match units_left(active, textures.drop_last()) {
            None => None,
            Some(left) => match unit_of(active, textures.last(), 0) {
                None => Some(left),
                Some(unit) => if unit < left.len() {
                    Some(left.remove(unit))
                } else {
                    None
                },
            },
        }
    }
}

/// The number that WebGL2 knows the texture unit `unit` by. The units are
/// numbered upwards from the first; there are sixteen.
pub open spec fn unit_code(unit: u32) -> Option<u32> {
    if unit < 16 {
        Some((codes::TEXTURE0 + unit) as u32)
    } else {
        None
    }
}

/// The number by which the context is told to make the unit `unit` the
/// active one; none where there is no such unit.
pub fn texture_unit_code(unit: u32) -> (code: Option<u32>)
    ensures
        code == unit_code(unit),
{
    if unit < 16 {
        Some(codes::TEXTURE0 + unit)
    } else {
        None
    }
}

/// Whether each of the textures at the places `missing` can be given one of
/// the units `available`, the first texture the first unit and so on: there
/// are enough units, each place is one of the list, and each unit is one of
/// the sixteen.
pub open spec fn missing_can_be_bound(
    textures: Seq<TextureId>,
    available: Seq<u32>,
    missing: Seq<usize>,
) -> bool {
    &&& missing.len() <= available.len()
    &&& forall|k: int|
        0 <= k < missing.len() ==> (#[trigger] missing[k]) < textures.len() && available[k] < 16
}

/// The textures at the places `missing`, each with the unit that it is
/// given.
pub open spec fn newly_bound(available: Seq<u32>, missing: Seq<usize>) -> Seq<TextureBindData> {
    Seq::new(
        missing.len(),
        |k: int| TextureBindData { texture_index: missing[k], texture_unit: available[k] as usize },
    )
}

/// What the units hold once the first `count` of the textures at the
/// places `missing` are bound to the units that they are given.
pub open spec fn active_after(
    active: Seq<Option<TextureId>>,
    textures: Seq<TextureId>,
    available: Seq<u32>,
    missing: Seq<usize>,
    count: int,
) -> Seq<Option<TextureId>>
    decreases count,
{
    if count <= 0 {
        active
    } else {
        active_after(active, textures, available, missing, count - 1).update(
            available[count - 1] as int,
            Some(textures[missing[count - 1] as int]),
        )
    }
}

impl TextureUnits {
    /// Sixteen units that hold nothing.
    pub fn new() -> (units: Self)
        ensures
            forall|unit: int| 0 <= unit < 16 ==> units.active_textures@[unit] is None,
    {
        Self { active_textures: [None; 16] }
    }

    /// The first unit that `texture` is bound to.
    pub fn get_unit_binding_from_texture(&self, texture: TextureId) -> (unit: Option<usize>)
        ensures
            match unit {
                Some(unit) => unit_of(self.active_textures@, texture, 0) == Some(unit as int)
                    && unit < 16,
                None => unit_of(self.active_textures@, texture, 0) is None,
            },
    {
        let mut index: usize = 0;
        while index < 16
            invariant
                0 <= index <= 16,
                self.active_textures@.len() == 16,
                unit_of(self.active_textures@, texture, 0) == unit_of(
                    self.active_textures@,
                    texture,
                    index as int,
                ),
            decreases 16 - index,
        {
            match self.active_textures[index] {
                Some(active) => {
                    if active == texture {
                        return Some(index);
                    }
                },
                None => {},
            }
            index += 1;
        }
        None
    }

    /// Goes through `textures` and tells which of them are bound to a
    /// unit, which are not, and which units are left for those. The answer
    /// is `None` where the units that are left cannot be told.
    pub fn generate_already_bound_units(&self, textures: &Vec<TextureId>) -> (status: Option<
        BoundTextureUnitsStatus,
    >)
        ensures
            match status {
                Some(status) => {
                    &&& units_left(self.active_textures@, textures@) == Some(
                        status.available_units@,
                    )
                    &&& status.bound_units@ == bound_textures(self.active_textures@, textures@)
                    &&& status.missing_bindins@ == missing_textures(
                        self.active_textures@,
                        textures@,
                    )
                },
                None => units_left(self.active_textures@, textures@) is None,
            },
    {
        let ghost active = self.active_textures@;
        let mut available_units: Vec<u32> = Vec::new();
        let mut unit: u32 = 0;
        while unit < 16
            invariant
                0 <= unit <= 16,
                available_units@.len() == unit,
                forall|k: int| 0 <= k < unit ==> available_units@[k] == k as u32,
            decreases 16 - unit,
        {
            available_units.push(unit);
            unit += 1;
        }
        let mut bound_units: Vec<TextureBindData> = Vec::new();
        let mut missing_bindins: Vec<usize> = Vec::new();
        let mut texture_index: usize = 0;
        assert(textures@.take(0) =~= Seq::<TextureId>::empty());
        assert(available_units@ =~= Seq::new(16, |unit: int| unit as u32));
        while texture_index < textures.len()
            invariant
                0 <= texture_index <= textures@.len(),
                active == self.active_textures@,
                units_left(active, textures@.take(texture_index as int)) == Some(
                    available_units@,
                ),
                bound_units@ == bound_textures(active, textures@.take(texture_index as int)),
                missing_bindins@ == missing_textures(active, textures@.take(texture_index as int)),
            decreases textures@.len() - texture_index,
        {
            proof {
                assert(textures@.take(texture_index + 1).drop_last() =~= textures@.take(
                    texture_index as int,
                ));
                assert(textures@.take(texture_index + 1).last() == textures@[texture_index as int]);
            }
            match self.get_unit_binding_from_texture(textures[texture_index]) {
                Some(u_index) => {
                    if u_index >= available_units.len() {
                        proof {
                            lemma_no_units_left(active, textures@, texture_index + 1);
                        }
                        return None;
                    }
                    available_units.remove(u_index);
                    bound_units.push(TextureBindData { texture_index, texture_unit: u_index });
                },
                None => {
                    missing_bindins.push(texture_index);
                },
            }
            texture_index += 1;
        }
        assert(textures@.take(texture_index as int) =~= textures@);
        Some(BoundTextureUnitsStatus { available_units, bound_units, missing_bindins })
    }

    /// Gives each texture that has no unit the next unit that is left, and
    /// binds it there. The textures that are bound by this stand at the
    /// end of the list of bound textures, in the order in which they were
    /// missing. The answer is `None`, and nothing changes, where the
    /// textures cannot all be bound.
    pub fn bind_missing_textures(
        &mut self,
        textures: &Vec<TextureId>,
        bound_units: BoundTextureUnitsStatus,
    ) -> (status: Option<BoundTextureUnitsStatus>)
        ensures
            match status {
                Some(status) => {
                    &&& missing_can_be_bound(
                        textures@,
                        bound_units.available_units@,
                        bound_units.missing_bindins@,
                    )
                    &&& status.available_units@ == bound_units.available_units@.skip(
                        bound_units.missing_bindins@.len() as int,
                    )
                    &&& status.bound_units@ == bound_units.bound_units@ + newly_bound(
                        bound_units.available_units@,
                        bound_units.missing_bindins@,
                    )
                    &&& status.missing_bindins@ == bound_units.missing_bindins@
                    &&& final(self).active_textures@ == active_after(
                        old(self).active_textures@,
                        textures@,
                        bound_units.available_units@,
                        bound_units.missing_bindins@,
                        bound_units.missing_bindins@.len() as int,
                    )
                },
                None => {
                    &&& !missing_can_be_bound(
                        textures@,
                        bound_units.available_units@,
                        bound_units.missing_bindins@,
                    )
                    &&& final(self).active_textures@ == old(self).active_textures@
                },
            },
    {
        let ghost available = bound_units.available_units@;
        let ghost missing = bound_units.missing_bindins@;
        let ghost already = bound_units.bound_units@;
        let ghost start = self.active_textures@;
        let mut units = *self;
        let mut progress = bound_units;
        let mut k: usize = 0;
        assert(available.skip(0) =~= available);
        assert(already + newly_bound(available, missing).take(0) =~= already);
        while k < progress.missing_bindins.len()
            invariant
                0 <= k <= missing.len(),
                self.active_textures@ == start,
                start == old(self).active_textures@,
                available == bound_units.available_units@,
                missing == bound_units.missing_bindins@,
                already == bound_units.bound_units@,
                progress.missing_bindins@ == missing,
                progress.available_units@ == available.skip(k as int),
                k <= available.len(),
                progress.bound_units@ == already + newly_bound(available, missing).take(k as int),
                units.active_textures@ == active_after(
                    start,
                    textures@,
                    available,
                    missing,
                    k as int,
                ),
                forall|j: int|
                    0 <= j < k ==> (#[trigger] missing[j]) < textures@.len() && available[j] < 16,
            decreases missing.len() - k,
        {
            let texture_index = progress.missing_bindins[k];
            if progress.available_units.len() == 0 || texture_index >= textures.len() {
                assert(!missing_can_be_bound(textures@, available, missing)) by {
                    if missing_can_be_bound(textures@, available, missing) {
                        assert(missing[k as int] < textures@.len());
                    }
                }
                return None;
            }
            assert(available.skip(k as int)[0] == available[k as int]);
            let available_unit = progress.available_units.remove(0);
            if !units.bind_texture_to_unit(available_unit, textures[texture_index]) {
                assert(!missing_can_be_bound(textures@, available, missing)) by {
                    if missing_can_be_bound(textures@, available, missing) {
                        assert(missing[k as int] < textures@.len());
                    }
                }
                return None;
            }
            progress.bound_units.push(
                TextureBindData { texture_index, texture_unit: available_unit as usize },
            );
            proof {
                assert(progress.available_units@ =~= available.skip(k + 1));
                assert(newly_bound(available, missing).take(k + 1) =~= newly_bound(
                    available,
                    missing,
                ).take(k as int).push(newly_bound(available, missing)[k as int]));
                assert(progress.bound_units@ =~= already + newly_bound(available, missing).take(
                    k + 1,
                ));
            }
            k += 1;
        }
        assert(newly_bound(available, missing).take(k as int) =~= newly_bound(available, missing));
        *self = units;
        Some(progress)
    }

    /// Binds `texture` to the unit `unit`. There are sixteen units; for
    /// another number the answer is `false`, and nothing changes.
    pub fn bind_texture_to_unit(&mut self, unit: u32, texture: TextureId) -> (bound: bool)
        ensures
            bound == (unit < 16),
            final(self).active_textures@ == if unit < 16 {
                old(self).active_textures@.update(unit as int, Some(texture))
            } else {
                old(self).active_textures@
            },
    {
        if unit >= 16 {
            return false;
        }
        self.active_textures[unit as usize] = Some(texture);
        true
    }
}

/// Once the units that are left cannot be told, they cannot be told for a
/// longer list either.
proof fn lemma_no_units_left(active: Seq<Option<TextureId>>, textures: Seq<TextureId>, count: int)
    requires
        0 <= count <= textures.len(),
        units_left(active, textures.take(count)) is None,
    ensures
        units_left(active, textures) is None,
    decreases textures.len() - count,
{
    if count == textures.len() {
        assert(textures.take(count) =~= textures);
    } else {
        assert(textures.take(count + 1).drop_last() =~= textures.take(count));
        lemma_no_units_left(active, textures, count + 1);
    }
}

} // verus!
