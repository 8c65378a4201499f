use vstd::prelude::*;
use crate::common::{byte_len, text_len, Position, Rect};
use crate::constants::{
    DISCRIMINATOR_LEN, LEN_PREFIX, MAX_NAME_LEN, MAX_RESOURCE_PATH_LEN, PUBKEY_LEN, RECT_LEN,
};
use crate::errors::ErrorCode;
use crate::pubkey::Pubkey;

verus! {

/// A named part of a dimension: its bounds and the graphics drawn there.
#[derive(Clone, Debug, PartialEq, Eq)]
pub struct RealmDimensionArea {
    pub name: String,
    pub area: Rect,
    pub tileset: String,
    pub tilemap: String,
}

/// A child of a realm: a named map made of areas. `owner` is the master
/// that added it.
#[derive(Clone, Debug, PartialEq, Eq)]
pub struct RealmDimension {
    pub realm: Pubkey,
    pub owner: Pubkey,
    pub name: String,
    pub areas: Vec<RealmDimensionArea>,
}

/// Stored bytes of one area: three texts with their prefixes and a rectangle.
pub open spec fn area_space_spec(a: RealmDimensionArea) -> int {
    LEN_PREFIX + byte_len(a.name@) + RECT_LEN + LEN_PREFIX + byte_len(a.tileset@) + LEN_PREFIX
        + byte_len(a.tilemap@)
}

/// Stored bytes of a list of areas, without the list's own prefix.
pub open spec fn areas_space_spec(areas: Seq<RealmDimensionArea>) -> int
    decreases areas.len(),
{
    if areas.len() == 0 {
        0
    } else {
        areas_space_spec(areas.drop_last()) + area_space_spec(areas.last())
    }
}

/// Stored bytes of a dimension with this name and these areas.
pub open spec fn dimension_space_spec(name: Seq<char>, areas: Seq<RealmDimensionArea>) -> int {
    DISCRIMINATOR_LEN + PUBKEY_LEN + PUBKEY_LEN + LEN_PREFIX + byte_len(name) + LEN_PREFIX
        + areas_space_spec(areas)
}

/// Which check, if any, a dimension's texts fail: the name first, then each
/// area in order, by its name and then its two paths.
pub open spec fn areas_error(areas: Seq<RealmDimensionArea>) -> Option<ErrorCode>
    decreases areas.len(),
{
    if areas.len() == 0 {
        None
    } else {
        let a = areas[0];
        if byte_len(a.name@) > MAX_NAME_LEN {
            Some(ErrorCode::NameTooLong)
        } else if byte_len(a.tileset@) > MAX_RESOURCE_PATH_LEN || byte_len(a.tilemap@)
            > MAX_RESOURCE_PATH_LEN {
            Some(ErrorCode::ResourcePathTooLong)
        } else {
            areas_error(areas.drop_first())
        }
    }
}

/// The error that a dimension named `name` with `areas` is refused with, if any.
pub open spec fn dimension_error(name: Seq<char>, areas: Seq<RealmDimensionArea>) -> Option<
    ErrorCode,
> {
    if byte_len(name) > MAX_NAME_LEN {
        Some(ErrorCode::NameTooLong)
    } else {
        areas_error(areas)
    }
}

/// Index of the first area that contains `p`.
pub open spec fn first_area_at(areas: Seq<RealmDimensionArea>, p: Position) -> Option<int> {
    if exists|i: int| 0 <= i < areas.len() && rect_holds(areas[i].area, p) {
        Some(
            choose|i: int|
                0 <= i < areas.len() && rect_holds(areas[i].area, p) && forall|j: int|
                    0 <= j < i ==> !rect_holds(#[trigger] areas[j].area, p),
        )
    } else {
        None
    }
}

/// `p` lies in `r`, borders included.
pub open spec fn rect_holds(r: Rect, p: Position) -> bool {
    r.top_left.x <= p.x <= r.bottom_right.x && r.top_left.y <= p.y <= r.bottom_right.y
}

/// Checks the texts of a dimension against the length limits.
pub fn validate_dimension(name: &String, areas: &Vec<RealmDimensionArea>) -> (r: Result<
    (),
    ErrorCode,
>)
    ensures
        r is Ok <==> dimension_error(name@, areas@) is None,
        r is Err ==> dimension_error(name@, areas@) == Some(r->Err_0),
{
    if text_len(name) > MAX_NAME_LEN {
        return Err(ErrorCode::NameTooLong);
    }
    let mut i: usize = 0;
    assert(areas@.subrange(0, areas@.len() as int) =~= areas@);
    while i < areas.len()
        invariant
            0 <= i <= areas.len(),
            byte_len(name@) <= MAX_NAME_LEN,
            areas_error(areas@) == areas_error(areas@.subrange(i as int, areas@.len() as int)),
        decreases areas.len() - i,
    {
        let a = &areas[i];
        assert(areas@.subrange(i as int, areas@.len() as int)[0] == areas@[i as int]);
        assert(areas@.subrange(i as int, areas@.len() as int).drop_first() =~= areas@.subrange(
            i + 1,
            areas@.len() as int,
        ));
        if text_len(&a.name) > MAX_NAME_LEN {
            return Err(ErrorCode::NameTooLong);
        }
        let tileset_len = text_len(&a.tileset);
        let tilemap_len = text_len(&a.tilemap);
        if tileset_len > MAX_RESOURCE_PATH_LEN || tilemap_len > MAX_RESOURCE_PATH_LEN {
            return Err(ErrorCode::ResourcePathTooLong);
        }
        i = i + 1;
    }
    assert(areas@.subrange(i as int, areas@.len() as int).len() == 0);
    Ok(())
}

/// Stored bytes of a dimension named `name` holding `areas`.
pub fn realm_dimension_space(name: &String, areas: &Vec<RealmDimensionArea>) -> (r: usize)
    requires
        dimension_space_spec(name@, areas@) <= usize::MAX,
    ensures
        r == dimension_space_spec(name@, areas@),
{
    let mut total: usize = 0;
    let mut i: usize = 0;
    proof {
        lemma_areas_space_prefix_bounded(areas@, areas@.len() as int);
    }
    while i < areas.len()
        invariant
            0 <= i <= areas.len(),
            total == areas_space_spec(areas@.subrange(0, i as int)),
            dimension_space_spec(name@, areas@) <= usize::MAX,
        decreases areas.len() - i,
    {
        let a = &areas[i];
        proof {
            assert(areas@.subrange(0, i + 1).drop_last() =~= areas@.subrange(0, i as int));
            lemma_areas_space_prefix_bounded(areas@, i + 1);
        }
        total = total + LEN_PREFIX + text_len(&a.name) + RECT_LEN + LEN_PREFIX + text_len(
            &a.tileset,
        ) + LEN_PREFIX + text_len(&a.tilemap);
        i = i + 1;
    }
    assert(areas@.subrange(0, i as int) =~= areas@);
    DISCRIMINATOR_LEN + PUBKEY_LEN + PUBKEY_LEN + LEN_PREFIX + text_len(name) + LEN_PREFIX + total
}

/// The stored size of a prefix of areas never exceeds that of the whole list.
proof fn lemma_areas_space_prefix_bounded(areas: Seq<RealmDimensionArea>, n: int)
    requires
        0 <= n <= areas.len(),
    ensures
        0 <= areas_space_spec(areas.subrange(0, n)) <= areas_space_spec(areas),
    decreases areas.len(),
{
    if n == areas.len() {
        assert(areas.subrange(0, n) =~= areas);
        lemma_areas_space_nonneg(areas);
    } else {
        lemma_areas_space_prefix_bounded(areas.drop_last(), n);
        assert(areas.drop_last().subrange(0, n) =~= areas.subrange(0, n));
    }
}

proof fn lemma_areas_space_nonneg(areas: Seq<RealmDimensionArea>)
    ensures
        0 <= areas_space_spec(areas),
    decreases areas.len(),
{
    if areas.len() > 0 {
        lemma_areas_space_nonneg(areas.drop_last());
    }
}

impl RealmDimension {
    /// Stored bytes of this dimension.
    pub fn space(&self) -> (r: usize)
        requires
            dimension_space_spec(self.name@, self.areas@) <= usize::MAX,
        ensures
            r == dimension_space_spec(self.name@, self.areas@),
    {
        realm_dimension_space(&self.name, &self.areas)
    }

    /// The first area, in list order, whose bounds contain `position`.
    pub fn area_at(&self, position: &Position) -> (r: Option<usize>)
        ensures
            r matches Some(i) ==> first_area_at(self.areas@, *position) == Some(i as int),
            r is None ==> first_area_at(self.areas@, *position) is None,
    {
        let mut i: usize = 0;
        while i < self.areas.len()
            invariant
                0 <= i <= self.areas.len(),
                forall|j: int|
                    0 <= j < i ==> !rect_holds(#[trigger] self.areas@[j].area, *position),
            decreases self.areas.len() - i,
        {
            if self.areas[i].area.contains(position) {
                let ghost areas = self.areas@;
                proof {
                    let k = choose|k: int|
                        0 <= k < areas.len() && rect_holds(areas[k].area, *position) && forall|
                            j: int,
                        | 0 <= j < k ==> !rect_holds(#[trigger] areas[j].area, *position);
                    if k < i {
                    } else if k > i {
                        assert(!rect_holds(areas[i as int].area, *position));
                    }
                }
                return Some(i);
            }
            i = i + 1;
        }
        None
    }
}

} // verus!
