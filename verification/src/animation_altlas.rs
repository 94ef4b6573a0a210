use vstd::prelude::*;
use bevy::asset::UntypedHandle;
use bevy::math::Vec2;
use crate::types::AnimationIndex;

verus! {

/// bevy's handle to an asset of any type, carried through unread: here it
/// refers to the texture atlas that a sequence's frames are cut from.
#[verifier::external_type_specification]
#[verifier::external_body]
pub struct ExUntypedHandle(UntypedHandle);

/// glam's vector of two numbers, carried through unread: sizes in pixels.
#[verifier::external_type_specification]
#[verifier::external_body]
pub struct ExVec2(Vec2);

/// `UntypedHandle::clone`: the copy refers to the same asset as the handle it
/// was made from, and the two are equal.
pub assume_specification[ <UntypedHandle as Clone>::clone ](handle: &UntypedHandle) -> (cloned:
    UntypedHandle)
    ensures
        cloned == *handle,
;

/// A grid atlas that has been registered with the renderer: its layout and
/// the handle under which the renderer keeps it.
#[derive(Debug, Clone)]
pub struct AnimationAltlas {
    meta: AnimationAltlasMeta,
    atlas: UntypedHandle,
}

impl AnimationAltlas {
    /// The layout of the grid.
    pub closed spec fn spec_data(&self) -> AnimationAltlasMeta {
        self.meta
    }

    /// The handle of the registered atlas.
    pub closed spec fn spec_atlas(&self) -> UntypedHandle {
        self.atlas
    }

    /// A handle to the registered atlas.
    pub fn atlas(&self) -> (atlas: UntypedHandle)
        ensures
            atlas == self.spec_atlas(),
    {
        self.atlas.clone()
    }

    /// The layout of the grid.
    pub fn data(&self) -> (meta: &AnimationAltlasMeta)
        ensures
            *meta == self.spec_data(),
    {
        &self.meta
    }
}

/// The layout of a grid atlas: how many rows and columns of cells it has, the
/// size of a cell, and the space around and before the cells.
#[derive(Debug, Clone, Copy)]
pub struct AnimationAltlasMeta {
    pub rows: AnimationIndex,
    pub columns: AnimationIndex,
    pub cell_size: Vec2,
    pub padding: Option<Vec2>,
    pub offset: Option<Vec2>,
}

impl AnimationAltlasMeta {
    /// A grid of `rows` by `columns` cells of `cell_size`, without padding or offset.
    pub fn new(rows: AnimationIndex, columns: AnimationIndex, cell_size: Vec2) -> (meta: Self)
        ensures
            meta == (AnimationAltlasMeta { rows, columns, cell_size, padding: None, offset: None }),
    {
        Self { rows, columns, cell_size, padding: None, offset: None }
    }

    /// The same grid with `padding` between its cells.
    pub fn new_padding(self, padding: Vec2) -> (meta: Self)
        ensures
            meta == (AnimationAltlasMeta { padding: Some(padding), ..self }),
    {
        let mut meta = self;
        meta.padding = Some(padding);
        meta
    }

    /// The same grid with its first cell at `offset`.
    pub fn new_offset(self, offset: Vec2) -> (meta: Self)
        ensures
            meta == (AnimationAltlasMeta { offset: Some(offset), ..self }),
    {
        let mut meta = self;
        meta.offset = Some(offset);
        meta
    }

    /// Joins the layout with the handle under which the atlas made from it
    /// has been registered.
    pub fn build(self, atlas: UntypedHandle) -> (built: AnimationAltlas)
        ensures
            built.spec_data() == self,
            built.spec_atlas() == atlas,
    {
        AnimationAltlas { atlas, meta: self }
    }

    pub fn rows(&self) -> (rows: usize)
        ensures
            rows == self.rows,
    {
        self.rows
    }

    pub fn columns(&self) -> (columns: usize)
        ensures
            columns == self.columns,
    {
        self.columns
    }

    pub fn cell_size(&self) -> (cell_size: Vec2)
        ensures
            cell_size == self.cell_size,
    {
        self.cell_size
    }

    pub fn padding(&self) -> (padding: Option<Vec2>)
        ensures
            padding == self.padding,
    {
        self.padding
    }

    pub fn offset(&self) -> (offset: Option<Vec2>)
        ensures
            offset == self.offset,
    {
        self.offset
    }
}

} // verus!
