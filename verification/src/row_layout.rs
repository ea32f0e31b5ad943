//! A layout in which all of the children are drawn in a single row or
//! column. Children keep their order; the fill policy says who receives the
//! slack space.

use vstd::prelude::*;
use crate::child_window::{ChildType, LayoutFill, LayoutNode, Orientation, WidgetId};
use crate::layout_base::LayoutBase;
use crate::row_geometry::MAX_ROW_CHILDREN;
use crate::{valid_dim, MAX_DIM};

verus! {

#[derive(Debug)]
pub struct RowLayout {
    pub layout_base: LayoutBase,
    /// Vertical or horizontal stacking.
    pub orientation: Orientation,
    /// Padding between children and at the edges, in pixels.
    pub inner_padding: i64,
    /// The children, in stacking order.
    pub children: Vec<ChildType>,
    pub fill_algorithm: LayoutFill,
    pub max_width: Option<i64>,
    pub max_height: Option<i64>,
}

impl RowLayout {
    pub open spec fn wf(&self) -> bool
        decreases self,
    {
        &&& self.layout_base.wf()
        &&& valid_dim(self.inner_padding)
        &&& self.children@.len() <= MAX_ROW_CHILDREN
        &&& (forall|i: int|
            0 <= i < self.children@.len() ==> (#[trigger] self.children@[i]).wf())
    }

    pub fn new(main_win_uuid: WidgetId, orientation: Orientation, inner_padding: i64) -> (l:
        RowLayout)
        requires
            valid_dim(inner_padding),
        ensures
            l.wf(),
            l.orientation == orientation,
            l.inner_padding == inner_padding,
            l.children@.len() == 0,
            l.fill_algorithm == LayoutFill::Unused,
            l.max_width is None && l.max_height is None,
            l.layout_base.uuid.bits != 0,
            l.layout_base.main_win_uuid == main_win_uuid,
    {
        RowLayout {
            layout_base: LayoutBase::new(main_win_uuid),
            orientation,
            inner_padding,
            children: Vec::new(),
            fill_algorithm: LayoutFill::Unused,
            max_width: None,
            max_height: None,
        }
    }

    /// The number of children.
    pub fn get_child_count(&self) -> (n: usize)
        ensures
            n == self.children@.len(),
    {
        self.children.len()
    }

    /// The child at the given zero-based index, if the index is in range.
    pub fn get_child_with_index(&self, index: usize) -> (r: Option<&ChildType>)
        ensures
            index < self.children@.len() ==> r == Some(&self.children@[index as int]),
            index >= self.children@.len() ==> r is None,
    {
        if index < self.children.len() {
            Some(&self.children[index])
        } else {
            None
        }
    }

    /// Inserts a widget at the given zero-based index; every child at or
    /// after the index moves one place later. A full layout refuses the
    /// insertion as a structural error and is left unchanged.
    pub fn insert_child(&mut self, child: crate::window_base::WindowBase, index: usize) -> (r:
        Result<(), String>)
        requires
            old(self).wf(),
            child.wf(),
            index <= old(self).children@.len(),
        ensures
            final(self).wf(),
            old(self).children@.len() < MAX_ROW_CHILDREN ==> r is Ok && final(self).children@
                == old(self).children@.insert(index as int, ChildType::Window(child)) && *final(
                self) == (RowLayout { children: final(self).children, ..*old(self) }),
            old(self).children@.len() >= MAX_ROW_CHILDREN ==> (r matches Err(m) && m@
                == "RowLayout cannot hold another child"@) && *final(self) == *old(self),
    {
        if self.children.len() >= MAX_ROW_CHILDREN {
            return Err("RowLayout cannot hold another child".to_owned());
        }
        self.children.insert(index, ChildType::Window(child));
        Ok(())
    }

    /// Inserts a nested layout at the given zero-based index.
    pub fn insert_layout(&mut self, layout: LayoutNode, index: usize) -> (r: Result<(), String>)
        requires
            old(self).wf(),
            layout.wf(),
            index <= old(self).children@.len(),
        ensures
            final(self).wf(),
            old(self).children@.len() < MAX_ROW_CHILDREN ==> r is Ok && final(self).children@
                == old(self).children@.insert(
                index as int,
                ChildType::Layout(Box::new(layout)),
            ) && *final(self) == (RowLayout { children: final(self).children, ..*old(self) }),
            old(self).children@.len() >= MAX_ROW_CHILDREN ==> (r matches Err(m) && m@
                == "RowLayout cannot hold another child"@) && *final(self) == *old(self),
    {
        if self.children.len() >= MAX_ROW_CHILDREN {
            return Err("RowLayout cannot hold another child".to_owned());
        }
        self.children.insert(index, ChildType::Layout(Box::new(layout)));
        Ok(())
    }

    /// Appends a widget after the existing children. The placement argument
    /// a border layout would need is ignored here, so only a full layout is
    /// refused.
    pub fn add_child(&mut self, child: crate::window_base::WindowBase) -> (r: Result<
        (),
        String,
    >)
        requires
            old(self).wf(),
            child.wf(),
        ensures
            final(self).wf(),
            old(self).children@.len() < MAX_ROW_CHILDREN ==> r is Ok && final(self).children@
                == old(self).children@.push(ChildType::Window(child)) && *final(self) == (RowLayout {
                children: final(self).children,
                ..*old(self)
            }),
            old(self).children@.len() >= MAX_ROW_CHILDREN ==> (r matches Err(m) && m@
                == "RowLayout cannot hold another child"@) && *final(self) == *old(self),
    {
        if self.children.len() >= MAX_ROW_CHILDREN {
            return Err("RowLayout cannot hold another child".to_owned());
        }
        self.children.push(ChildType::Window(child));
        Ok(())
    }

    /// Appends a nested layout after the existing children.
    pub fn add_layout(&mut self, layout: LayoutNode) -> (r: Result<(), String>)
        requires
            old(self).wf(),
            layout.wf(),
        ensures
            final(self).wf(),
            old(self).children@.len() < MAX_ROW_CHILDREN ==> r is Ok && final(self).children@
                == old(self).children@.push(ChildType::Layout(Box::new(layout))) && *final(self)
                == (RowLayout { children: final(self).children, ..*old(self) }),
            old(self).children@.len() >= MAX_ROW_CHILDREN ==> (r matches Err(m) && m@
                == "RowLayout cannot hold another child"@) && *final(self) == *old(self),
    {
        if self.children.len() >= MAX_ROW_CHILDREN {
            return Err("RowLayout cannot hold another child".to_owned());
        }
        self.children.push(ChildType::Layout(Box::new(layout)));
        Ok(())
    }

    /// Removes all of the children.
    pub fn clear(&mut self)
        requires
            old(self).wf(),
        ensures
            final(self).wf(),
            final(self).children@.len() == 0,
            *final(self) == (RowLayout { children: final(self).children, ..*old(self) }),
    {
        self.children.clear();
    }

    /// Fill policy exclusivity: the new policy fully replaces the previous
    /// one, whatever it was — policies never combine.
    pub fn set_fill(&mut self, algorithm: LayoutFill)
        ensures
            *final(self) == (RowLayout { fill_algorithm: algorithm, ..*old(self) }),
            final(self).fill_algorithm == algorithm,
    {
        self.fill_algorithm = algorithm;
    }

    /// Sets the layout's maximum size.
    pub fn set_max_size(&mut self, width: i64, height: i64)
        ensures
            *final(self) == (RowLayout {
                max_width: Some(width),
                max_height: Some(height),
                ..*old(self)
            }),
    {
        self.max_width = Some(width);
        self.max_height = Some(height);
    }
}

} // verus!
