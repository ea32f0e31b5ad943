//! A layout with five regions: top, bottom, left, right and center.
//!
//! It is composed from two nested row layouts: an outer vertical row holding
//! the top slots, the inner horizontal row, and the bottom slots; the inner
//! row holds left, center and right. The outer row gives all of its slack to
//! the inner row, and the inner row gives all of its slack to whatever sits
//! in the center — the layout's signature invariant, which a caller's
//! `set_fill` can never override.

use vstd::prelude::*;
use crate::child_window::{
    BorderLocation,
    ChildType,
    LayoutArgs,
    LayoutFill,
    LayoutNode,
    Orientation,
    WidgetId,
};
use crate::layout_base::LayoutBase;
use crate::row_geometry::MAX_ROW_CHILDREN;
use crate::row_layout::RowLayout;
use crate::window_base::WindowBase;

verus! {

/// Whether a child slot holds the inner row bearing `id`.
pub open spec fn is_center_slot(c: ChildType, id: WidgetId) -> bool {
    c matches ChildType::Layout(l) && (*l matches LayoutNode::Row(r) && r.layout_base.uuid == id)
}

/// The id of the row a slot holds, if the slot holds a row layout at all.
/// A slot is a center slot for `id` exactly when this is `Some(id)`.
pub open spec fn row_slot_uuid(c: ChildType) -> Option<WidgetId> {
    match c {
        ChildType::Layout(l) => match *l {
            LayoutNode::Row(r) => Some(r.layout_base.uuid),
            _ => None,
        },
        _ => None,
    }
}

#[derive(Debug)]
pub struct BorderLayout {
    pub layout_base: LayoutBase,
    /// The outer vertical row: top slots, then the inner row, then bottom
    /// slots.
    pub rows: RowLayout,
    /// Id of the inner horizontal row holding left, center and right.
    pub center_uuid: WidgetId,
}

impl BorderLayout {
    pub open spec fn wf(&self) -> bool
        decreases self,
    {
        &&& self.layout_base.wf()
        &&& self.rows.wf()
        &&& exists|i: int|
            0 <= i < self.rows.children@.len() && is_center_slot(
                #[trigger] self.rows.children@[i],
                self.center_uuid,
            )
    }

    /// The first position of the inner row within the outer row.
    pub open spec fn spec_center_index(&self) -> int {
        choose|i: int|
            0 <= i < self.rows.children@.len() && is_center_slot(
                #[trigger] self.rows.children@[i],
                self.center_uuid,
            ) && forall|j: int|
                0 <= j < i ==> !is_center_slot(self.rows.children@[j], self.center_uuid)
    }

    pub fn new(main_win_uuid: WidgetId) -> (l: BorderLayout)
        ensures
            l.wf(),
            l.rows.fill_algorithm == LayoutFill::Single(l.center_uuid),
            l.rows.orientation == Orientation::Vertical,
            l.rows.children@.len() == 1,
            l.layout_base.uuid.bits != 0,
            l.layout_base.main_win_uuid == main_win_uuid,
    {
        let mut rows = RowLayout::new(main_win_uuid, Orientation::Vertical, 0);
        rows.layout_base.name = "BorderLayout's column".to_owned();
        let mut center = RowLayout::new(main_win_uuid, Orientation::Horizontal, 0);
        center.layout_base.name = "BorderLayout's center row".to_owned();
        let center_uuid = center.layout_base.uuid;

        // The outer row hands all extra space to the inner row.
        rows.set_fill(LayoutFill::Single(center_uuid));
        let _added = rows.add_layout(LayoutNode::Row(center));
        proof {
            assert(is_center_slot(rows.children@[0], center_uuid));
        }
        BorderLayout { layout_base: LayoutBase::new(main_win_uuid), rows, center_uuid }
    }

    /// The first position of the inner row within the outer row.
    fn find_center_index(&self) -> (r: usize)
        requires
            self.wf(),
        ensures
            r < self.rows.children@.len(),
            is_center_slot(self.rows.children@[r as int], self.center_uuid),
            forall|j: int|
                0 <= j < r ==> !is_center_slot(self.rows.children@[j], self.center_uuid),
            r as int == self.spec_center_index(),
    {
        let n = self.rows.children.len();
        let mut i: usize = 0;
        while i < n
            invariant
                self.wf(),
                n == self.rows.children@.len(),
                i <= n,
                forall|j: int|
                    0 <= j < i ==> !is_center_slot(self.rows.children@[j], self.center_uuid),
            decreases n - i,
        {
            let hit = match &self.rows.children[i] {
                ChildType::Layout(l) => match &**l {
                    LayoutNode::Row(r) => r.layout_base.uuid == self.center_uuid,
                    _ => false,
                },
                _ => false,
            };
            if hit {
                proof {
                    assert(is_center_slot(self.rows.children@[i as int], self.center_uuid));
                }
                return i;
            }
            i = i + 1;
        }
        proof {
            assert(false);
        }
        vstd::pervasive::unreached()
    }

    /// Where an insertion at the given border location lands, and into which
    /// of the two rows: the top inserts at the front of the outer row, the
    /// bottom at the current count capped at two, the left at the front of
    /// the inner row, the center and the right after the left slot.
    pub open spec fn spec_insert_index(location: BorderLocation, count: int) -> int {
        match location {
            BorderLocation::TOP => 0,
            BorderLocation::BOTTOM => if count < 2 {
                count
            } else {
                2
            },
            BorderLocation::LEFT => 0,
            BorderLocation::CENTER => if count < 1 {
                count
            } else {
                1
            },
            BorderLocation::RIGHT => if count < 1 {
                count
            } else {
                1
            },
        }
    }

    /// Whether the location addresses the outer row (top or bottom) rather
    /// than the inner row (left, center, right).
    pub open spec fn spec_outer(location: BorderLocation) -> bool {
        location == BorderLocation::TOP || location == BorderLocation::BOTTOM
    }

    /// Inserts a widget into the named region.
    ///
    /// `args` must carry a border location; any other argument is refused
    /// and nothing takes effect. A full layout is likewise refused. Inserting
    /// into the center tells the inner row to give that child all extra
    /// space; the outer row's policy of feeding the inner row is never
    /// touched, so the center keeps absorbing all slack.
    pub fn add_child(&mut self, child: WindowBase, args: LayoutArgs) -> (r: Result<(), String>)
        requires
            old(self).wf(),
            child.wf(),
        ensures
            final(self).wf(),
            final(self).center_uuid == old(self).center_uuid,
            final(self).rows.fill_algorithm == old(self).rows.fill_algorithm,
            !(args matches LayoutArgs::BORDER(_)) ==> (r matches Err(m) && m@
                == "Required LayoutArgs::BORDER argument is missing"@) && *final(self) == *old(
                self),
            args matches LayoutArgs::BORDER(loc) ==> ({
                if Self::spec_outer(loc) {
                    let count = old(self).rows.children@.len() as int;
                    if count < MAX_ROW_CHILDREN {
                        &&& r is Ok
                        &&& final(self).rows.children@ == old(self).rows.children@.insert(
                            Self::spec_insert_index(loc, count),
                            ChildType::Window(child),
                        )
                    } else {
                        (r matches Err(m) && m@ == "BorderLayout cannot hold another child"@)
                            && *final(self) == *old(self)
                    }
                } else {
                    let ci = old(self).spec_center_index();
                    let center = center_row_of(old(self).rows.children@[ci]);
                    let count = center.children@.len() as int;
                    if count < MAX_ROW_CHILDREN {
                        &&& r is Ok
                        &&& center_row_of(
                            final(self).rows.children@[ci],
                        ).children@ == center.children@.insert(
                            Self::spec_insert_index(loc, count),
                            ChildType::Window(child),
                        )
                        &&& center_row_of(final(self).rows.children@[ci]).fill_algorithm
                            == final_center_fill(center.fill_algorithm, loc, child.uuid)
                        &&& forall|j: int|
                            0 <= j < final(self).rows.children@.len() && j != ci
                                ==> final(self).rows.children@[j] == old(self).rows.children@[j]
                        &&& final(self).rows.children@.len() == old(self).rows.children@.len()
                    } else {
                        (r matches Err(m) && m@ == "BorderLayout cannot hold another child"@)
                            && *final(self) == *old(self)
                    }
                }
            }),
    {
        let location = match args {
            LayoutArgs::BORDER(location) => location,
            _ => {
                return Err("Required LayoutArgs::BORDER argument is missing".to_owned());
            },
        };
        match location {
            BorderLocation::TOP | BorderLocation::BOTTOM => {
                if self.rows.children.len() >= MAX_ROW_CHILDREN {
                    return Err("BorderLayout cannot hold another child".to_owned());
                }
                let count = self.rows.children.len();
                let index: usize = match location {
                    BorderLocation::TOP => 0,
                    _ => if count < 2 {
                        count
                    } else {
                        2
                    },
                };
                let _inserted = self.rows.insert_child(child, index);
                proof {
                    lemma_center_survives_insert(
                        old(self).rows.children@,
                        self.rows.children@,
                        index as int,
                        self.center_uuid,
                    );
                }
                Ok(())
            },
            BorderLocation::LEFT | BorderLocation::CENTER | BorderLocation::RIGHT => {
                let ci = self.find_center_index();
                let full = match &self.rows.children[ci] {
                    ChildType::Layout(l) => match &**l {
                        LayoutNode::Row(r) => r.children.len() >= MAX_ROW_CHILDREN,
                        _ => false,
                    },
                    _ => false,
                };
                if full {
                    return Err("BorderLayout cannot hold another child".to_owned());
                }
                let slot = self.rows.children.remove(ci);
                proof {
                    assert(old(self).rows.children@[ci as int].wf());
                }
                match slot {
                    ChildType::Layout(boxed) => match *boxed {
                        LayoutNode::Row(mut center) => {
                            let count = center.children.len();
                            let index: usize = match location {
                                BorderLocation::LEFT => 0,
                                _ => if count < 1 {
                                    count
                                } else {
                                    1
                                },
                            };
                            if matches!(location, BorderLocation::CENTER) {
                                // The inner row hands all extra space to the
                                // center child.
                                center.set_fill(LayoutFill::Single(child.uuid));
                            }
                            let _inserted = center.insert_child(child, index);
                            let restored = ChildType::Layout(Box::new(LayoutNode::Row(center)));
                            self.rows.children.insert(ci, restored);
                            proof {
                                assert(self.rows.children@ =~= old(self).rows.children@.update(
                                    ci as int,
                                    self.rows.children@[ci as int],
                                ));
                                assert(is_center_slot(
                                    self.rows.children@[ci as int],
                                    self.center_uuid,
                                ));
                            }
                            Ok(())
                        },
                        _ => vstd::pervasive::unreached(),
                    },
                    _ => vstd::pervasive::unreached(),
                }
            },
        }
    }
}

impl BorderLayout {
    /// Inserts a nested layout into the named region; the regions and the
    /// center's fill guarantee are those of [`BorderLayout::add_child`].
    pub fn add_layout(&mut self, layout: LayoutNode, args: LayoutArgs) -> (r: Result<(), String>)
        requires
            old(self).wf(),
            layout.wf(),
        ensures
            final(self).wf(),
            final(self).center_uuid == old(self).center_uuid,
            final(self).rows.fill_algorithm == old(self).rows.fill_algorithm,
            !(args matches LayoutArgs::BORDER(_)) ==> (r matches Err(m) && m@
                == "Required LayoutArgs::BORDER argument is missing"@) && *final(self) == *old(
                self),
            args matches LayoutArgs::BORDER(loc) ==> ({
                if Self::spec_outer(loc) {
                    let count = old(self).rows.children@.len() as int;
                    if count < MAX_ROW_CHILDREN {
                        &&& r is Ok
                        &&& final(self).rows.children@ == old(self).rows.children@.insert(
                            Self::spec_insert_index(loc, count),
                            ChildType::Layout(Box::new(layout)),
                        )
                    } else {
                        (r matches Err(m) && m@ == "BorderLayout cannot hold another child"@)
                            && *final(self) == *old(self)
                    }
                } else {
                    let ci = old(self).spec_center_index();
                    let center = center_row_of(old(self).rows.children@[ci]);
                    let count = center.children@.len() as int;
                    if count < MAX_ROW_CHILDREN {
                        &&& r is Ok
                        &&& center_row_of(
                            final(self).rows.children@[ci],
                        ).children@ == center.children@.insert(
                            Self::spec_insert_index(loc, count),
                            ChildType::Layout(Box::new(layout)),
                        )
                        &&& center_row_of(final(self).rows.children@[ci]).fill_algorithm
                            == final_center_fill(center.fill_algorithm, loc, layout.spec_id())
                        &&& forall|j: int|
                            0 <= j < final(self).rows.children@.len() && j != ci
                                ==> final(self).rows.children@[j] == old(self).rows.children@[j]
                        &&& final(self).rows.children@.len() == old(self).rows.children@.len()
                    } else {
                        (r matches Err(m) && m@ == "BorderLayout cannot hold another child"@)
                            && *final(self) == *old(self)
                    }
                }
            }),
    {
        let location = match args {
            LayoutArgs::BORDER(location) => location,
            _ => {
                return Err("Required LayoutArgs::BORDER argument is missing".to_owned());
            },
        };
        match location {
            BorderLocation::TOP | BorderLocation::BOTTOM => {
                if self.rows.children.len() >= MAX_ROW_CHILDREN {
                    return Err("BorderLayout cannot hold another child".to_owned());
                }
                let count = self.rows.children.len();
                let index: usize = match location {
                    BorderLocation::TOP => 0,
                    _ => if count < 2 {
                        count
                    } else {
                        2
                    },
                };
                let _inserted = self.rows.insert_layout(layout, index);
                proof {
                    lemma_center_survives_insert(
                        old(self).rows.children@,
                        self.rows.children@,
                        index as int,
                        self.center_uuid,
                    );
                }
                Ok(())
            },
            BorderLocation::LEFT | BorderLocation::CENTER | BorderLocation::RIGHT => {
                let ci = self.find_center_index();
                let full = match &self.rows.children[ci] {
                    ChildType::Layout(l) => match &**l {
                        LayoutNode::Row(r) => r.children.len() >= MAX_ROW_CHILDREN,
                        _ => false,
                    },
                    _ => false,
                };
                if full {
                    return Err("BorderLayout cannot hold another child".to_owned());
                }
                let layout_id = layout.id();
                let slot = self.rows.children.remove(ci);
                proof {
                    assert(old(self).rows.children@[ci as int].wf());
                }
                match slot {
                    ChildType::Layout(boxed) => match *boxed {
                        LayoutNode::Row(mut center) => {
                            let count = center.children.len();
                            let index: usize = match location {
                                BorderLocation::LEFT => 0,
                                _ => if count < 1 {
                                    count
                                } else {
                                    1
                                },
                            };
                            if matches!(location, BorderLocation::CENTER) {
                                // The inner row hands all extra space to the
                                // center child.
                                center.set_fill(LayoutFill::Single(layout_id));
                            }
                            let _inserted = center.insert_layout(layout, index);
                            let restored = ChildType::Layout(Box::new(LayoutNode::Row(center)));
                            self.rows.children.insert(ci, restored);
                            proof {
                                assert(self.rows.children@ =~= old(self).rows.children@.update(
                                    ci as int,
                                    self.rows.children@[ci as int],
                                ));
                                assert(is_center_slot(
                                    self.rows.children@[ci as int],
                                    self.center_uuid,
                                ));
                            }
                            Ok(())
                        },
                        _ => vstd::pervasive::unreached(),
                    },
                    _ => vstd::pervasive::unreached(),
                }
            },
        }
    }

    /// Removes every child from every region; only the emptied inner row
    /// remains in the outer row.
    pub fn clear(&mut self)
        requires
            old(self).wf(),
        ensures
            final(self).wf(),
            final(self).rows.children@.len() == 1,
            is_center_slot(final(self).rows.children@[0], final(self).center_uuid),
            center_row_of(final(self).rows.children@[0]).children@.len() == 0,
            final(self).center_uuid == old(self).center_uuid,
    {
        let ci = self.find_center_index();
        let slot = self.rows.children.remove(ci);
        proof {
            assert(old(self).rows.children@[ci as int].wf());
        }
        match slot {
            ChildType::Layout(boxed) => match *boxed {
                LayoutNode::Row(mut center) => {
                    center.clear();
                    self.rows.clear();
                    let restored = ChildType::Layout(Box::new(LayoutNode::Row(center)));
                    self.rows.children.insert(0, restored);
                    proof {
                        assert(is_center_slot(self.rows.children@[0], self.center_uuid));
                    }
                },
                _ => vstd::pervasive::unreached(),
            },
            _ => vstd::pervasive::unreached(),
        }
    }

    /// The center never stops absorbing slack: this layout implements its
    /// own fill discipline, so a caller's `set_fill` changes nothing.
    pub fn set_fill(&mut self, _algorithm: LayoutFill)
        ensures
            *final(self) == *old(self),
    {
    }

    /// Caps the outer row's size.
    pub fn set_max_size(&mut self, width: i64, height: i64)
        ensures
            *final(self) == (BorderLayout {
                rows: RowLayout {
                    max_width: Some(width),
                    max_height: Some(height),
                    ..old(self).rows
                },
                ..*old(self)
            }),
    {
        self.rows.set_max_size(width, height);
    }
}

/// The inner row a center slot holds (meaningful only on a center slot).
pub open spec fn center_row_of(c: ChildType) -> RowLayout {
    match c {
        ChildType::Layout(l) => match *l {
            LayoutNode::Row(r) => r,
            _ => arbitrary(),
        },
        _ => arbitrary(),
    }
}

/// The inner row's fill policy after an insertion: a center insertion points
/// it at the inserted child, anything else leaves it alone.
pub open spec fn final_center_fill(
    previous: LayoutFill,
    location: BorderLocation,
    child: WidgetId,
) -> LayoutFill {
    if location == BorderLocation::CENTER {
        LayoutFill::Single(child)
    } else {
        previous
    }
}

/// Inserting into the outer row keeps the inner row present.
proof fn lemma_center_survives_insert(
    before: Seq<ChildType>,
    after: Seq<ChildType>,
    at: int,
    id: WidgetId,
)
    requires
        exists|i: int| 0 <= i < before.len() && is_center_slot(#[trigger] before[i], id),
        0 <= at <= before.len(),
        after == before.insert(at, after[at]),
    ensures
        exists|i: int| 0 <= i < after.len() && is_center_slot(#[trigger] after[i], id),
{
    let i = choose|i: int| 0 <= i < before.len() && is_center_slot(#[trigger] before[i], id);
    if i < at {
        assert(after[i] == before[i]);
    } else {
        assert(after[i + 1] == before[i]);
    }
}

} // verus!
