//! A page: a grid of controls, row by row.

use crate::button::{Control, ControlView};
use crate::style::Gridsize;
use std::collections::HashMap;
use vstd::prelude::*;

verus! {

/// One page of the control surface. The rows are keyed by their number and,
/// in a row, the cells by their column, both from zero.
#[derive(Debug, Clone, PartialEq, Eq)]
pub struct Page {
    pub name: String,
    pub controls: HashMap<usize, HashMap<usize, Control>>,
    pub grid_size: Gridsize,
}

/// A `Page` as a value of mathematics.
pub struct PageView {
    pub name: Seq<char>,
    pub controls: Map<usize, Map<usize, ControlView>>,
    pub grid_size: Gridsize,
}

/// The views of the controls of a row, under the same columns.
pub open spec fn row_view(row: Map<usize, Control>) -> Map<usize, ControlView> {
    row.map_values(|c: Control| c@)
}

/// The views of the rows of a page, under the same numbers.
pub open spec fn rows_view(rows: Map<usize, HashMap<usize, Control>>) -> Map<
    usize,
    Map<usize, ControlView>,
> {
    rows.map_values(|row: HashMap<usize, Control>| row_view(row@))
}

/// A row with every identifier emptied.
pub open spec fn row_without_ids(row: Map<usize, ControlView>) -> Map<usize, ControlView> {
    row.map_values(|c: ControlView| c.without_ids())
}

/// The rows of a page with every identifier emptied.
pub open spec fn rows_without_ids(rows: Map<usize, Map<usize, ControlView>>) -> Map<
    usize,
    Map<usize, ControlView>,
> {
    rows.map_values(|row: Map<usize, ControlView>| row_without_ids(row))
}

/// Whether every identifier in the row is the text of a UUID.
pub open spec fn row_has_uuids(row: Map<usize, ControlView>) -> bool {
    forall|column: usize| row.contains_key(column) ==> (#[trigger] row[column]).have_uuids()
}

/// Whether every identifier in the rows is the text of a UUID.
pub open spec fn rows_have_uuids(rows: Map<usize, Map<usize, ControlView>>) -> bool {
    forall|row: usize| rows.contains_key(row) ==> row_has_uuids(#[trigger] rows[row])
}

impl View for Page {
    type V = PageView;

    open spec fn view(&self) -> PageView {
        PageView {
            name: self.name@,
            controls: rows_view(self.controls@),
            grid_size: self.grid_size,
        }
    }
}

impl PageView {
    /// The page without controls, under the name that every page has.
    pub open spec fn empty() -> PageView {
        PageView { name: "PAGE"@, controls: Map::empty(), grid_size: Gridsize::standard() }
    }

    /// The page with every identifier emptied.
    pub open spec fn without_ids(self) -> PageView {
        PageView { controls: rows_without_ids(self.controls), ..self }
    }

    /// Whether every identifier on the page is the text of a UUID.
    pub open spec fn have_uuids(self) -> bool {
        rows_have_uuids(self.controls)
    }
}

impl Default for Page {
    fn default() -> (r: Self)
        ensures
            r@ == PageView::empty(),
    {
        let r = Self {
            name: "PAGE".to_string(),
            controls: HashMap::new(),
            grid_size: Gridsize::default(),
        };
        assert(r@.controls =~= Map::empty());
        r
    }
}

} // verus!
