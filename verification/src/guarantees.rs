//! What holds of every layout, proved from what a layout is.
//!
//! Each statement here takes a configuration that is the layout of some
//! groups, as `build_config` and `generate` return it, and says something of
//! its pages.

use crate::action::ActionView;
use crate::button::{ButtonControlView, ControlView};
use crate::config::{is_page_number, ConfigView, PAGE_COUNT};
use crate::input::GroupView;
use crate::layout::{
    config_layout, has_channel_rows, has_navigation_bar, is_laid_out, is_layout_for,
    leads_to_page, navigation_button, navigation_row, owns_page, page_layout, page_rows,
    rotary_button, rotary_row, view_button, view_row, NAVIGATION_ROW, ROTARY_ROW, VIEW_ROW,
};
use crate::page::{row_without_ids, rows_without_ids};
use vstd::prelude::*;

verus! {

/// Page by page: in a layout, every page number has its page, and that
/// page is the page of the layout up to its identifiers, which are texts of
/// UUIDs.
pub proof fn lemma_layout_page(
    config: ConfigView,
    groups: Seq<GroupView>,
    x32_id: Seq<char>,
    page: usize,
)
    requires
        is_layout_for(config, groups, x32_id),
        is_page_number(page),
    ensures
        config.pages.contains_key(page),
        config.pages[page].without_ids() == page_layout(groups, page, x32_id),
        config.pages[page].have_uuids(),
{
    let expected = config_layout(groups, x32_id).pages;
    assert(expected.contains_key(page));
    assert(config.without_ids().pages.contains_key(page));
    assert(config.without_ids().pages[page] == expected[page]);
}

/// The numbers from 1 to `n` are `n` numbers.
proof fn lemma_count_to(n: usize)
    ensures
        Set::new(|k: usize| 1 <= k <= n).finite(),
        Set::new(|k: usize| 1 <= k <= n).len() == n,
    decreases n,
{
    let upto = Set::new(|k: usize| 1 <= k <= n);
    if n == 0 {
        assert(upto =~= Set::<usize>::empty());
    } else {
        let before = Set::new(|k: usize| 1 <= k <= (n - 1) as usize);
        lemma_count_to((n - 1) as usize);
        assert(upto =~= before.insert(n));
    }
}

/// A layout has exactly 99 pages, under the numbers 1 to 99, whatever the
/// groups are and however many there are.
pub proof fn lemma_layout_has_all_pages(
    config: ConfigView,
    groups: Seq<GroupView>,
    x32_id: Seq<char>,
)
    requires
        is_layout_for(config, groups, x32_id),
    ensures
        config.has_all_pages(),
        config.pages.dom().finite(),
        config.pages.dom().len() == 99,
{
    let expected = config_layout(groups, x32_id).pages;
    assert forall|page: usize| config.pages.contains_key(page) <==> is_page_number(page) by {
        assert(config.without_ids().pages.contains_key(page) <==> config.pages.contains_key(page));
        assert(expected.contains_key(page) <==> is_page_number(page));
    }
    lemma_count_to(PAGE_COUNT);
    let numbers = Set::new(|k: usize| 1 <= k <= PAGE_COUNT);
    assert forall|k: usize| config.pages.dom().contains(k) <==> numbers.contains(k) by {
        assert(config.pages.contains_key(k) <==> is_page_number(k));
    }
    assert(config.pages.dom() =~= numbers);
}

/// Row 0 of every page of a layout is the navigation bar: one button for
/// each group, which bears the group's name and leads to the page whose
/// number is the group's place counted from one.
pub proof fn lemma_layout_navigation_bar(
    config: ConfigView,
    groups: Seq<GroupView>,
    x32_id: Seq<char>,
    page: usize,
)
    requires
        is_layout_for(config, groups, x32_id),
        is_page_number(page),
        groups.len() <= u32::MAX,
    ensures
        has_navigation_bar(config.pages[page], groups),
{
    lemma_layout_page(config, groups, x32_id, page);
    let rows = config.pages[page].controls;
    let expected = page_rows(groups, page, x32_id);
    assert(expected.contains_key(NAVIGATION_ROW));
    assert(config.pages[page].without_ids().controls.contains_key(NAVIGATION_ROW));
    assert(rows.contains_key(NAVIGATION_ROW));
    let row = rows[NAVIGATION_ROW];
    assert(row_without_ids(row) == navigation_row(groups)) by {
        assert(config.pages[page].without_ids().controls[NAVIGATION_ROW]
            == expected[NAVIGATION_ROW]);
    }
    assert forall|column: usize| row.contains_key(column) <==> column < groups.len() by {
        assert(row_without_ids(row).contains_key(column) <==> row.contains_key(column));
        assert(navigation_row(groups).contains_key(column) <==> column < groups.len());
    }
    assert forall|column: usize| column < groups.len() implies {
        let control = #[trigger] row[column];
        &&& control.without_ids() == navigation_button(groups, column as int)
        &&& control->button_0.style.text == groups[column as int].name
        &&& leads_to_page(control, column + 1)
    } by {
        let control = row[column];
        assert(row.contains_key(column));
        assert(row_without_ids(row)[column] == control.without_ids());
        assert(navigation_row(groups)[column] == navigation_button(groups, column as int));
        let model = ButtonControlView::page_select(groups[column as int].name, (column + 1) as u32);
        assert(control.without_ids() == ControlView::button(model));
        let button = control->button_0;
        assert(button.without_ids() == model);
        assert(model.steps.contains_key(0));
        assert(button.without_ids().steps.contains_key(0));
        assert(button.steps.contains_key(0));
        assert(button.without_ids().steps[0] == button.steps[0].without_ids());
        let down = button.steps[0].action_sets.down;
        assert(button.steps[0].without_ids().action_sets.down.len() == down.len());
        assert(model.steps[0].action_sets.down.len() == 1);
        assert(down.len() == 1);
        assert(button.steps[0].without_ids().action_sets.down[0] == down[0].without_id());
        assert(down[0].without_id() == ActionView::to_page((column + 1) as u32));
    }
}

/// Rows 2 and 3 of a page of a layout: the page of a group has both, each
/// with one cell for each channel of the group, in the column of the
/// channel's place counted from zero: in row 2 the button that shows the
/// channel, in row 3 its knob. A page that belongs to no group has neither
/// row.
pub proof fn lemma_layout_channel_rows(
    config: ConfigView,
    groups: Seq<GroupView>,
    x32_id: Seq<char>,
    page: usize,
)
    requires
        is_layout_for(config, groups, x32_id),
        is_page_number(page),
    ensures
        has_channel_rows(config.pages[page], groups, page),
        owns_page(groups, page) ==> {
            let channels = groups[page - 1].channels;
            &&& forall|column: usize|
                column < channels.len() ==> (
                #[trigger] config.pages[page].controls[VIEW_ROW][column]).without_ids()
                    == view_button(channels[column as int], x32_id)
            &&& forall|column: usize|
                column < channels.len() ==> (
                #[trigger] config.pages[page].controls[ROTARY_ROW][column]).without_ids()
                    == rotary_button(channels[column as int], x32_id)
        },
{
    lemma_layout_page(config, groups, x32_id, page);
    let rows = config.pages[page].controls;
    let expected = page_rows(groups, page, x32_id);
    assert(config.pages[page].without_ids().controls == expected);
    assert(rows_without_ids(rows).contains_key(VIEW_ROW) <==> rows.contains_key(VIEW_ROW));
    assert(rows_without_ids(rows).contains_key(ROTARY_ROW) <==> rows.contains_key(ROTARY_ROW));
    if owns_page(groups, page) {
        let group = groups[page - 1];
        assert(expected.contains_key(VIEW_ROW));
        assert(expected.contains_key(ROTARY_ROW));
        let views = rows[VIEW_ROW];
        let knobs = rows[ROTARY_ROW];
        assert(row_without_ids(views) == view_row(group, x32_id)) by {
            assert(rows_without_ids(rows)[VIEW_ROW] == expected[VIEW_ROW]);
        }
        assert(row_without_ids(knobs) == rotary_row(group, x32_id)) by {
            assert(rows_without_ids(rows)[ROTARY_ROW] == expected[ROTARY_ROW]);
        }
        assert forall|column: usize| views.contains_key(column) <==> column
            < group.channels.len() by {
            assert(row_without_ids(views).contains_key(column) <==> views.contains_key(column));
        }
        assert forall|column: usize| knobs.contains_key(column) <==> column
            < group.channels.len() by {
            assert(row_without_ids(knobs).contains_key(column) <==> knobs.contains_key(column));
        }
        assert forall|column: usize| column < group.channels.len() implies (
        #[trigger] views[column]).without_ids() == view_button(
            group.channels[column as int],
            x32_id,
        ) by {
            assert(views.contains_key(column));
            assert(row_without_ids(views)[column] == views[column].without_ids());
        }
        assert forall|column: usize| column < group.channels.len() implies (
        #[trigger] knobs[column]).without_ids() == rotary_button(
            group.channels[column as int],
            x32_id,
        ) by {
            assert(knobs.contains_key(column));
            assert(row_without_ids(knobs)[column] == knobs[column].without_ids());
        }
    } else {
        assert(!expected.contains_key(VIEW_ROW));
        assert(!expected.contains_key(ROTARY_ROW));
    }
}

/// A layout of groups whose places are page numbers is laid out: it has the
/// 99 pages, each with the navigation bar and with the channel rows of its
/// group or none.
pub proof fn lemma_layout_is_laid_out(
    config: ConfigView,
    groups: Seq<GroupView>,
    x32_id: Seq<char>,
)
    requires
        is_layout_for(config, groups, x32_id),
        groups.len() <= u32::MAX,
    ensures
        is_laid_out(config, groups),
{
    lemma_layout_has_all_pages(config, groups, x32_id);
    assert forall|page: usize| is_page_number(page) implies has_navigation_bar(
        #[trigger] config.pages[page],
        groups,
    ) by {
        lemma_layout_navigation_bar(config, groups, x32_id, page);
    }
    assert forall|page: usize| is_page_number(page) implies has_channel_rows(
        #[trigger] config.pages[page],
        groups,
        page,
    ) by {
        lemma_layout_channel_rows(config, groups, x32_id, page);
    }
}

/// A group beyond the 99th has no page of its own, and still its button in
/// the navigation bar of every page.
pub proof fn lemma_layout_group_without_page(
    config: ConfigView,
    groups: Seq<GroupView>,
    x32_id: Seq<char>,
    index: usize,
    page: usize,
)
    requires
        is_layout_for(config, groups, x32_id),
        groups.len() <= u32::MAX,
        PAGE_COUNT <= index < groups.len(),
        is_page_number(page),
    ensures
        !config.pages.contains_key((index + 1) as usize),
        config.pages[page].controls[NAVIGATION_ROW].contains_key(index),
        leads_to_page(config.pages[page].controls[NAVIGATION_ROW][index], index + 1),
{
    lemma_layout_has_all_pages(config, groups, x32_id);
    lemma_layout_navigation_bar(config, groups, x32_id, page);
    assert(!is_page_number((index + 1) as usize));
}

/// The navigation bar is the same on every page of a layout, up to the
/// identifiers of its actions.
pub proof fn lemma_layout_same_navigation(
    config: ConfigView,
    groups: Seq<GroupView>,
    x32_id: Seq<char>,
    page: usize,
    other: usize,
)
    requires
        is_layout_for(config, groups, x32_id),
        is_page_number(page),
        is_page_number(other),
    ensures
        row_without_ids(config.pages[page].controls[NAVIGATION_ROW]) == row_without_ids(
            config.pages[other].controls[NAVIGATION_ROW],
        ),
{
    lemma_layout_page(config, groups, x32_id, page);
    lemma_layout_page(config, groups, x32_id, other);
    assert(page_rows(groups, page, x32_id).contains_key(NAVIGATION_ROW));
    assert(page_rows(groups, other, x32_id).contains_key(NAVIGATION_ROW));
    assert(config.pages[page].without_ids().controls.contains_key(NAVIGATION_ROW));
    assert(config.pages[other].without_ids().controls.contains_key(NAVIGATION_ROW));
    assert(config.pages[page].without_ids().controls[NAVIGATION_ROW] == navigation_row(groups));
    assert(config.pages[other].without_ids().controls[NAVIGATION_ROW] == navigation_row(groups));
}

} // verus!
