//! Laying out a configuration: which button goes into which cell of which
//! page.
//!
//! Every page has the same navigation bar in row 0, one button for each
//! group, and the reset button in row 1. Page `n` belongs to the `n`-th
//! group: rows 2 and 3 hold, for each channel of the group, a button that
//! shows the channel and a knob that moves its fader. A page that belongs to
//! no group has no rows 2 and 3.
//!
//! The spec functions here give the layout with empty identifiers; the
//! functions that build it draw an identifier for every action and feedback.

use crate::action::{Action, ActionView, MuteAction};
use crate::button::{
    lemma_idle_button_without_ids, lemma_with_down_action_without_ids,
    lemma_with_feedback_without_ids, ButtonControl, ButtonControlView, Control, ControlView,
};
use crate::channel::ChannelPath;
use crate::config::{is_page_number, Config, ConfigView, FORMAT_VERSION, PAGE_COUNT};
use crate::guarantees::lemma_layout_is_laid_out;
use crate::error::BuildError;
use crate::feedback::FeedbackView;
use crate::ident::{is_uuid_text, new_id};
use crate::input::{groups_view, Group, GroupView, MyConfig};
use crate::instance::{Instance, InstanceView};
use crate::page::{row_has_uuids, row_view, row_without_ids, Page, PageView};
use std::collections::HashMap;
use vstd::prelude::*;

verus! {

/// The row of the buttons that lead to the groups' pages.
pub const NAVIGATION_ROW: usize = 0;

/// The row of the reset button.
pub const UTILITY_ROW: usize = 1;

/// The row of the buttons that show the channels of a group.
pub const VIEW_ROW: usize = 2;

/// The row of the knobs that move the faders of a group.
pub const ROTARY_ROW: usize = 3;

/// The column of the reset button.
pub const RESET_COLUMN: usize = 3;

/// Red, the background of the reset button.
pub const RESET_BACKGROUND: u32 = 0xff0000;

/// What one turn of a knob adds to a fader or takes from it, in thousandths.
pub const ROTARY_STEP: i32 = 300;

/// The number of the page of the group at place `index`, counted from zero:
/// the place counted from one. Fails where that does not fit in the 32 bits
/// of a page number.
pub fn group_page_number(index: usize) -> (r: Result<u32, BuildError>)
    ensures
        r is Ok <==> index < u32::MAX,
        r matches Ok(page) ==> page == index + 1,
        r matches Err(e) ==> e == BuildError::PageNumberOverflow,
{
    match u32::try_from(index) {
        Ok(place) => {
            if place < u32::MAX {
                Ok(place + 1)
            } else {
                Err(BuildError::PageNumberOverflow)
            }
        },
        Err(_) => Err(BuildError::PageNumberOverflow),
    }
}

/// The button in column `index` of the navigation bar: it bears the name of
/// the group at that place and leads to the group's page, whose number is
/// the place counted from one.
pub open spec fn navigation_button(groups: Seq<GroupView>, index: int) -> ControlView {
    ControlView::button(ButtonControlView::page_select(groups[index].name, (index + 1) as u32))
}

/// The navigation bar: one button for each group, in the groups' order.
pub open spec fn navigation_row(groups: Seq<GroupView>) -> Map<usize, ControlView> {
    Map::new(
        |column: usize| column < groups.len(),
        |column: usize| navigation_button(groups, column as int),
    )
}

/// Builds the navigation bar: a button for each group that leads to its
/// page. Fails where the place of a group, counted from one, does not fit in
/// 32 bits.
pub fn build_navigation_row(groups: &Vec<Group>) -> (r: Result<HashMap<usize, Control>, BuildError>)
    ensures
        r is Ok <==> groups.len() <= u32::MAX,
        r matches Ok(row) ==> row_without_ids(row_view(row@)) == navigation_row(
            groups_view(groups@),
        ) && row_has_uuids(row_view(row@)),
        r matches Err(e) ==> e == BuildError::PageNumberOverflow,
{
    let mut row: HashMap<usize, Control> = HashMap::new();
    let mut index: usize = 0;
    while index < groups.len()
        invariant
            index <= groups.len(),
            index <= u32::MAX,
            forall|k: usize| row@.contains_key(k) <==> k < index,
            forall|k: usize|
                k < index ==> (#[trigger] row@[k])@.without_ids() == navigation_button(
                    groups_view(groups@),
                    k as int,
                ) && row@[k]@.have_uuids(),
        decreases groups.len() - index,
    {
        let page: u32 = match group_page_number(index) {
            Ok(page) => page,
            Err(e) => {
                return Err(e);
            },
        };
        let button = ButtonControl::new_page_select(groups[index].name.as_str(), page);
        row.insert(index, Control::button(button));
        index = index + 1;
    }
    assert(row_without_ids(row_view(row@)) =~= navigation_row(groups_view(groups@)));
    Ok(row)
}

/// The label of the reset button.
pub open spec fn reset_label() -> Seq<char> {
    "Reset To Defaults"@
}

/// The channel of the main bus.
pub open spec fn main_bus() -> Seq<char> {
    "/main/st"@
}

/// The reset button: on red, it recalls scene 0 and then pulls the main bus
/// down to zero.
pub open spec fn reset_button(x32_id: Seq<char>) -> ButtonControlView {
    ButtonControlView::plain(reset_label()).with_background(RESET_BACKGROUND).with_down_action(
        ActionView::go_to_scene(x32_id, 0),
    ).with_down_action(ActionView::set_fader(x32_id, main_bus(), 0))
}

/// The row of the reset button: the button in its column and nothing else.
pub open spec fn utility_row(x32_id: Seq<char>) -> Map<usize, ControlView> {
    Map::<usize, ControlView>::empty().insert(
        RESET_COLUMN,
        ControlView::button(reset_button(x32_id)),
    )
}

/// Builds the row of the reset button for the mixer `x32_id`.
pub fn build_utility_row(x32_id: &str) -> (row: HashMap<usize, Control>)
    ensures
        row_without_ids(row_view(row@)) == utility_row(x32_id@),
        row_has_uuids(row_view(row@)),
{
    let plain = ButtonControl::new("Reset To Defaults").background_color(RESET_BACKGROUND);
    let recall = Action::go_to_scene(x32_id, 0);
    let silence = Action::set_fader(x32_id, &ChannelPath::new("/main/st"), 0);
    proof {
        lemma_with_down_action_without_ids(plain@, recall@);
        lemma_with_down_action_without_ids(plain@.with_down_action(recall@), silence@);
        lemma_idle_button_without_ids(plain@);
    }
    let button = plain.add_down_action(recall).add_down_action(silence);
    let mut row: HashMap<usize, Control> = HashMap::new();
    row.insert(RESET_COLUMN, Control::button(button));
    assert(row_without_ids(row_view(row@)) =~= utility_row(x32_id@));
    row
}

/// The button that shows a channel, given as its name and its token: the
/// name and the fader level, with the mute feedback of the channel.
pub open spec fn view_button(channel: (Seq<char>, Seq<char>), x32_id: Seq<char>) -> ControlView {
    ControlView::button(
        ButtonControlView::channel_view(channel.0, channel.1).with_feedback(
            FeedbackView::mute_of(x32_id, channel.1),
        ),
    )
}

/// The row that shows the channels of a group, in the channels' order.
pub open spec fn view_row(group: GroupView, x32_id: Seq<char>) -> Map<usize, ControlView> {
    Map::new(
        |column: usize| column < group.channels.len(),
        |column: usize| view_button(group.channels[column as int], x32_id),
    )
}

/// Builds the row that shows the channels of `group` on the mixer `x32_id`.
pub fn build_view_row(group: &Group, x32_id: &str) -> (r: Result<
    HashMap<usize, Control>,
    BuildError,
>)
    ensures
        r is Ok,
        row_without_ids(row_view(r->Ok_0@)) == view_row(group@, x32_id@),
        row_has_uuids(row_view(r->Ok_0@)),
{
    let mut row: HashMap<usize, Control> = HashMap::new();
    let mut index: usize = 0;
    while index < group.channels.len()
        invariant
            index <= group.channels.len(),
            forall|k: usize| row@.contains_key(k) <==> k < index,
            forall|k: usize|
                k < index ==> (#[trigger] row@[k])@.without_ids() == view_button(
                    group@.channels[k as int],
                    x32_id@,
                ) && row@[k]@.have_uuids(),
        decreases group.channels.len() - index,
    {
        let channel = ChannelPath::new(group.channels[index].1.as_str());
        let plain = match ButtonControl::new_channel_view(
            group.channels[index].0.as_str(),
            &channel,
        ) {
            Ok(plain) => plain,
            Err(e) => {
                return Err(e);
            },
        };
        let button = plain.add_mute_feedback(x32_id, &channel);
        proof {
            lemma_idle_button_without_ids(plain@);
            lemma_with_feedback_without_ids(plain@, button@.feedbacks.last());
        }
        row.insert(index, Control::button(button));
        index = index + 1;
    }
    assert(row_without_ids(row_view(row@)) =~= view_row(group@, x32_id@));
    Ok(row)
}

/// The knob of a channel, given as its name and its token: a turn moves the
/// channel's fader by one step, a press sets its mute state.
pub open spec fn rotary_button(channel: (Seq<char>, Seq<char>), x32_id: Seq<char>) -> ControlView {
    ControlView::button(
        ButtonControlView::channel_rotary(
            channel.0,
            x32_id,
            channel.1,
            ROTARY_STEP,
        ).with_down_action(ActionView::mute_channel(x32_id, channel.1)),
    )
}

/// The row of the knobs of a group, in the channels' order.
pub open spec fn rotary_row(group: GroupView, x32_id: Seq<char>) -> Map<usize, ControlView> {
    Map::new(
        |column: usize| column < group.channels.len(),
        |column: usize| rotary_button(group.channels[column as int], x32_id),
    )
}

/// Builds the row of the knobs of `group` on the mixer `x32_id`.
pub fn build_rotary_row(group: &Group, x32_id: &str) -> (row: HashMap<usize, Control>)
    ensures
        row_without_ids(row_view(row@)) == rotary_row(group@, x32_id@),
        row_has_uuids(row_view(row@)),
{
    let mut row: HashMap<usize, Control> = HashMap::new();
    let mut index: usize = 0;
    while index < group.channels.len()
        invariant
            index <= group.channels.len(),
            forall|k: usize| row@.contains_key(k) <==> k < index,
            forall|k: usize|
                k < index ==> (#[trigger] row@[k])@.without_ids() == rotary_button(
                    group@.channels[k as int],
                    x32_id@,
                ) && row@[k]@.have_uuids(),
        decreases group.channels.len() - index,
    {
        let channel = ChannelPath::new(group.channels[index].1.as_str());
        let knob = ButtonControl::new_channel_rotary(
            group.channels[index].0.as_str(),
            x32_id,
            &channel,
            ROTARY_STEP,
        );
        let mute = Action::mute(MuteAction::new(x32_id, &channel));
        proof {
            lemma_with_down_action_without_ids(knob@, mute@);
        }
        let button = knob.add_down_action(mute);
        row.insert(index, Control::button(button));
        index = index + 1;
    }
    assert(row_without_ids(row_view(row@)) =~= rotary_row(group@, x32_id@));
    row
}

/// Whether page `page` belongs to a group: the group at place `page`,
/// counted from one.
pub open spec fn owns_page(groups: Seq<GroupView>, page: usize) -> bool {
    1 <= page <= groups.len()
}

/// The rows of page `page`: the navigation bar and the reset button, and
/// under them the channels of the group that the page belongs to, if there
/// is one.
pub open spec fn page_rows(groups: Seq<GroupView>, page: usize, x32_id: Seq<char>) -> Map<
    usize,
    Map<usize, ControlView>,
> {
    let shared = Map::<usize, Map<usize, ControlView>>::empty().insert(
        NAVIGATION_ROW,
        navigation_row(groups),
    ).insert(UTILITY_ROW, utility_row(x32_id));
    if owns_page(groups, page) {
        shared.insert(VIEW_ROW, view_row(groups[page - 1], x32_id)).insert(
            ROTARY_ROW,
            rotary_row(groups[page - 1], x32_id),
        )
    } else {
        shared
    }
}

/// Page `page` of the layout of `groups` for the mixer `x32_id`.
pub open spec fn page_layout(groups: Seq<GroupView>, page: usize, x32_id: Seq<char>) -> PageView {
    PageView { controls: page_rows(groups, page, x32_id), ..PageView::empty() }
}

/// Builds page `page` of the layout of `groups` for the mixer `x32_id`.
/// Fails where the place of a group, counted from one, does not fit in 32
/// bits.
pub fn build_page(groups: &Vec<Group>, page: usize, x32_id: &str) -> (r: Result<Page, BuildError>)
    ensures
        r is Ok <==> groups.len() <= u32::MAX,
        r matches Ok(built) ==> built@.without_ids() == page_layout(
            groups_view(groups@),
            page,
            x32_id@,
        ) && built@.have_uuids(),
        r matches Err(e) ==> e == BuildError::PageNumberOverflow,
{
    let mut built = Page::default();
    let navigation = match build_navigation_row(groups) {
        Ok(row) => row,
        Err(e) => {
            return Err(e);
        },
    };
    let utility = build_utility_row(x32_id);
    let ghost navigation_view = row_view(navigation@);
    let ghost utility_view = row_view(utility@);
    built.controls.insert(NAVIGATION_ROW, navigation);
    built.controls.insert(UTILITY_ROW, utility);
    if 1 <= page && page <= groups.len() {
        let group = &groups[page - 1];
        let views = match build_view_row(group, x32_id) {
            Ok(row) => row,
            Err(e) => {
                return Err(e);
            },
        };
        let knobs = build_rotary_row(group, x32_id);
        let ghost views_view = row_view(views@);
        let ghost knobs_view = row_view(knobs@);
        built.controls.insert(VIEW_ROW, views);
        built.controls.insert(ROTARY_ROW, knobs);
        assert(built@.controls =~= Map::<usize, Map<usize, ControlView>>::empty().insert(
            NAVIGATION_ROW,
            navigation_view,
        ).insert(UTILITY_ROW, utility_view).insert(VIEW_ROW, views_view).insert(
            ROTARY_ROW,
            knobs_view,
        ));
    } else {
        assert(built@.controls =~= Map::<usize, Map<usize, ControlView>>::empty().insert(
            NAVIGATION_ROW,
            navigation_view,
        ).insert(UTILITY_ROW, utility_view));
    }
    assert(built@.without_ids().controls =~= page_rows(groups_view(groups@), page, x32_id@));
    Ok(built)
}

/// The mixer as a device of the configuration.
pub open spec fn mixer_instance() -> InstanceView {
    InstanceView::new("behringer-x32"@, "x32"@, 2)
}

/// The layout of `groups` for the mixer `x32_id`: the 99 pages, and the
/// mixer as the one device.
pub open spec fn config_layout(groups: Seq<GroupView>, x32_id: Seq<char>) -> ConfigView {
    ConfigView {
        version: FORMAT_VERSION,
        kind: "full"@,
        pages: Map::new(
            |page: usize| is_page_number(page),
            |page: usize| page_layout(groups, page, x32_id),
        ),
        instances: Map::<Seq<char>, InstanceView>::empty().insert(x32_id, mixer_instance()),
    }
}

/// Whether `config` is the layout of `groups` for the mixer `x32_id`, with
/// the text of a UUID as the identifier of every action and feedback.
pub open spec fn is_layout_for(
    config: ConfigView,
    groups: Seq<GroupView>,
    x32_id: Seq<char>,
) -> bool {
    config.without_ids() == config_layout(groups, x32_id) && config.have_uuids()
}

/// Whether `config` is the layout of `groups` for a mixer that has the text
/// of a UUID as its identifier.
pub open spec fn is_layout_of(config: ConfigView, groups: Seq<GroupView>) -> bool {
    exists|x32_id: Seq<char>|
        is_uuid_text(x32_id) && #[trigger] is_layout_for(config, groups, x32_id)
}

/// Whether row 0 of `page` is the navigation bar of `groups`: it has one
/// button for each group, in the column of the group's place counted from
/// zero; the button bears the group's name and leads to the page whose
/// number is the group's place counted from one.
pub open spec fn has_navigation_bar(page: PageView, groups: Seq<GroupView>) -> bool {
    &&& page.controls.contains_key(NAVIGATION_ROW)
    &&& forall|column: usize|
        page.controls[NAVIGATION_ROW].contains_key(column) <==> column < groups.len()
    &&& forall|column: usize|
        column < groups.len() ==> {
            let control = #[trigger] page.controls[NAVIGATION_ROW][column];
            &&& control.without_ids() == navigation_button(groups, column as int)
            &&& control->button_0.style.text == groups[column as int].name
            &&& leads_to_page(control, column + 1)
        }
}

/// Whether `control` is a button that does one thing when it is pressed:
/// it shows page `page`.
pub open spec fn leads_to_page(control: ControlView, page: int) -> bool {
    &&& control is button
    &&& control->button_0.steps.contains_key(0)
    &&& control->button_0.steps[0].action_sets.down.len() == 1
    &&& control->button_0.steps[0].action_sets.down[0] is set_page_byindex
    &&& control->button_0.steps[0].action_sets.down[0]->set_page_byindex_0.options.page == page
}

/// Whether rows 2 and 3 of page `number` are as the groups ask. The page of
/// a group has both rows, each with one cell for each channel of the group,
/// in the column of the channel's place counted from zero. A page that
/// belongs to no group has neither row.
pub open spec fn has_channel_rows(page: PageView, groups: Seq<GroupView>, number: usize) -> bool {
    if owns_page(groups, number) {
        let channels = groups[number - 1].channels;
        &&& page.controls.contains_key(VIEW_ROW)
        &&& page.controls.contains_key(ROTARY_ROW)
        &&& forall|column: usize|
            page.controls[VIEW_ROW].contains_key(column) <==> column < channels.len()
        &&& forall|column: usize|
            page.controls[ROTARY_ROW].contains_key(column) <==> column < channels.len()
    } else {
        !page.controls.contains_key(VIEW_ROW) && !page.controls.contains_key(ROTARY_ROW)
    }
}

/// Whether `config` is laid out for `groups` as far as the keys and the
/// navigation go: it has the pages 1 to 99 and no other, every page has the
/// navigation bar, and every page has the channel rows of its group or
/// none.
pub open spec fn is_laid_out(config: ConfigView, groups: Seq<GroupView>) -> bool {
    &&& config.has_all_pages()
    &&& forall|page: usize|
        is_page_number(page) ==> has_navigation_bar(#[trigger] config.pages[page], groups)
    &&& forall|page: usize|
        is_page_number(page) ==> has_channel_rows(#[trigger] config.pages[page], groups, page)
}

/// Builds the configuration for the groups of `input` and the mixer
/// `x32_id`. Fails where the place of a group, counted from one, does not
/// fit in 32 bits.
pub fn build_config(input: &MyConfig, x32_id: &str) -> (r: Result<Config, BuildError>)
    ensures
        r is Ok <==> input.groups.len() <= u32::MAX,
        r matches Ok(config) ==> is_layout_for(config@, input@.groups, x32_id@),
        r matches Ok(config) ==> is_laid_out(config@, input@.groups),
        r matches Err(e) ==> e == BuildError::PageNumberOverflow,
{
    let mut config = Config::default();
    assert forall|k: usize| config.pages@.contains_key(k) <==> is_page_number(k) by {
        assert(config@.pages.contains_key(k) <==> config.pages@.contains_key(k));
    }
    let mut page: usize = 1;
    while page <= PAGE_COUNT
        invariant
            1 <= page <= PAGE_COUNT + 1,
            config@.version == FORMAT_VERSION,
            config@.kind == "full"@,
            config@.instances == Map::<Seq<char>, InstanceView>::empty(),
            forall|k: usize| config.pages@.contains_key(k) <==> is_page_number(k),
            page > 1 ==> input.groups.len() <= u32::MAX,
            forall|k: usize|
                1 <= k < page ==> (#[trigger] config.pages@[k])@.without_ids() == page_layout(
                    input@.groups,
                    k,
                    x32_id@,
                ) && config.pages@[k]@.have_uuids(),
        decreases PAGE_COUNT + 1 - page,
    {
        let built = match build_page(&input.groups, page, x32_id) {
            Ok(built) => built,
            Err(e) => {
                return Err(e);
            },
        };
        config.pages.insert(page, built);
        page = page + 1;
    }
    proof {
        let expected = config_layout(input@.groups, x32_id@).pages;
        assert forall|k: usize| #[trigger]
            config@.pages.contains_key(k) implies config@.pages[k].have_uuids()
            && config@.without_ids().pages[k] == expected[k] by {
            assert(config.pages@.contains_key(k));
            assert(config@.pages[k] == config.pages@[k]@);
            assert(is_page_number(k));
            assert(config.pages@[k]@.have_uuids());
        }
        assert forall|k: usize| config@.without_ids().pages.contains_key(k) <==> is_page_number(
            k,
        ) by {
            assert(config@.pages.contains_key(k) <==> config.pages@.contains_key(k));
        }
        assert(config@.without_ids().pages =~= expected);
    }
    config.insert_instance(x32_id.to_string(), Instance::new("behringer-x32", "x32", 2));
    proof {
        lemma_layout_is_laid_out(config@, input@.groups, x32_id@);
    }
    Ok(config)
}

/// Builds the configuration for the groups of `input`, for a mixer under a
/// new identifier. Fails where the place of a group, counted from one, does
/// not fit in 32 bits.
pub fn generate(input: &MyConfig) -> (r: Result<Config, BuildError>)
    ensures
        r is Ok <==> input.groups.len() <= u32::MAX,
        r matches Ok(config) ==> is_layout_of(config@, input@.groups),
        r matches Ok(config) ==> is_laid_out(config@, input@.groups),
        r matches Err(e) ==> e == BuildError::PageNumberOverflow,
{
    let x32_id = new_id();
    build_config(input, x32_id.as_str())
}

} // verus!
