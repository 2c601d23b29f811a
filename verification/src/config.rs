//! The whole configuration: the pages and the devices.

use crate::instance::{Instance, InstanceView};
use crate::page::{Page, PageView};
use std::collections::HashMap;
use vstd::prelude::*;

verus! {

/// The number of pages of a configuration; they are numbered from one.
pub const PAGE_COUNT: usize = 99;

/// The version of the format that is written.
pub const FORMAT_VERSION: u32 = 4;

/// Whether `page` is the number of a page.
pub open spec fn is_page_number(page: usize) -> bool {
    1 <= page <= PAGE_COUNT
}

/// A configuration of the control surface. The pages are keyed by their
/// number. The devices are listed with their identifiers; where an
/// identifier stands twice, the later entry counts.
#[derive(Debug, Clone, PartialEq, Eq)]
pub struct Config {
    pub version: u32,
    pub kind: String,
    pub pages: HashMap<usize, Page>,
    pub instances: Vec<(String, Instance)>,
}

/// A `Config` as a value of mathematics.
pub struct ConfigView {
    pub version: u32,
    pub kind: Seq<char>,
    pub pages: Map<usize, PageView>,
    pub instances: Map<Seq<char>, InstanceView>,
}

/// The views of the pages of a configuration, under the same numbers.
pub open spec fn pages_view(pages: Map<usize, Page>) -> Map<usize, PageView> {
    pages.map_values(|p: Page| p@)
}

/// The pages of a configuration with every identifier emptied.
pub open spec fn pages_without_ids(pages: Map<usize, PageView>) -> Map<usize, PageView> {
    pages.map_values(|p: PageView| p.without_ids())
}

/// Whether every identifier on the pages is the text of a UUID.
pub open spec fn pages_have_uuids(pages: Map<usize, PageView>) -> bool {
    forall|page: usize| pages.contains_key(page) ==> (#[trigger] pages[page]).have_uuids()
}

/// The devices that a list of entries stands for, each under its
/// identifier.
pub open spec fn instance_table(entries: Seq<(String, Instance)>) -> Map<Seq<char>, InstanceView>
    decreases entries.len(),
{
    if entries.len() == 0 {
        Map::empty()
    } else {
        instance_table(entries.drop_last()).insert(entries.last().0@, entries.last().1@)
    }
}

impl View for Config {
    type V = ConfigView;

    open spec fn view(&self) -> ConfigView {
        ConfigView {
            version: self.version,
            kind: self.kind@,
            pages: pages_view(self.pages@),
            instances: instance_table(self.instances@),
        }
    }
}

impl ConfigView {
    /// The full configuration in which every page is empty and no device is
    /// known.
    pub open spec fn empty() -> ConfigView {
        ConfigView {
            version: FORMAT_VERSION,
            kind: "full"@,
            pages: Map::new(|page: usize| is_page_number(page), |page: usize| PageView::empty()),
            instances: Map::empty(),
        }
    }

    /// Whether the configuration has a page under each number from 1 to 99
    /// and under no other key.
    pub open spec fn has_all_pages(self) -> bool {
        forall|page: usize|
            #![trigger self.pages.contains_key(page)]
            #![trigger is_page_number(page)]
            self.pages.contains_key(page) <==> is_page_number(page)
    }

    /// The configuration with every identifier of an action or a feedback
    /// emptied.
    pub open spec fn without_ids(self) -> ConfigView {
        ConfigView { pages: pages_without_ids(self.pages), ..self }
    }

    /// Whether every identifier of an action or a feedback is the text of a
    /// UUID.
    pub open spec fn have_uuids(self) -> bool {
        pages_have_uuids(self.pages)
    }
}

impl Default for Config {
    fn default() -> (r: Self)
        ensures
            r@ == ConfigView::empty(),
            r@.has_all_pages(),
    {
        let mut pages: HashMap<usize, Page> = HashMap::new();
        let mut page: usize = 1;
        while page <= PAGE_COUNT
            invariant
                1 <= page <= PAGE_COUNT + 1,
                forall|k: usize| pages@.contains_key(k) <==> 1 <= k < page,
                forall|k: usize|
                    pages@.contains_key(k) ==> (#[trigger] pages@[k])@ == PageView::empty(),
            decreases PAGE_COUNT + 1 - page,
        {
            pages.insert(page, Page::default());
            page = page + 1;
        }
        let r = Self {
            version: FORMAT_VERSION,
            kind: "full".to_string(),
            pages,
            instances: Vec::new(),
        };
        assert(r@.pages =~= ConfigView::empty().pages);
        r
    }
}

impl Config {
    /// Lists `instance` under the identifier `id`. A device that was listed
    /// under `id` before counts no more.
    pub fn insert_instance(&mut self, id: String, instance: Instance)
        ensures
            final(self)@ == (ConfigView {
                instances: old(self)@.instances.insert(id@, instance@),
                ..old(self)@
            }),
            old(self)@.has_all_pages() ==> final(self)@.has_all_pages(),
    {
        self.instances.push((id, instance));
        assert(self.instances@.drop_last() =~= old(self).instances@);
    }
}

} // verus!
