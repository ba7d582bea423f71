//! Walking the pages of the full schedule: first the older pages, at most
//! [`MAX_OLDER_PAGES`] of them, then all the newer ones.
use vstd::prelude::*;
use crate::data_pull::serde_models::{Pages, Schedule};
use super::DataPull;

verus! {

/// How many older pages are fetched at most after the first page.
pub const MAX_OLDER_PAGES: u64 = 25;

/// Where the walk through the pages of the schedule stands.
#[derive(Debug, Clone, PartialEq)]
pub struct SchedulePaging {
    /// The token of the next older page, if any.
    pub older: Option<String>,
    /// The token of the next newer page, if any.
    pub newer: Option<String>,
    /// One more than the number of older pages fetched so far.
    pub older_pages: u64,
    /// One more than the number of newer pages fetched so far.
    pub newer_pages: u64,
    /// Whether older pages are still being fetched.
    pub reading_older: bool,
}

/// The walk after the first page, whose neighbours are `first`.
pub open spec fn paging_start(first: Pages) -> SchedulePaging {
    SchedulePaging {
        older: first.older,
        newer: first.newer,
        older_pages: 1,
        newer_pages: 1,
        reading_older: true,
    }
}

/// Whether the next page to fetch is an older one: there is an older page,
/// and no more than [`MAX_OLDER_PAGES`] older pages have been fetched.
pub open spec fn reads_older(s: SchedulePaging) -> bool {
    s.reading_older && s.older is Some && s.older_pages <= MAX_OLDER_PAGES
}

/// The walk once the next page has been chosen: when no older page is
/// fetched, the walk turns to the newer pages for good.
pub open spec fn after_choice(s: SchedulePaging) -> SchedulePaging {
    if reads_older(s) {
        s
    } else {
        SchedulePaging { reading_older: false, ..s }
    }
}

/// The token of the next page to fetch; `None` when the walk is over.
pub open spec fn next_token(s: SchedulePaging) -> Option<String> {
    if reads_older(s) {
        s.older
    } else {
        s.newer
    }
}

/// The walk after a page with neighbours `pages` has been fetched.
pub open spec fn after_page(s: SchedulePaging, pages: Pages) -> SchedulePaging {
    if s.reading_older {
        SchedulePaging { older: pages.older, older_pages: (s.older_pages + 1) as u64, ..s }
    } else {
        SchedulePaging { newer: pages.newer, newer_pages: (s.newer_pages + 1) as u64, ..s }
    }
}

/// Whether the page counter that the next page moves can still count it.
pub open spec fn can_count(s: SchedulePaging) -> bool {
    if s.reading_older {
        s.older_pages < u64::MAX
    } else {
        s.newer_pages < u64::MAX
    }
}

fn copy_token(s: &Option<String>) -> (r: Option<String>)
    ensures
        r == *s,
{
    match s {
        Some(v) => Some(v.clone()),
        None => None,
    }
}

impl SchedulePaging {
    /// The walk after the first page, whose neighbours are `first`.
    pub fn start(first: &Pages) -> (r: SchedulePaging)
        ensures
            r == paging_start(*first),
    {
        SchedulePaging {
            older: copy_token(&first.older),
            newer: copy_token(&first.newer),
            older_pages: 1,
            newer_pages: 1,
            reading_older: true,
        }
    }

    /// Chooses the next page to fetch and returns its token, or `None` when
    /// the walk is over.
    pub fn next_request(&mut self) -> (r: Option<String>)
        ensures
            r == next_token(*old(self)),
            *final(self) == after_choice(*old(self)),
    {
        if self.reading_older && self.older.is_some() && self.older_pages <= MAX_OLDER_PAGES {
            copy_token(&self.older)
        } else {
            self.reading_older = false;
            copy_token(&self.newer)
        }
    }

    /// Whether the counter that the next page moves can still count it.
    pub fn can_count_next_page(&self) -> (r: bool)
        ensures
            r == can_count(*self),
    {
        if self.reading_older {
            self.older_pages < u64::MAX
        } else {
            self.newer_pages < u64::MAX
        }
    }

    /// Records the neighbours of the page just fetched.
    pub fn record_page(&mut self, pages: Pages)
        requires
            can_count(*old(self)),
        ensures
            *final(self) == after_page(*old(self), pages),
    {
        if self.reading_older {
            self.older = pages.older;
            self.older_pages = self.older_pages + 1;
        } else {
            self.newer = pages.newer;
            self.newer_pages = self.newer_pages + 1;
        }
    }
}

/// One step of the walk: the next page is chosen, fetched, and recorded.
pub open spec fn walk_step(s: SchedulePaging, pages: Pages) -> SchedulePaging {
    after_page(after_choice(s), pages)
}

/// The walk fetches at most `MAX_OLDER_PAGES` older pages, and once it has
/// turned to the newer pages it never fetches an older one again: its
/// older-page counter starts at 1, never passes `MAX_OLDER_PAGES + 1` at any
/// step, and grows only while older pages are read.
pub proof fn lemma_walk_older_pages_bounded(s: SchedulePaging, pages: Pages, first: Pages)
    requires
        s.older_pages <= MAX_OLDER_PAGES + 1,
    ensures
        paging_start(first).older_pages <= MAX_OLDER_PAGES + 1,
        walk_step(s, pages).older_pages <= MAX_OLDER_PAGES + 1,
        walk_step(s, pages).older_pages > s.older_pages ==> reads_older(s),
        !s.reading_older ==> !walk_step(s, pages).reading_older && next_token(s) == s.newer,
{
}

/// The walk begins with the first page's neighbours, reading older pages,
/// with both counters at 1.
pub proof fn lemma_walk_start(first: Pages)
    ensures
        paging_start(first).older == first.older && paging_start(first).newer == first.newer,
        paging_start(first).older_pages == 1 && paging_start(first).newer_pages == 1,
        paging_start(first).reading_older,
{
}

/// Choosing the next page: while older pages are read, an older page is
/// known and at most 25 older pages have been fetched, that older page is
/// fetched and the walk is unchanged; otherwise the walk turns to the newer
/// pages for good, keeping everything else, and fetches the newer page if
/// one is known.
pub proof fn lemma_page_choice(s: SchedulePaging)
    ensures
        (s.reading_older && s.older is Some && s.older_pages <= 25) ==> next_token(s) == s.older
            && after_choice(s) == s,
        !(s.reading_older && s.older is Some && s.older_pages <= 25) ==> next_token(s) == s.newer
            && after_choice(s) == (SchedulePaging { reading_older: false, ..s }),
{
}

/// Recording a fetched page: while older pages are read, the older token
/// becomes the page's older neighbour and the older counter grows by one;
/// otherwise the newer token becomes the page's newer neighbour and the newer
/// counter grows by one. Nothing else changes.
pub proof fn lemma_page_record(s: SchedulePaging, pages: Pages)
    requires
        can_count(s),
    ensures
        s.reading_older ==> after_page(s, pages) == (SchedulePaging {
            older: pages.older,
            older_pages: (s.older_pages + 1) as u64,
            ..s
        }) && after_page(s, pages).older_pages == s.older_pages + 1,
        !s.reading_older ==> after_page(s, pages) == (SchedulePaging {
            newer: pages.newer,
            newer_pages: (s.newer_pages + 1) as u64,
            ..s
        }) && after_page(s, pages).newer_pages == s.newer_pages + 1,
{
}

impl DataPull {
    /// Adds the events of the first page of the full schedule and starts the
    /// walk through its neighbours.
    pub fn begin_full_schedule(&mut self, first: Schedule) -> (paging: SchedulePaging)
        ensures
            paging == paging_start(first.pages),
            final(self).schedule@ == old(self).schedule@ + first.events@,
            final(self).leagues == old(self).leagues,
            final(self).tournaments == old(self).tournaments,
            final(self).teams == old(self).teams,
            final(self).players == old(self).players,
            final(self).schedule_single_page == old(self).schedule_single_page,
            final(self).live == old(self).live,
            final(self).previous_live == old(self).previous_live,
            final(self).events_with_recent_changes == old(self).events_with_recent_changes,
    {
        let paging = SchedulePaging::start(&first.pages);
        let mut events = first.events;
        self.schedule.append(&mut events);
        paging
    }

    /// Adds the events of a page fetched during the walk, and records its
    /// neighbours.
    pub fn add_schedule_page(&mut self, paging: &mut SchedulePaging, page: Schedule)
        requires
            can_count(*old(paging)),
        ensures
            *final(paging) == after_page(*old(paging), page.pages),
            final(self).schedule@ == old(self).schedule@ + page.events@,
            final(self).leagues == old(self).leagues,
            final(self).tournaments == old(self).tournaments,
            final(self).teams == old(self).teams,
            final(self).players == old(self).players,
            final(self).schedule_single_page == old(self).schedule_single_page,
            final(self).live == old(self).live,
            final(self).previous_live == old(self).previous_live,
            final(self).events_with_recent_changes == old(self).events_with_recent_changes,
    {
        let mut events = page.events;
        self.schedule.append(&mut events);
        paging.record_page(page.pages);
    }
}

} // verus!
