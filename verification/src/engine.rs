//! The session table: which pages are open, which one is focused, which
//! pop-ups wait to be adopted.
//!
//! The table holds no handle of the renderer. A page is known here by its
//! id, by whether a document is attached to its surface, by its viewport and
//! by the record of what the renderer reported of it. The driver keeps the
//! renderer's handles under the same ids and does to them what the table
//! decided.

use vstd::prelude::*;
use std::collections::HashMap;
use crate::delegate::{
    ConsoleLevel, DelegateEvent, DelegateView, LoadStatus, PageDelegate,
};
use crate::run_loop::{millis_to_nanos, secs_to_nanos, Deadline, NetworkIdleWait};
use crate::text::is_blocked;
use crate::types::{
    console_views, request_views, string_views, ConsoleMessage, ConsoleMessageView,
    NetworkRequest, NetworkRequestView, PageError, PageOptions,
};

verus! {

broadcast use vstd::std_specs::hash::group_hash_axioms;

/// What the table knows of one page.
pub struct PageView {
    /// Whether a document is attached to the page's surface.
    pub attached: bool,
    pub delegate: DelegateView,
    pub width: u32,
    pub height: u32,
}

/// What the table holds.
pub struct EngineView {
    /// The open pages, by id.
    pub pages: Map<u32, PageView>,
    /// The focused page, if any. It may name a page that is no longer open.
    pub active_page_id: Option<u32>,
    /// The id that the next page gets. Every id ever given is below it.
    pub next_page_id: u32,
    /// The pop-ups that were accepted and not adopted yet, oldest first.
    pub pending: Seq<PageView>,
    /// Whether requests for pop-ups are accepted.
    pub popup_enabled: bool,
    pub options: PageOptions,
}

impl PageView {
    /// A page on which nothing happened yet.
    pub open spec fn fresh(width: u32, height: u32) -> PageView {
        PageView { attached: false, delegate: DelegateView::fresh(width, height), width, height }
    }

    /// A pop-up as it is buffered: attached, with the viewport of its parent.
    pub open spec fn popup(width: u32, height: u32) -> PageView {
        PageView { attached: true, delegate: DelegateView::fresh(width, height), width, height }
    }

    /// This page after an event on its record.
    pub open spec fn after(self, event: DelegateEvent) -> PageView {
        PageView { delegate: self.delegate.after(event), ..self }
    }
}

/// Names a session to the table: an open page by its id, or a pop-up that
/// waits for adoption by its place in the buffer.
#[derive(Debug, Clone, Copy, PartialEq, Eq, Structural)]
pub enum SessionKey {
    Page(u32),
    Pending(usize),
}

impl EngineView {
    /// The table as it is made.
    pub open spec fn initial(options: PageOptions) -> EngineView {
        EngineView {
            pages: Map::empty(),
            active_page_id: None,
            next_page_id: 0,
            pending: Seq::empty(),
            popup_enabled: false,
            options,
        }
    }

    /// The focused page, if it is open.
    pub open spec fn active_page(self) -> Option<u32> {
        match self.active_page_id {
            Some(id) if self.pages.dom().contains(id) => Some(id),
            _ => None,
        }
    }

    /// The focused page, if it is open and a document is attached to it.
    /// Every operation on the content of a page needs one.
    pub open spec fn webview(self) -> Option<u32> {
        match self.active_page() {
            Some(id) if self.pages[id].attached => Some(id),
            _ => None,
        }
    }

    /// Whether `key` names a session of the table.
    pub open spec fn has_session(self, key: SessionKey) -> bool {
        match key {
            SessionKey::Page(id) => self.pages.dom().contains(id),
            SessionKey::Pending(index) => index < self.pending.len(),
        }
    }

    /// The session that `key` names.
    pub open spec fn session(self, key: SessionKey) -> PageView
        recommends
            self.has_session(key),
    {
        match key {
            SessionKey::Page(id) => self.pages[id],
            SessionKey::Pending(index) => self.pending[index as int],
        }
    }

    /// The table with the session that `key` names replaced by `page`.
    pub open spec fn with_session(self, key: SessionKey, page: PageView) -> EngineView {
        match key {
            SessionKey::Page(id) => EngineView { pages: self.pages.insert(id, page), ..self },
            SessionKey::Pending(index) => EngineView {
                pending: self.pending.update(index as int, page),
                ..self
            },
        }
    }

    /// The table after an event on the record of the session that `key`
    /// names. An event for a session that is gone changes nothing.
    pub open spec fn after(self, key: SessionKey, event: DelegateEvent) -> EngineView {
        if self.has_session(key) {
            self.with_session(key, self.session(key).after(event))
        } else {
            self
        }
    }

    /// The pages after the first `count` pop-ups of `pending` were adopted
    /// under the ids `first_id`, `first_id + 1`, and so on: each of those
    /// ids names its pop-up, and every other id names what it named.
    pub open spec fn adopted(
        pages: Map<u32, PageView>,
        pending: Seq<PageView>,
        first_id: u32,
        count: int,
    ) -> Map<u32, PageView> {
        Map::new(
            |id: u32| pages.dom().contains(id) || first_id <= id < first_id + count,
            |id: u32|
                if first_id <= id < first_id + count {
                    pending[id - first_id]
                } else {
                    pages[id]
                },
        )
    }
}

/// The table as `open` finds or makes it: where no page is open, the first
/// page is entered with the default viewport and focused.
pub open spec fn with_first_page(table: EngineView) -> EngineView {
    if table.pages.dom().len() == 0 {
        EngineView {
            pages: table.pages.insert(
                table.next_page_id,
                PageView::fresh(table.options.width, table.options.height),
            ),
            next_page_id: (table.next_page_id + 1) as u32,
            active_page_id: Some(table.next_page_id),
            ..table
        }
    } else {
        table
    }
}

/// The page that `open` works on, if there is one: the focused page, after
/// the first page was made where none was open. A table with pages and
/// without an open focused page has none.
pub open spec fn open_target(table: EngineView) -> Option<u32> {
    with_first_page(table).active_page()
}

/// The table after `open` has begun on it: the first page is made where
/// none was open, and the page that `open` works on begins a navigation
/// and counts as attached. A table without such a page stays as it is.
pub open spec fn open_begun(table: EngineView) -> EngineView {
    match open_target(table) {
        Some(id) => EngineView {
            pages: with_first_page(table).pages.insert(
                id,
                PageView {
                    attached: true,
                    ..with_first_page(table).pages[id].after(DelegateEvent::NavigationBegun)
                },
            ),
            ..with_first_page(table)
        },
        None => table,
    }
}

/// One page of the table.
struct PageState {
    attached: bool,
    delegate: PageDelegate,
    width: u32,
    height: u32,
}

impl View for PageState {
    type V = PageView;

    closed spec fn view(&self) -> PageView {
        PageView {
            attached: self.attached,
            delegate: self.delegate@,
            width: self.width,
            height: self.height,
        }
    }
}

/// The pages of `pages`, by id.
spec fn page_map(pages: Map<u32, PageState>) -> Map<u32, PageView> {
    Map::new(|id: u32| pages.contains_key(id), |id: u32| pages[id]@)
}

/// The views of buffered pop-ups, in order.
spec fn pending_views(pending: Seq<PageState>) -> Seq<PageView> {
    pending.map_values(|p: PageState| p@)
}

/// Whether every id of `pages` is below `bound`.
spec fn below(pages: Map<u32, PageState>, bound: u32) -> bool {
    forall|id: u32| pages.contains_key(id) ==> id < bound
}

proof fn lemma_inserted(pages: Map<u32, PageState>, id: u32, state: PageState)
    ensures
        page_map(pages.insert(id, state)) == page_map(pages).insert(id, state@),
        page_map(pages.remove(id).insert(id, state)) == page_map(pages).insert(id, state@),
{
    assert(page_map(pages.insert(id, state)) =~= page_map(pages).insert(id, state@));
    assert(page_map(pages.remove(id).insert(id, state)) =~= page_map(pages).insert(id, state@));
}

proof fn lemma_removed(pages: Map<u32, PageState>, id: u32)
    ensures
        page_map(pages.remove(id)) == page_map(pages).remove(id),
{
    assert(page_map(pages.remove(id)) =~= page_map(pages).remove(id));
}

/// `<[u32]>::sort`: sorts the slice in ascending order. What comes out is
/// what went in, in another order.
#[verifier::external_body]
fn sort_ids(ids: &mut Vec<u32>)
    ensures
        final(ids)@.to_multiset() == old(ids)@.to_multiset(),
        forall|i: int, j: int|
            0 <= i <= j < final(ids)@.len() ==> final(ids)@[i] <= final(ids)@[j],
{
    ids.sort();
}

/// The session table.
pub struct PageEngine {
    pages: HashMap<u32, PageState>,
    active_page_id: Option<u32>,
    next_page_id: u32,
    popup_buffer: Vec<PageState>,
    popup_enabled: bool,
    options: PageOptions,
}

impl View for PageEngine {
    type V = EngineView;

    closed spec fn view(&self) -> EngineView {
        EngineView {
            pages: page_map(self.pages@),
            active_page_id: self.active_page_id,
            next_page_id: self.next_page_id,
            pending: pending_views(self.popup_buffer@),
            popup_enabled: self.popup_enabled,
            options: self.options,
        }
    }
}

impl PageEngine {
    /// Whether the table is in order: every id in use is below the id that
    /// the next page gets. Every table that this
    /// crate hands out is, and every method keeps it so.
    pub closed spec fn wf(&self) -> bool {
        below(self.pages@, self.next_page_id)
    }

    /// A table without pages. Pop-ups are blocked until they are asked for.
    pub fn new(options: PageOptions) -> (engine: PageEngine)
        ensures
            engine.wf(),
            engine@ == EngineView::initial(options),
    {
        let engine = PageEngine {
            pages: HashMap::new(),
            active_page_id: None,
            next_page_id: 0,
            popup_buffer: Vec::new(),
            popup_enabled: false,
            options,
        };
        assert(engine@.pages =~= Map::empty());
        assert(engine@.pending =~= Seq::empty());
        engine
    }

    /// The options that the table was made with.
    pub fn options(&self) -> (options: &PageOptions)
        requires
            self.wf(),
        ensures
            *options == self@.options,
    {
        &self.options
    }

    /// In a table that is in order, every id in use is below the id that
    /// the next page gets, so a new page never gets the id of a page that
    /// is open; and the pages are finite in number.
    pub proof fn lemma_ids_below_next(&self)
        requires
            self.wf(),
        ensures
            self@.ids_in_range(),
            !self@.pages.dom().contains(self@.next_page_id),
            self@.pages.dom().finite(),
    {
        assert(self@.pages.dom() =~= self.pages@.dom());
    }

    /// The id that the next page gets. Every id in use is below it: an id
    /// is given once and never again.
    pub fn next_page_id(&self) -> (next: u32)
        requires
            self.wf(),
        ensures
            next == self@.next_page_id,
            forall|id: u32| self@.pages.dom().contains(id) ==> id < next,
            self@.pages.dom().finite(),
    {
        proof {
            assert(self@.pages.dom() =~= self.pages@.dom());
        }
        self.next_page_id
    }

    /// The page `page_id`, if it is open.
    fn find(&self, page_id: u32) -> (found: Option<&PageState>)
        requires
            self.wf(),
        ensures
            match found {
                Some(state) => self.pages@.contains_key(page_id) && *state == self.pages@[page_id]
                    && self@.pages.dom().contains(page_id) && self@.pages[page_id] == state@,
                None => !self@.pages.dom().contains(page_id),
            },
    {
        self.pages.get(&page_id)
    }

    /// Takes the page `page_id`, which is open, out of the table.
    fn take_page(&mut self, page_id: u32) -> (state: PageState)
        requires
            old(self).pages@.contains_key(page_id),
        ensures
            state == old(self).pages@[page_id],
            final(self).pages@ == old(self).pages@.remove(page_id),
            final(self).active_page_id == old(self).active_page_id,
            final(self).next_page_id == old(self).next_page_id,
            final(self).popup_buffer == old(self).popup_buffer,
            final(self).popup_enabled == old(self).popup_enabled,
            final(self).options == old(self).options,
    {
        self.pages.remove(&page_id).unwrap()
    }

    /// Puts a page into the table under `page_id`.
    fn put_page(&mut self, page_id: u32, state: PageState)
        ensures
            final(self).pages@ == old(self).pages@.insert(page_id, state),
            final(self).active_page_id == old(self).active_page_id,
            final(self).next_page_id == old(self).next_page_id,
            final(self).popup_buffer == old(self).popup_buffer,
            final(self).popup_enabled == old(self).popup_enabled,
            final(self).options == old(self).options,
    {
        let _ = self.pages.insert(page_id, state);
    }

    /// The id of the focused page, or `None` if no page is focused.
    pub fn active_page_id(&self) -> (id: Option<u32>)
        requires
            self.wf(),
        ensures
            id == self@.active_page_id,
    {
        self.active_page_id
    }

    /// Whether the page `page_id` is open.
    pub fn contains_page(&self, page_id: u32) -> (open: bool)
        requires
            self.wf(),
        ensures
            open == self@.pages.dom().contains(page_id),
    {
        self.pages.contains_key(&page_id)
    }

    /// Whether the page `page_id` is open and a document is attached to it.
    pub fn is_attached(&self, page_id: u32) -> (attached: bool)
        requires
            self.wf(),
        ensures
            attached == (self@.pages.dom().contains(page_id) && self@.pages[page_id].attached),
    {
        match self.find(page_id) {
            Some(state) => state.attached,
            None => false,
        }
    }

    /// The focused page, which must be open.
    pub fn active_page(&self) -> (page: Result<u32, PageError>)
        requires
            self.wf(),
        ensures
            match self@.active_page() {
                Some(id) => page == Ok::<u32, PageError>(id),
                None => page == Err::<u32, PageError>(PageError::NoPage),
            },
    {
        match self.active_page_id {
            Some(id) => {
                if self.contains_page(id) {
                    Ok(id)
                } else {
                    Err(PageError::NoPage)
                }
            },
            None => Err(PageError::NoPage),
        }
    }

    /// The focused page, which must be open and have a document attached.
    /// Where it is not, the operation that asked has no session to work on.
    pub fn webview(&self) -> (page: Result<u32, PageError>)
        requires
            self.wf(),
        ensures
            match self@.webview() {
                Some(id) => page == Ok::<u32, PageError>(id),
                None => page == Err::<u32, PageError>(PageError::NoPage),
            },
    {
        match self.active_page_id {
            Some(id) => {
                if self.is_attached(id) {
                    Ok(id)
                } else {
                    Err(PageError::NoPage)
                }
            },
            None => Err(PageError::NoPage),
        }
    }

    /// The record of the page `page_id`.
    pub fn delegate(&self, page_id: u32) -> (delegate: Option<&PageDelegate>)
        requires
            self.wf(),
        ensures
            match delegate {
                Some(d) => self@.pages.dom().contains(page_id) && d@ == self@.pages[page_id].delegate,
                None => !self@.pages.dom().contains(page_id),
            },
    {
        match self.find(page_id) {
            Some(state) => Some(&state.delegate),
            None => None,
        }
    }

    /// The record of the focused page.
    pub fn active_delegate(&self) -> (delegate: Result<&PageDelegate, PageError>)
        requires
            self.wf(),
        ensures
            match self@.active_page() {
                Some(id) => delegate is Ok && delegate->Ok_0@ == self@.pages[id].delegate,
                None => delegate is Err && delegate->Err_0 == PageError::NoPage,
            },
    {
        match self.active_page_id {
            Some(id) => match self.delegate(id) {
                Some(d) => Ok(d),
                None => Err(PageError::NoPage),
            },
            None => Err(PageError::NoPage),
        }
    }

    /// The viewport of the page `page_id`: width, then height.
    pub fn page_size(&self, page_id: u32) -> (size: Option<(u32, u32)>)
        requires
            self.wf(),
        ensures
            match size {
                Some((width, height)) => self@.pages.dom().contains(page_id)
                    && width == self@.pages[page_id].width && height == self@.pages[page_id].height,
                None => !self@.pages.dom().contains(page_id),
            },
    {
        match self.find(page_id) {
            Some(state) => Some((state.width, state.height)),
            None => None,
        }
    }

    /// The number of open pages.
    pub fn page_count(&self) -> (count: usize)
        requires
            self.wf(),
        ensures
            count == self@.pages.dom().len(),
            self@.pages.dom().finite(),
    {
        proof {
            assert(self@.pages.dom() =~= self.pages@.dom());
        }
        self.pages.len()
    }

    /// The ids of the open pages, smallest first.
    pub fn page_ids(&self) -> (ids: Vec<u32>)
        requires
            self.wf(),
        ensures
            forall|i: int, j: int| 0 <= i < j < ids@.len() ==> ids@[i] < ids@[j],
            ids@.to_set() == self@.pages.dom(),
    {
        proof {
            assert(self@.pages.dom() =~= self.pages@.dom());
        }
        let mut ids: Vec<u32> = Vec::new();
        for id in iter: self.pages.keys()
            invariant
                ids@ == iter.seq().unref().take(iter.index() as int),
                iter.seq().unref().to_set() == self.pages@.dom(),
                iter.seq().no_duplicates(),
                ids@.no_duplicates(),
                iter.index() == iter.seq().len() ==> ids@.to_set() == self.pages@.dom(),
        {
            ids.push(*id);
            assert(ids@ =~= iter.seq().unref().take(iter.index() + 1));
            assert forall|i: int, j: int|
                0 <= i < ids@.len() && 0 <= j < ids@.len() && i != j implies ids@[i] != ids@[j] by {
                assert(iter.seq()[i] != iter.seq()[j]);
            }
            assert(iter.index() + 1 == iter.seq().len() ==> iter.seq().unref().take(
                iter.index() + 1,
            ) =~= iter.seq().unref());
        }
        let ghost listed = ids@;
        sort_ids(&mut ids);
        proof {
            listed.to_multiset_ensures();
            ids@.to_multiset_ensures();
            listed.lemma_multiset_has_no_duplicates();
            ids@.lemma_multiset_has_no_duplicates_conv();
            assert(ids@.to_set() =~= listed.to_set()) by {
                assert forall|x: u32| ids@.to_set().contains(x) <==> listed.to_set().contains(
                    x,
                ) by {
                    assert(ids@.contains(x) <==> ids@.to_multiset().count(x) > 0);
                    assert(listed.contains(x) <==> listed.to_multiset().count(x) > 0);
                }
            }
        }
        ids
    }

    /// Whether a page can still be given an id.
    pub fn can_allocate(&self, count: usize) -> (fits: bool)
        requires
            self.wf(),
        ensures
            fits == (self@.next_page_id + count <= u32::MAX),
    {
        count <= (u32::MAX - self.next_page_id) as usize
    }

    /// Enters a new page with the given viewport, without a document, under
    /// the next id. The focus stays where it is.
    pub fn create_page_internal(&mut self, width: u32, height: u32) -> (id: u32)
        requires
            old(self).wf(),
            old(self)@.next_page_id < u32::MAX,
        ensures
            final(self).wf(),
            id == old(self)@.next_page_id,
            !old(self)@.pages.dom().contains(id),
            final(self)@ == old(self)@.with_page(width, height),
    {
        let id = self.next_page_id;
        let state = PageState {
            attached: false,
            delegate: PageDelegate::new(width, height),
            width,
            height,
        };
        proof {
            lemma_inserted(self.pages@, id, state);
            assert(self@.pages.dom() =~= self.pages@.dom());
        }
        self.next_page_id = id + 1;
        let _ = self.pages.insert(id, state);
        id
    }

    /// A new page with the default viewport. Returns its id.
    pub fn new_page(&mut self) -> (id: u32)
        requires
            old(self).wf(),
            old(self)@.next_page_id < u32::MAX,
        ensures
            final(self).wf(),
            id == old(self)@.next_page_id,
            !old(self)@.pages.dom().contains(id),
            final(self)@ == old(self)@.with_page(
                old(self)@.options.width,
                old(self)@.options.height,
            ),
    {
        let width = self.options.width;
        let height = self.options.height;
        self.create_page_internal(width, height)
    }

    /// A new page with a viewport of its own. Returns its id.
    pub fn new_page_with_size(&mut self, width: u32, height: u32) -> (id: u32)
        requires
            old(self).wf(),
            old(self)@.next_page_id < u32::MAX,
        ensures
            final(self).wf(),
            id == old(self)@.next_page_id,
            !old(self)@.pages.dom().contains(id),
            final(self)@ == old(self)@.with_page(width, height),
    {
        self.create_page_internal(width, height)
    }

    /// Moves the focus to the page `page_id`, if it is open.
    pub fn switch_to(&mut self, page_id: u32) -> (result: Result<(), PageError>)
        requires
            old(self).wf(),
        ensures
            final(self).wf(),
            old(self)@.pages.dom().contains(page_id) ==> result is Ok && final(self)@
                == (EngineView { active_page_id: Some(page_id), ..old(self)@ }),
            !old(self)@.pages.dom().contains(page_id) ==> result == Err::<(), PageError>(
                PageError::NoPage,
            ) && final(self)@ == old(self)@,
    {
        if !self.contains_page(page_id) {
            return Err(PageError::NoPage);
        }
        self.active_page_id = Some(page_id);
        Ok(())
    }

    /// Closes the page `page_id`. If it had the focus, no page has it
    /// afterwards: the focus does not move to another page by itself.
    pub fn close_page(&mut self, page_id: u32) -> (result: Result<(), PageError>)
        requires
            old(self).wf(),
        ensures
            final(self).wf(),
            old(self)@.pages.dom().contains(page_id) ==> result is Ok && final(self)@ == old(
                self,
            )@.page_closed(page_id),
            !old(self)@.pages.dom().contains(page_id) ==> result == Err::<(), PageError>(
                PageError::NoPage,
            ) && final(self)@ == old(self)@,
    {
        match self.find(page_id) {
            Some(_) => {
                proof {
                    lemma_removed(self.pages@, page_id);
                }
                let _ = self.pages.remove(&page_id);
                match self.active_page_id {
                    Some(active) => {
                        if active == page_id {
                            self.active_page_id = None;
                        }
                    },
                    None => {},
                }
                Ok(())
            },
            None => Err(PageError::NoPage),
        }
    }

    /// Closes the focused page, if it is open, and leaves no page focused.
    pub fn close(&mut self)
        requires
            old(self).wf(),
        ensures
            final(self).wf(),
            final(self)@ == old(self)@.closed(),
    {
        match self.active_page_id {
            Some(id) => {
                self.active_page_id = None;
                match self.find(id) {
                    Some(_) => {
                        proof {
                            lemma_removed(self.pages@, id);
                        }
                        let _ = self.pages.remove(&id);
                    },
                    None => {
                        assert(old(self)@.pages.remove(id) =~= old(self)@.pages);
                    },
                }
            },
            None => {},
        }
    }

    /// Returns the table to the state in which it was made: no page, no
    /// focus, no pop-up waiting, pop-ups blocked, ids counted from the
    /// start again. Only the options stay.
    pub fn reset(&mut self)
        requires
            old(self).wf(),
        ensures
            final(self).wf(),
            final(self)@ == EngineView::initial(old(self)@.options),
    {
        self.pages = HashMap::new();
        self.active_page_id = None;
        self.next_page_id = 0;
        self.popup_buffer = Vec::new();
        self.popup_enabled = false;
        assert(final(self)@.pages =~= Map::empty());
        assert(final(self)@.pending =~= Seq::empty());
    }

    /// Accepts or blocks requests for pop-ups from now on.
    pub fn set_popup_handling(&mut self, enabled: bool)
        requires
            old(self).wf(),
        ensures
            final(self).wf(),
            final(self)@ == (EngineView { popup_enabled: enabled, ..old(self)@ }),
    {
        self.popup_enabled = enabled;
    }

    /// Notes that a document was attached to the surface of the page
    /// `page_id`. Nothing changes if the page is not open.
    pub fn mark_attached(&mut self, page_id: u32)
        requires
            old(self).wf(),
        ensures
            final(self).wf(),
            final(self)@ == if old(self)@.pages.dom().contains(page_id) {
                EngineView {
                    pages: old(self)@.pages.insert(
                        page_id,
                        PageView { attached: true, ..old(self)@.pages[page_id] },
                    ),
                    ..old(self)@
                }
            } else {
                old(self)@
            },
    {
        match self.find(page_id) {
            Some(_) => {
                let mut state = self.take_page(page_id);
                state.attached = true;
                proof {
                    lemma_inserted(old(self).pages@, page_id, state);
                }
                self.put_page(page_id, state);
            },
            None => {},
        }
    }

    /// Whether requests for pop-ups are accepted.
    pub fn popup_handling(&self) -> (enabled: bool)
        requires
            self.wf(),
        ensures
            enabled == self@.popup_enabled,
    {
        self.popup_enabled
    }

    /// The number of pop-ups that wait to be adopted.
    pub fn pending_popups(&self) -> (count: usize)
        requires
            self.wf(),
        ensures
            count == self@.pending.len(),
    {
        self.popup_buffer.len()
    }

    /// The record of the session that `key` names.
    pub fn session_delegate(&self, key: SessionKey) -> (delegate: Option<&PageDelegate>)
        requires
            self.wf(),
        ensures
            match delegate {
                Some(d) => self@.has_session(key) && d@ == self@.session(key).delegate,
                None => !self@.has_session(key),
            },
    {
        match key {
            SessionKey::Page(id) => self.delegate(id),
            SessionKey::Pending(index) => {
                if index < self.popup_buffer.len() {
                    Some(&self.popup_buffer[index].delegate)
                } else {
                    None
                }
            },
        }
    }

    /// Decides on a request of the session `parent` to open a new session.
    /// `None`: the request is dropped, because pop-ups are blocked or the
    /// parent is gone. Otherwise the viewport for the pop-up, width first:
    /// the one that the parent's record holds for its pop-ups.
    pub fn request_create_new(&self, parent: SessionKey) -> (viewport: Option<(u32, u32)>)
        requires
            self.wf(),
        ensures
            viewport == if self@.popup_enabled && self@.has_session(parent) {
                Some(
                    (
                        self@.session(parent).delegate.default_width,
                        self@.session(parent).delegate.default_height,
                    ),
                )
            } else {
                None
            },
    {
        if !self.popup_enabled {
            return None;
        }
        match self.session_delegate(parent) {
            Some(delegate) => Some((delegate.default_width(), delegate.default_height())),
            None => None,
        }
    }

    /// Buffers a pop-up whose surface and document the driver has built,
    /// with the viewport that `request_create_new` gave. It gets an id only
    /// when the caller asks for the pop-ups. Returns its key until then.
    pub fn buffer_popup(&mut self, width: u32, height: u32) -> (key: SessionKey)
        requires
            old(self).wf(),
        ensures
            final(self).wf(),
            key == SessionKey::Pending(old(self)@.pending.len() as usize),
            final(self)@ == (EngineView {
                pending: old(self)@.pending.push(PageView::popup(width, height)),
                ..old(self)@
            }),
    {
        let index = self.popup_buffer.len();
        let state = PageState {
            attached: true,
            delegate: PageDelegate::new(width, height),
            width,
            height,
        };
        self.popup_buffer.push(state);
        assert(final(self)@.pending =~= old(self)@.pending.push(PageView::popup(width, height)));
        SessionKey::Pending(index)
    }

    /// Adopts every pop-up that waits: each gets the next id, in the order
    /// in which they were buffered, and becomes an open page. Returns the
    /// new ids in that order. The focus stays where it is.
    pub fn popup_pages(&mut self) -> (ids: Vec<u32>)
        requires
            old(self).wf(),
            old(self)@.next_page_id + old(self)@.pending.len() <= u32::MAX,
        ensures
            final(self).wf(),
            ids@.len() == old(self)@.pending.len(),
            forall|k: int| 0 <= k < ids@.len() ==> ids@[k] == old(self)@.next_page_id + k,
            final(self)@ == old(self)@.popups_adopted(),
    {
        let mut popups: Vec<PageState> = Vec::new();
        std::mem::swap(&mut popups, &mut self.popup_buffer);
        assert(self@.pending =~= Seq::empty());
        let ghost first = self.next_page_id;
        let ghost start = self@;
        let ghost waiting = pending_views(popups@);
        let count = popups.len();
        assert(start.pages =~= EngineView::adopted(start.pages, waiting, first, 0));
        let mut ids: Vec<u32> = Vec::new();
        let mut i: usize = 0;
        while i < count
            invariant
                i <= count,
                count == popups@.len(),
                count == waiting.len(),
                first + count <= u32::MAX,
                self.wf(),
                self.next_page_id == first + i,
                ids@.len() == i,
                forall|k: int| 0 <= k < i ==> ids@[k] == first + k,
                forall|k: int| i <= k < count ==> (#[trigger] popups@[k])@ == waiting[k],
                self@ == (EngineView {
                    pages: EngineView::adopted(start.pages, waiting, first, i as int),
                    next_page_id: (first + i) as u32,
                    ..start
                }),
            decreases count - i,
        {
            let mut state = PageState {
                attached: false,
                delegate: PageDelegate::new(0, 0),
                width: 0,
                height: 0,
            };
            std::mem::swap(&mut state, &mut popups[i]);
            let id = self.next_page_id;
            proof {
                lemma_inserted(self.pages@, id, state);
            }
            self.next_page_id = id + 1;
            let _ = self.pages.insert(id, state);
            ids.push(id);
            assert(self@.pages =~= EngineView::adopted(start.pages, waiting, first, i + 1));
            i += 1;
        }
        ids
    }

    /// The load status of the session `key` changed.
    pub fn notify_load_status_changed(&mut self, key: SessionKey, status: LoadStatus)
        requires
            old(self).wf(),
        ensures
            final(self).wf(),
            final(self)@ == old(self)@.after(key, DelegateEvent::LoadStatusChanged(status)),
    {
        match key {
            SessionKey::Page(id) => match self.find(id) {
                Some(_) => {
                    let mut state = self.take_page(id);
                    state.delegate.notify_load_status_changed(status);
                    self.put_page(id, state);
                    proof {
                        self.lemma_page_changed(*old(self), id);
                    }
                },
                None => {},
            },
            SessionKey::Pending(index) => {
                if index < self.popup_buffer.len() {
                    self.popup_buffer[index].delegate.notify_load_status_changed(status);
                    proof {
                        self.lemma_pending_changed(*old(self), index);
                    }
                }
            },
        }
    }

    /// The renderer painted a frame of the session `key`.
    pub fn notify_new_frame_ready(&mut self, key: SessionKey)
        requires
            old(self).wf(),
            old(self)@.has_session(key) ==> old(self)@.session(key).delegate.frame_count
                < u64::MAX,
        ensures
            final(self).wf(),
            final(self)@ == old(self)@.after(key, DelegateEvent::FrameReady),
    {
        match key {
            SessionKey::Page(id) => match self.find(id) {
                Some(_) => {
                    let mut state = self.take_page(id);
                    state.delegate.notify_new_frame_ready();
                    self.put_page(id, state);
                    proof {
                        self.lemma_page_changed(*old(self), id);
                    }
                },
                None => {},
            },
            SessionKey::Pending(index) => {
                if index < self.popup_buffer.len() {
                    assert(old(self)@.pending[index as int] == old(self).popup_buffer@[index as int]@);
                    self.popup_buffer[index].delegate.notify_new_frame_ready();
                    proof {
                        self.lemma_pending_changed(*old(self), index);
                    }
                }
            },
        }
    }

    /// The session `key` wrote `message` to its console at `level`.
    pub fn show_console_message(&mut self, key: SessionKey, level: ConsoleLevel, message: String)
        requires
            old(self).wf(),
        ensures
            final(self).wf(),
            final(self)@ == old(self)@.after(
                key,
                DelegateEvent::ConsoleMessage(
                    ConsoleMessageView {
                        level: crate::delegate::level_name(level),
                        message: message@,
                    },
                ),
            ),
    {
        match key {
            SessionKey::Page(id) => match self.find(id) {
                Some(_) => {
                    let mut state = self.take_page(id);
                    state.delegate.show_console_message(level, message);
                    self.put_page(id, state);
                    proof {
                        self.lemma_page_changed(*old(self), id);
                    }
                },
                None => {},
            },
            SessionKey::Pending(index) => {
                if index < self.popup_buffer.len() {
                    self.popup_buffer[index].delegate.show_console_message(level, message);
                    proof {
                        self.lemma_pending_changed(*old(self), index);
                    }
                }
            },
        }
    }

    /// The session `key` asks for a resource at time `now`. Returns whether
    /// the request is to be cancelled. A request of a session that is gone
    /// is let through.
    pub fn load_web_resource(
        &mut self,
        key: SessionKey,
        method: String,
        url: String,
        is_main_frame: bool,
        now: u64,
    ) -> (blocked: bool)
        requires
            old(self).wf(),
        ensures
            final(self).wf(),
            final(self)@ == old(self)@.after(
                key,
                DelegateEvent::ResourceRequested {
                    request: NetworkRequestView { method: method@, url: url@, is_main_frame },
                    now,
                },
            ),
            blocked == (old(self)@.has_session(key) && is_blocked(
                url@,
                old(self)@.session(key).delegate.blocked_url_patterns,
            )),
    {
        match key {
            SessionKey::Page(id) => match self.find(id) {
                Some(_) => {
                    let mut state = self.take_page(id);
                    let blocked = state.delegate.load_web_resource(
                        method,
                        url,
                        is_main_frame,
                        now,
                    );
                    self.put_page(id, state);
                    proof {
                        self.lemma_page_changed(*old(self), id);
                    }
                    blocked
                },
                None => false,
            },
            SessionKey::Pending(index) => {
                if index < self.popup_buffer.len() {
                    assert(old(self)@.pending[index as int] == old(self).popup_buffer@[index as int]@);
                    let blocked = self.popup_buffer[index].delegate.load_web_resource(
                        method,
                        url,
                        is_main_frame,
                        now,
                    );
                    proof {
                        self.lemma_pending_changed(*old(self), index);
                    }
                    blocked
                } else {
                    false
                }
            },
        }
    }

    /// The renderer closed the session `key`.
    pub fn notify_closed(&mut self, key: SessionKey)
        requires
            old(self).wf(),
        ensures
            final(self).wf(),
            final(self)@ == old(self)@.after(key, DelegateEvent::Closed),
    {
        match key {
            SessionKey::Page(id) => match self.find(id) {
                Some(_) => {
                    let mut state = self.take_page(id);
                    state.delegate.notify_closed();
                    self.put_page(id, state);
                    proof {
                        self.lemma_page_changed(*old(self), id);
                    }
                },
                None => {},
            },
            SessionKey::Pending(index) => {
                if index < self.popup_buffer.len() {
                    self.popup_buffer[index].delegate.notify_closed();
                    proof {
                        self.lemma_pending_changed(*old(self), index);
                    }
                }
            },
        }
    }

    /// Hands out the console messages of the focused page, oldest first,
    /// and empties its buffer. Without a focused page there are none.
    pub fn console_messages(&mut self) -> (messages: Vec<ConsoleMessage>)
        requires
            old(self).wf(),
        ensures
            final(self).wf(),
            match old(self)@.active_page() {
                Some(id) => console_views(messages@) == old(self)@.pages[id].delegate.console_messages
                    && final(self)@ == old(self)@.after(
                    SessionKey::Page(id),
                    DelegateEvent::ConsoleDrained,
                ),
                None => messages@.len() == 0 && final(self)@ == old(self)@,
            },
    {
        match self.active_page_id {
            Some(id) => match self.find(id) {
                Some(_) => {
                    let mut state = self.take_page(id);
                    let messages = state.delegate.drain_console_messages();
                    self.put_page(id, state);
                    proof {
                        self.lemma_page_changed(*old(self), id);
                    }
                    messages
                },
                None => Vec::new(),
            },
            None => Vec::new(),
        }
    }

    /// Hands out the network requests of the focused page, oldest first,
    /// and empties its buffer. Without a focused page there are none.
    pub fn network_requests(&mut self) -> (requests: Vec<NetworkRequest>)
        requires
            old(self).wf(),
        ensures
            final(self).wf(),
            match old(self)@.active_page() {
                Some(id) => request_views(requests@) == old(self)@.pages[id].delegate.network_requests
                    && final(self)@ == old(self)@.after(
                    SessionKey::Page(id),
                    DelegateEvent::RequestsDrained,
                ),
                None => requests@.len() == 0 && final(self)@ == old(self)@,
            },
    {
        match self.active_page_id {
            Some(id) => match self.find(id) {
                Some(_) => {
                    let mut state = self.take_page(id);
                    let requests = state.delegate.drain_network_requests();
                    self.put_page(id, state);
                    proof {
                        self.lemma_page_changed(*old(self), id);
                    }
                    requests
                },
                None => Vec::new(),
            },
            None => Vec::new(),
        }
    }

    /// Sets the patterns of the focused page: from now on a request of that
    /// page whose URL contains one of them is cancelled. Without a focused
    /// page nothing happens.
    pub fn block_urls(&mut self, patterns: Vec<String>)
        requires
            old(self).wf(),
        ensures
            final(self).wf(),
            final(self)@ == match old(self)@.active_page() {
                Some(id) => old(self)@.after(
                    SessionKey::Page(id),
                    DelegateEvent::PatternsSet(string_views(patterns@)),
                ),
                None => old(self)@,
            },
    {
        match self.active_page_id {
            Some(id) => match self.find(id) {
                Some(_) => {
                    let mut state = self.take_page(id);
                    state.delegate.set_blocked_url_patterns(patterns);
                    self.put_page(id, state);
                    proof {
                        self.lemma_page_changed(*old(self), id);
                    }
                },
                None => {},
            },
            None => {},
        }
    }

    /// Removes the patterns of the focused page.
    pub fn clear_blocked_urls(&mut self)
        requires
            old(self).wf(),
        ensures
            final(self).wf(),
            final(self)@ == match old(self)@.active_page() {
                Some(id) => old(self)@.after(
                    SessionKey::Page(id),
                    DelegateEvent::PatternsSet(Seq::empty()),
                ),
                None => old(self)@,
            },
    {
        match self.active_page_id {
            Some(id) => match self.find(id) {
                Some(_) => {
                    let mut state = self.take_page(id);
                    state.delegate.clear_blocked_url_patterns();
                    self.put_page(id, state);
                    proof {
                        self.lemma_page_changed(*old(self), id);
                    }
                },
                None => {},
            },
            None => {},
        }
    }

    /// Begins a navigation of the focused page: its load is no longer
    /// complete. Returns the page to navigate. Reloads, moves in the history
    /// and waits for a navigation begin so; without an attached page they
    /// fail and nothing changes.
    pub fn begin_navigation(&mut self) -> (page: Result<u32, PageError>)
        requires
            old(self).wf(),
        ensures
            final(self).wf(),
            match old(self)@.webview() {
                Some(id) => page == Ok::<u32, PageError>(id) && final(self)@ == old(self)@.after(
                    SessionKey::Page(id),
                    DelegateEvent::NavigationBegun,
                ),
                None => page == Err::<u32, PageError>(PageError::NoPage) && final(self)@ == old(
                    self,
                )@,
            },
    {
        match self.active_page_id {
            Some(id) => {
                if self.is_attached(id) {
                    let mut state = self.take_page(id);
                    state.delegate.begin_navigation();
                    self.put_page(id, state);
                    proof {
                        self.lemma_page_changed(*old(self), id);
                    }
                    Ok(id)
                } else {
                    Err(PageError::NoPage)
                }
            },
            None => Err(PageError::NoPage),
        }
    }

    /// Begins a move in the history of the focused page, which must have a
    /// document attached. `available` says whether the renderer has an
    /// entry to move to. Without one nothing changes and the answer is
    /// `Ok(None)`: there is no history, which is no error. With one the page
    /// begins a navigation and is returned.
    pub fn begin_history_move(&mut self, available: bool) -> (page: Result<Option<u32>, PageError>)
        requires
            old(self).wf(),
        ensures
            final(self).wf(),
            match old(self)@.webview() {
                Some(id) => if available {
                    page == Ok::<Option<u32>, PageError>(Some(id)) && final(self)@ == old(
                        self,
                    )@.after(SessionKey::Page(id), DelegateEvent::NavigationBegun)
                } else {
                    page == Ok::<Option<u32>, PageError>(None) && final(self)@ == old(self)@
                },
                None => page == Err::<Option<u32>, PageError>(PageError::NoPage) && final(self)@
                    == old(self)@,
            },
    {
        match self.webview() {
            Ok(_) => {
                if !available {
                    return Ok(None);
                }
                match self.begin_navigation() {
                    Ok(id) => Ok(Some(id)),
                    Err(error) => Err(error),
                }
            },
            Err(error) => Err(error),
        }
    }

    /// Begins a wait for the network of the focused page to go quiet, at
    /// `now`. The page must have a document attached. A page that never
    /// asked for a resource is quiet already: the answer is `Ok(None)` and
    /// nothing is waited for.
    pub fn begin_network_idle_wait(&self, idle_millis: u64, timeout_secs: u64, now: u64) -> (wait:
        Result<Option<NetworkIdleWait>, PageError>)
        requires
            self.wf(),
        ensures
            match self@.webview() {
                Some(id) => match self@.pages[id].delegate.last_request_time {
                    Some(time) => wait is Ok && wait->Ok_0 is Some && wait->Ok_0->Some_0
                        == (NetworkIdleWait {
                        max_deadline: Deadline { at: (now + secs_to_nanos(timeout_secs)) as u128 },
                        idle_deadline: Deadline { at: (now + millis_to_nanos(idle_millis)) as u128 },
                        last_seen: Some(time),
                        idle_millis,
                    }),
                    None => wait is Ok && wait->Ok_0 is None,
                },
                None => wait is Err && wait->Err_0 == PageError::NoPage,
            },
    {
        match self.webview() {
            Ok(id) => match self.delegate(id) {
                Some(delegate) => match delegate.last_request_time() {
                    Some(time) => Ok(
                        Some(NetworkIdleWait::start(now, Some(time), idle_millis, timeout_secs)),
                    ),
                    None => Ok(None),
                },
                None => Err(PageError::NoPage),
            },
            Err(error) => Err(error),
        }
    }

    /// The viewport of the surface that `open` needs before anything else:
    /// where no page is open at all, `open` makes the first one, with the
    /// default viewport. `None` where a page is open.
    pub fn open_needs_surface(&self) -> (viewport: Option<(u32, u32)>)
        requires
            self.wf(),
        ensures
            self@.pages.dom().finite(),
            viewport == if self@.pages.dom().len() == 0 {
                Some((self@.options.width, self@.options.height))
            } else {
                None
            },
    {
        if self.page_count() == 0 {
            Some((self.options.width, self.options.height))
        } else {
            None
        }
    }

    /// Begins `open` on the table.
    ///
    /// Where no page is open, the first page is entered and focused; the
    /// driver has made its surface. Then the focused page, which must be
    /// open, begins a navigation and counts as attached. Returns that page
    /// and whether a document was attached to it before: if so the driver
    /// navigates the document that is there, if not it builds one.
    pub fn begin_open(&mut self) -> (target: Result<(u32, bool), PageError>)
        requires
            old(self).wf(),
            old(self)@.pages.dom().len() == 0 ==> old(self)@.next_page_id < u32::MAX,
        ensures
            final(self).wf(),
            final(self)@ == open_begun(old(self)@),
            match open_target(old(self)@) {
                Some(id) => target == Ok::<(u32, bool), PageError>(
                    (id, with_first_page(old(self)@).pages[id].attached),
                ),
                None => target == Err::<(u32, bool), PageError>(PageError::NoPage),
            },
    {
        if self.page_count() == 0 {
            let width = self.options.width;
            let height = self.options.height;
            let id = self.create_page_internal(width, height);
            self.active_page_id = Some(id);
            assert(old(self)@.pages =~= Map::empty());
        }
        proof {
            assert(self@ == with_first_page(old(self)@));
        }
        let ghost prepared = *self;
        match self.active_page_id {
            Some(id) => match self.find(id) {
                Some(_) => {
                    let mut state = self.take_page(id);
                    let was_attached = state.attached;
                    state.delegate.begin_navigation();
                    state.attached = true;
                    proof {
                        lemma_inserted(prepared.pages@, id, state);
                    }
                    self.put_page(id, state);
                    Ok((id, was_attached))
                },
                None => Err(PageError::NoPage),
            },
            None => Err(PageError::NoPage),
        }
    }

    /// What follows for the table when only the record of the page
    /// `page_id` differs from `before`.
    proof fn lemma_page_changed(&self, before: PageEngine, page_id: u32)
        requires
            before.wf(),
            before.pages@.contains_key(page_id),
            self.pages@.contains_key(page_id),
            self.pages@ == before.pages@.remove(page_id).insert(page_id, self.pages@[page_id]),
            self.pages@[page_id].attached == before.pages@[page_id].attached,
            self.pages@[page_id].width == before.pages@[page_id].width,
            self.pages@[page_id].height == before.pages@[page_id].height,
            self.active_page_id == before.active_page_id,
            self.next_page_id == before.next_page_id,
            self.popup_buffer == before.popup_buffer,
            self.popup_enabled == before.popup_enabled,
            self.options == before.options,
        ensures
            self.wf(),
            before@.pages.dom().contains(page_id),
            self@ == before@.with_session(
                SessionKey::Page(page_id),
                PageView {
                    delegate: self.pages@[page_id].delegate@,
                    ..before@.pages[page_id]
                },
            ),
    {
        lemma_inserted(before.pages@, page_id, self.pages@[page_id]);
    }

    /// What follows for the table when only the record of the buffered
    /// pop-up at `at` differs from `before`.
    proof fn lemma_pending_changed(&self, before: PageEngine, at: usize)
        requires
            before.wf(),
            at < before.popup_buffer@.len(),
            self.popup_buffer@.len() == before.popup_buffer@.len(),
            forall|k: int| 0 <= k < before.popup_buffer@.len() && k != at
                ==> self.popup_buffer@[k] == before.popup_buffer@[k],
            self.popup_buffer@[at as int].attached == before.popup_buffer@[at as int].attached,
            self.popup_buffer@[at as int].width == before.popup_buffer@[at as int].width,
            self.popup_buffer@[at as int].height == before.popup_buffer@[at as int].height,
            self.active_page_id == before.active_page_id,
            self.next_page_id == before.next_page_id,
            self.pages == before.pages,
            self.popup_enabled == before.popup_enabled,
            self.options == before.options,
        ensures
            self.wf(),
            before@.has_session(SessionKey::Pending(at)),
            self@ == before@.with_session(
                SessionKey::Pending(at),
                PageView {
                    delegate: self.popup_buffer@[at as int].delegate@,
                    ..before@.pending[at as int]
                },
            ),
    {
        assert(self@.pending =~= before@.pending.update(
            at as int,
            PageView { delegate: self.popup_buffer@[at as int].delegate@, ..before@.pending[at as int] },
        ));
    }
}

/// Where a page id stands in the life of its page.
pub enum PagePhase {
    /// The id was not given yet.
    Unused,
    /// The page is open and no document was attached to it yet.
    Unattached,
    /// A document is attached and its load is not complete.
    Loading,
    /// A document is attached and its load is complete.
    Loaded,
    /// The page was closed.
    Closed,
}

impl EngineView {
    /// Whether every id in use is below the id that the next page gets.
    pub open spec fn ids_in_range(self) -> bool {
        forall|id: u32| self.pages.dom().contains(id) ==> id < self.next_page_id
    }

    /// Where `page_id` stands in the life of its page.
    pub open spec fn phase(self, page_id: u32) -> PagePhase {
        if self.pages.dom().contains(page_id) {
            if !self.pages[page_id].attached {
                PagePhase::Unattached
            } else if self.pages[page_id].delegate.load_complete {
                PagePhase::Loaded
            } else {
                PagePhase::Loading
            }
        } else if page_id < self.next_page_id {
            PagePhase::Closed
        } else {
            PagePhase::Unused
        }
    }

    /// The table after a page with the given viewport was entered under
    /// the next id.
    pub open spec fn with_page(self, width: u32, height: u32) -> EngineView {
        EngineView {
            pages: self.pages.insert(self.next_page_id, PageView::fresh(width, height)),
            next_page_id: (self.next_page_id + 1) as u32,
            ..self
        }
    }

    /// The table after every pop-up that waited was adopted.
    pub open spec fn popups_adopted(self) -> EngineView {
        EngineView {
            pages: Self::adopted(
                self.pages,
                self.pending,
                self.next_page_id,
                self.pending.len() as int,
            ),
            next_page_id: (self.next_page_id + self.pending.len()) as u32,
            pending: Seq::empty(),
            ..self
        }
    }

    /// The table after `close`: the focused page, if it was open, is gone,
    /// and no page is focused.
    pub open spec fn closed(self) -> EngineView {
        EngineView {
            pages: match self.active_page_id {
                Some(id) => self.pages.remove(id),
                None => self.pages,
            },
            active_page_id: None,
            ..self
        }
    }

    /// The table after `close_page` on an open page.
    pub open spec fn page_closed(self, page_id: u32) -> EngineView {
        EngineView {
            pages: self.pages.remove(page_id),
            active_page_id: if self.active_page_id == Some(page_id) {
                None
            } else {
                self.active_page_id
            },
            ..self
        }
    }
}

/// A table that was just made, or reset, has no session and accepts no
/// pop-up: every operation on the content of a page finds none to work on.
pub proof fn lemma_no_session_before_open(options: PageOptions)
    ensures
        EngineView::initial(options).webview() is None,
        EngineView::initial(options).active_page() is None,
        !EngineView::initial(options).popup_enabled,
        EngineView::initial(options).pending.len() == 0,
{
}

/// Once the focused page is closed there is no session: every operation on
/// the content of a page finds none to work on, by whichever of the two
/// ways the page was closed, until the caller moves the focus to a page
/// that is open.
pub proof fn lemma_no_session_after_close(table: EngineView, page_id: u32)
    ensures
        table.closed().webview() is None,
        table.closed().active_page() is None,
        table.active_page_id == Some(page_id) ==> table.page_closed(page_id).webview() is None,
        !table.page_closed(page_id).pages.dom().contains(page_id),
        table.active_page_id != Some(page_id) ==> table.page_closed(page_id).webview()
            == table.webview(),
{
    if table.active_page_id != Some(page_id) {
        match table.active_page_id {
            Some(id) => {
                assert(table.pages.remove(page_id).dom().contains(id) == table.pages.dom().contains(
                    id,
                ));
            },
            None => {},
        }
    }
}

/// An event on the record of one session leaves every other session, the
/// focus and the id counter as they were, and opens or closes no page.
pub proof fn lemma_event_touches_one_session(table: EngineView, key: SessionKey, event: DelegateEvent)
    ensures
        table.after(key, event).pages.dom() == table.pages.dom(),
        table.after(key, event).pending.len() == table.pending.len(),
        table.after(key, event).active_page_id == table.active_page_id,
        table.after(key, event).next_page_id == table.next_page_id,
        table.after(key, event).webview() == table.webview(),
        forall|other: SessionKey|
            other != key && table.has_session(other) ==> #[trigger] table.after(
                key,
                event,
            ).session(other) == table.session(other),
{
    if table.has_session(key) {
        match key {
            SessionKey::Page(id) => {
                assert(table.after(key, event).pages.dom() =~= table.pages.dom());
            },
            SessionKey::Pending(index) => {},
        }
    }
}

/// After the buffer of the focused page was handed out, it is empty and the
/// page is still focused: handing it out again, with nothing recorded in
/// between, hands out nothing.
pub proof fn lemma_second_drain_is_empty(table: EngineView, page_id: u32)
    requires
        table.active_page() == Some(page_id),
    ensures
        table.after(SessionKey::Page(page_id), DelegateEvent::ConsoleDrained).active_page()
            == Some(page_id),
        table.after(SessionKey::Page(page_id), DelegateEvent::ConsoleDrained).pages[page_id].delegate.console_messages.len()
            == 0,
        table.after(SessionKey::Page(page_id), DelegateEvent::RequestsDrained).active_page()
            == Some(page_id),
        table.after(SessionKey::Page(page_id), DelegateEvent::RequestsDrained).pages[page_id].delegate.network_requests.len()
            == 0,
{
}

/// An id is given once. Making a page, adopting pop-ups and closing pages
/// keep every id in use below the next id and never lower the next id, so a
/// page that was closed stays closed: its id names no page again.
pub proof fn lemma_closed_page_stays_closed(
    table: EngineView,
    page_id: u32,
    other: u32,
    width: u32,
    height: u32,
)
    requires
        table.ids_in_range(),
        table.next_page_id + table.pending.len() < u32::MAX,
        table.phase(page_id) is Closed,
    ensures
        table.with_page(width, height).ids_in_range(),
        table.popups_adopted().ids_in_range(),
        table.closed().ids_in_range(),
        table.page_closed(other).ids_in_range(),
        table.with_page(width, height).phase(page_id) is Closed,
        table.popups_adopted().phase(page_id) is Closed,
        table.closed().phase(page_id) is Closed,
        table.page_closed(other).phase(page_id) is Closed,
        table.pages.dom().contains(other) ==> table.page_closed(other).phase(other) is Closed,
        table.with_page(width, height).phase(table.next_page_id) is Unattached,
{
}

/// The record of a page moves its page between loading and loaded, and
/// nothing else: an event opens no page, closes none, and detaches none;
/// the start of a navigation makes an attached page load, and the report
/// that the load is complete makes it loaded.
pub proof fn lemma_events_move_between_loading_and_loaded(
    table: EngineView,
    page_id: u32,
    event: DelegateEvent,
)
    requires
        table.pages.dom().contains(page_id),
    ensures
        ({
            let before = table.phase(page_id);
            let after = table.after(SessionKey::Page(page_id), event).phase(page_id);
            &&& before is Unattached ==> after is Unattached
            &&& before is Loading ==> after is Loading || (after is Loaded && event
                == DelegateEvent::LoadStatusChanged(LoadStatus::Complete))
            &&& before is Loaded ==> after is Loaded || (after is Loading && event
                == DelegateEvent::NavigationBegun)
            &&& table.pages[page_id].attached ==> table.after(
                SessionKey::Page(page_id),
                DelegateEvent::NavigationBegun,
            ).phase(page_id) is Loading
            &&& table.pages[page_id].attached ==> table.after(
                SessionKey::Page(page_id),
                DelegateEvent::LoadStatusChanged(LoadStatus::Complete),
            ).phase(page_id) is Loaded
        }),
{
}

/// Wherever `open` finds a page to work on, it leaves that page focused,
/// attached and loading: the load flag is clear once the navigation has
/// begun, whatever it was before, so the completion of an earlier load
/// cannot pass for the completion of this one. Where it finds none,
/// nothing changes.
pub proof fn lemma_open_begins_a_load(table: EngineView)
    ensures
        open_target(table) matches Some(id) ==> {
            &&& open_begun(table).webview() == Some(id)
            &&& open_begun(table).phase(id) is Loading
            &&& !open_begun(table).pages[id].delegate.load_complete
        },
        open_target(table) is None ==> open_begun(table) == table,
{
}

} // verus!
