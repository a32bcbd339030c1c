//! Cursor-based pagination as a forward-only sequence of items.
//!
//! A [`Paginator`] owns the cursor of one pagination session. Its caller
//! repeatedly asks it for the next [`Step`]: either a page to fetch (with the
//! cursor to present), an item, a failure, or the end. After a `Fetch` the
//! caller hands the fetched page, or the error that fetching it gave, to
//! [`Paginator::receive`]. Nothing is fetched before the items already
//! fetched are used up, no page is fetched after one without a cursor, and a
//! failure is reported exactly once, as the last element before the end.

use vstd::prelude::*;
use std::collections::VecDeque;
use crate::error::JulesError;
use crate::request::opt_text;

verus! {

/// One page of a listing: items in the server's order, and the cursor of the
/// next page, where there is one.
pub struct Page<T> {
    pub items: Vec<T>,
    pub next_page_token: Option<String>,
}

/// A page as contracts see it: its items and its cursor.
pub type PageView<T> = (Seq<T>, Option<Seq<char>>);

pub open spec fn page_view<T>(p: Result<Page<T>, JulesError>) -> Result<PageView<T>, JulesError> {
    match p {
        Ok(pg) => Ok((pg.items@, opt_text(pg.next_page_token))),
        Err(e) => Err(e),
    }
}

/// What the caller of a pagination session does next.
pub enum Step<T> {
    /// Fetch the page at this cursor (none: the first page) and hand the
    /// outcome to `receive`.
    Fetch(Option<String>),
    /// The next item of the sequence.
    Item(T),
    /// Fetching a page failed; the sequence ends after this element.
    Failure(JulesError),
    /// The sequence has ended.
    End,
}

/// A step as contracts see it.
pub enum StepView<T> {
    Fetch(Option<Seq<char>>),
    Item(T),
    Failure(JulesError),
    End,
}

impl<T> Step<T> {
    pub open spec fn view(&self) -> StepView<T> {
        match self {
            Step::Fetch(c) => StepView::Fetch(opt_text(*c)),
            Step::Item(x) => StepView::Item(*x),
            Step::Failure(e) => StepView::Failure(*e),
            Step::End => StepView::End,
        }
    }
}

/// The state of a pagination session, as contracts see it.
pub enum PagerView<T> {
    /// Waiting for the page at this cursor.
    Fetching(Option<Seq<char>>),
    /// Handing out the rest of a page; the cursor of the next page, if any.
    Emitting(Seq<T>, Option<Seq<char>>),
    /// A fetch failed; the failure is yet to be handed out.
    Failed(JulesError),
    /// The session has ended.
    Done,
}

/// The cursor that a page's returned token stands for: an absent or empty
/// token means that there is no further page.
pub open spec fn next_cursor(token: Option<Seq<char>>) -> Option<Seq<char>> {
    match token {
        Some(t) => if t.len() > 0 {
            Some(t)
        } else {
            None
        },
        None => None,
    }
}

/// The step handed out in state `s`, and the state after it.
pub open spec fn poll_spec<T>(s: PagerView<T>) -> (StepView<T>, PagerView<T>) {
    match s {
        PagerView::Fetching(c) => (StepView::Fetch(c), PagerView::Fetching(c)),
        PagerView::Emitting(items, next) => if items.len() > 0 {
            (StepView::Item(items[0]), PagerView::Emitting(items.drop_first(), next))
        } else {
            match next {
                Some(t) => (StepView::Fetch(Some(t)), PagerView::Fetching(Some(t))),
                None => (StepView::End, PagerView::Done),
            }
        },
        PagerView::Failed(e) => (StepView::Failure(e), PagerView::Done),
        PagerView::Done => (StepView::End, PagerView::Done),
    }
}

/// The state after the outcome `page` of a fetch arrives in state `s`;
/// outside of `Fetching` an arriving page changes nothing.
pub open spec fn receive_spec<T>(s: PagerView<T>, page: Result<PageView<T>, JulesError>) -> PagerView<T> {
    match s {
        PagerView::Fetching(_) => match page {
            Ok(p) => PagerView::Emitting(p.0, next_cursor(p.1)),
            Err(e) => PagerView::Failed(e),
        },
        _ => s,
    }
}

enum PagerState<T> {
    Fetching(Option<String>),
    Emitting(VecDeque<T>, Option<String>),
    Failed(JulesError),
    Done,
}

/// One pagination session: the cursor state and the page size it asks for.
pub struct Paginator<T> {
    state: PagerState<T>,
    page_size: i32,
}

fn copy_cursor(c: &Option<String>) -> (r: Option<String>)
    ensures
        opt_text(r) == opt_text(*c),
{
    match c {
        Some(t) => Some(t.clone()),
        None => None,
    }
}

fn cursor_of(token: Option<String>) -> (r: Option<String>)
    ensures
        opt_text(r) == next_cursor(opt_text(token)),
{
    match token {
        Some(t) => if t.as_str().is_empty() {
            None
        } else {
            Some(t)
        },
        None => None,
    }
}

impl<T> Paginator<T> {
    pub closed spec fn view(&self) -> PagerView<T> {
        match self.state {
            PagerState::Fetching(c) => PagerView::Fetching(opt_text(c)),
            PagerState::Emitting(items, next) => PagerView::Emitting(items@, opt_text(next)),
            PagerState::Failed(e) => PagerView::Failed(e),
            PagerState::Done => PagerView::Done,
        }
    }

    pub closed spec fn spec_page_size(&self) -> i32 {
        self.page_size
    }

    /// A fresh session, starting with no cursor, that asks for pages of
    /// `page_size` items.
    pub fn new(page_size: i32) -> (r: Paginator<T>)
        ensures
            r@ == PagerView::<T>::Fetching(None),
            r.spec_page_size() == page_size,
    {
        Paginator { state: PagerState::Fetching(None), page_size }
    }

    /// The page size that each fetch of this session asks for.
    pub fn page_size(&self) -> (r: i32)
        ensures
            r == self.spec_page_size(),
    {
        self.page_size
    }

    /// Hands out the next step of the session.
    pub fn poll(&mut self) -> (r: Step<T>)
        ensures
            (r@, final(self)@) == poll_spec(old(self)@),
            final(self).spec_page_size() == old(self).spec_page_size(),
    {
        let mut st = PagerState::Done;
        std::mem::swap(&mut self.state, &mut st);
        match st {
            PagerState::Fetching(c) => {
                let c2 = copy_cursor(&c);
                self.state = PagerState::Fetching(c);
                Step::Fetch(c2)
            },
            PagerState::Emitting(mut items, next) => match items.pop_front() {
                Some(x) => {
                    self.state = PagerState::Emitting(items, next);
                    Step::Item(x)
                },
                None => match next {
                    Some(t) => {
                        let t2 = t.clone();
                        self.state = PagerState::Fetching(Some(t));
                        Step::Fetch(Some(t2))
                    },
                    None => Step::End,
                },
            },
            PagerState::Failed(e) => Step::Failure(e),
            PagerState::Done => Step::End,
        }
    }

    /// Takes the outcome of the fetch that the last `Fetch` step asked for.
    pub fn receive(&mut self, page: Result<Page<T>, JulesError>)
        ensures
            final(self)@ == receive_spec(old(self)@, page_view(page)),
            final(self).spec_page_size() == old(self).spec_page_size(),
    {
        if let PagerState::Fetching(_) = self.state {
            match page {
                Ok(p) => {
                    let Page { mut items, next_page_token } = p;
                    let ghost all = items@;
                    let mut queue: VecDeque<T> = VecDeque::new();
                    while items.len() > 0
                        invariant
                            items@ + queue@ == all,
                        decreases items.len(),
                    {
                        match items.pop() {
                            Some(x) => {
                                queue.push_front(x);
                                assert(items@ + queue@ =~= all);
                            },
                            None => {},
                        }
                    }
                    assert(queue@ =~= all);
                    self.state = PagerState::Emitting(queue, cursor_of(next_page_token));
                },
                Err(e) => {
                    self.state = PagerState::Failed(e);
                },
            }
        }
    }
}

/// A measure of the steps a state hands out before it needs another page.
pub open spec fn pending<T>(s: PagerView<T>) -> nat {
    match s {
        PagerView::Emitting(items, _) => items.len() + 1,
        PagerView::Failed(_) => 1,
        _ => 0,
    }
}

/// The steps that a session in state `s` hands out when each fetch it asks
/// for is answered by the next element of `script`, up to the end of the
/// session, or up to a fetch that `script` has no answer left for.
pub open spec fn run<T>(s: PagerView<T>, script: Seq<Result<PageView<T>, JulesError>>) -> Seq<StepView<T>>
    decreases script.len(), pending(s),
{
    let (step, after) = poll_spec(s);
    match step {
        StepView::End => seq![step],
        StepView::Fetch(_) => if script.len() == 0 {
            seq![step]
        } else {
            seq![step] + run(receive_spec(after, script[0]), script.drop_first())
        },
        _ => seq![step] + run(after, script),
    }
}

/// The items of a page handed out one by one.
pub open spec fn item_steps<T>(items: Seq<T>) -> Seq<StepView<T>> {
    items.map_values(|x: T| StepView::Item(x))
}

/// Whether every page of `pages` returns a cursor to a further page.
pub open spec fn all_continue<T>(pages: Seq<PageView<T>>) -> bool {
    forall|i: int| 0 <= i < pages.len() ==> (#[trigger] next_cursor(pages[i].1)) is Some
}

/// The cursor presented after fetching `pages` in turn, starting from `cursor`.
pub open spec fn cursor_after<T>(pages: Seq<PageView<T>>, cursor: Option<Seq<char>>) -> Option<Seq<char>>
    decreases pages.len(),
{
    if pages.len() == 0 {
        cursor
    } else {
        cursor_after(pages.drop_first(), next_cursor(pages[0].1))
    }
}

/// For each page in turn, starting from `cursor`: the fetch of it with the
/// cursor that the page before returned, then its items in order.
pub open spec fn pages_steps<T>(pages: Seq<PageView<T>>, cursor: Option<Seq<char>>) -> Seq<StepView<T>>
    decreases pages.len(),
{
    if pages.len() == 0 {
        seq![]
    } else {
        seq![StepView::Fetch(cursor)] + item_steps(pages[0].0) + pages_steps(pages.drop_first(), next_cursor(pages[0].1))
    }
}

pub open spec fn answered<T>(pages: Seq<PageView<T>>) -> Seq<Result<PageView<T>, JulesError>> {
    pages.map_values(|p: PageView<T>| Ok::<PageView<T>, JulesError>(p))
}

proof fn lemma_run_items<T>(items: Seq<T>, next: Option<Seq<char>>, script: Seq<Result<PageView<T>, JulesError>>)
    ensures
        run(PagerView::Emitting(items, next), script) == item_steps(items) + run(
            PagerView::Emitting(Seq::empty(), next),
            script,
        ),
    decreases items.len(),
{
    if items.len() > 0 {
        lemma_run_items(items.drop_first(), next, script);
        assert(item_steps(items) =~= seq![StepView::Item(items[0])] + item_steps(items.drop_first()));
        assert(run(PagerView::Emitting(items, next), script) == seq![StepView::Item(items[0])] + run(
            PagerView::Emitting(items.drop_first(), next),
            script,
        ));
        assert(seq![StepView::Item(items[0])] + (item_steps(items.drop_first()) + run(
            PagerView::Emitting(Seq::empty(), next),
            script,
        )) =~= item_steps(items) + run(PagerView::Emitting(Seq::empty(), next), script));
    } else {
        assert(item_steps(items) =~= Seq::empty());
        assert(items =~= Seq::empty());
        assert(Seq::<StepView<T>>::empty() + run(PagerView::Emitting(Seq::empty(), next), script) =~= run(
            PagerView::Emitting(Seq::empty(), next),
            script,
        ));
    }
}

proof fn lemma_run_pages<T>(
    pages: Seq<PageView<T>>,
    cursor: Option<Seq<char>>,
    rest: Seq<Result<PageView<T>, JulesError>>,
)
    requires
        all_continue(pages),
    ensures
        run(PagerView::Fetching(cursor), answered(pages) + rest) == pages_steps(pages, cursor) + run(
            PagerView::Fetching(cursor_after(pages, cursor)),
            rest,
        ),
    decreases pages.len(),
{
    if pages.len() == 0 {
        assert(answered(pages) + rest =~= rest);
        assert(Seq::<StepView<T>>::empty() + run(PagerView::Fetching(cursor), rest) =~= run(
            PagerView::Fetching(cursor),
            rest,
        ));
    } else {
        let p = pages[0];
        let c = next_cursor(p.1);
        let tail = pages.drop_first();
        assert(c is Some) by {
            assert(next_cursor(pages[0].1) is Some);
        }
        assert(all_continue(tail)) by {
            assert forall|i: int| 0 <= i < tail.len() implies (#[trigger] next_cursor(tail[i].1)) is Some by {
                assert(tail[i] == pages[i + 1]);
                assert(next_cursor(pages[i + 1].1) is Some);
            }
        }
        let script = answered(pages) + rest;
        assert(script.len() > 0);
        assert(script[0] == Ok::<PageView<T>, JulesError>(p));
        assert(script.drop_first() =~= answered(tail) + rest);
        lemma_run_items(p.0, c, answered(tail) + rest);
        lemma_run_pages(tail, c, rest);
        let fetch = seq![StepView::<T>::Fetch(cursor)];
        assert(run(PagerView::Fetching(cursor), script) == fetch + run(
            PagerView::Emitting(p.0, c),
            answered(tail) + rest,
        ));
        assert(run(PagerView::Emitting(Seq::<T>::empty(), c), answered(tail) + rest) == run(
            PagerView::Fetching(c),
            answered(tail) + rest,
        )) by {
            let (step, after) = poll_spec(PagerView::Emitting(Seq::<T>::empty(), c));
            assert(step == StepView::<T>::Fetch(c));
            assert(after == PagerView::<T>::Fetching(c));
            let s2 = answered(tail) + rest;
            if s2.len() == 0 {
                assert(run(PagerView::Emitting(Seq::<T>::empty(), c), s2) == seq![StepView::<T>::Fetch(c)]);
            } else {
                assert(run(PagerView::Emitting(Seq::<T>::empty(), c), s2) == seq![StepView::<T>::Fetch(c)] + run(
                    receive_spec(PagerView::<T>::Fetching(c), s2[0]),
                    s2.drop_first(),
                ));
            }
        }
        assert(fetch + (item_steps(p.0) + (pages_steps(tail, c) + run(
            PagerView::Fetching(cursor_after(tail, c)),
            rest,
        ))) =~= pages_steps(pages, cursor) + run(PagerView::Fetching(cursor_after(pages, cursor)), rest));
    }
}

proof fn lemma_run_pages_push<T>(pages: Seq<PageView<T>>, last: PageView<T>, cursor: Option<Seq<char>>)
    ensures
        pages_steps(pages.push(last), cursor) == pages_steps(pages, cursor) + (seq![
            StepView::Fetch(cursor_after(pages, cursor)),
        ] + item_steps(last.0)),
    decreases pages.len(),
{
    if pages.len() == 0 {
        assert(pages.push(last).drop_first() =~= Seq::<PageView<T>>::empty());
        assert(pages.push(last)[0] == last);
        assert(pages_steps(pages.push(last), cursor) == seq![StepView::Fetch(cursor)] + item_steps(last.0)
            + pages_steps(Seq::<PageView<T>>::empty(), next_cursor(last.1)));
        assert(pages_steps(Seq::<PageView<T>>::empty(), next_cursor(last.1)) == Seq::<StepView<T>>::empty());
        assert(pages_steps(pages, cursor) == Seq::<StepView<T>>::empty());
        assert(cursor_after(pages, cursor) == cursor);
        assert(pages_steps(pages.push(last), cursor) =~= pages_steps(pages, cursor) + (seq![
            StepView::Fetch(cursor_after(pages, cursor)),
        ] + item_steps(last.0)));
    } else {
        let c = next_cursor(pages[0].1);
        assert(pages.push(last).drop_first() =~= pages.drop_first().push(last));
        lemma_run_pages_push(pages.drop_first(), last, c);
        assert(pages.push(last)[0] == pages[0]);
        assert(pages_steps(pages.push(last), cursor) == seq![StepView::Fetch(cursor)] + item_steps(pages[0].0)
            + pages_steps(pages.drop_first().push(last), c));
        assert(pages_steps(pages, cursor) == seq![StepView::Fetch(cursor)] + item_steps(pages[0].0)
            + pages_steps(pages.drop_first(), c));
        assert(cursor_after(pages, cursor) == cursor_after(pages.drop_first(), c));
        assert(pages_steps(pages.push(last), cursor) =~= pages_steps(pages, cursor) + (seq![
            StepView::Fetch(cursor_after(pages, cursor)),
        ] + item_steps(last.0)));
    }
}

/// How many fetches `steps` asks for.
pub open spec fn fetch_count<T>(steps: Seq<StepView<T>>) -> nat
    decreases steps.len(),
{
    if steps.len() == 0 {
        0
    } else {
        (if steps[0] is Fetch { 1nat } else { 0nat }) + fetch_count(steps.drop_first())
    }
}

/// The items that `steps` hands out, in order.
pub open spec fn items_handed_out<T>(steps: Seq<StepView<T>>) -> Seq<T>
    decreases steps.len(),
{
    if steps.len() == 0 {
        seq![]
    } else {
        (match steps[0] {
            StepView::Item(x) => seq![x],
            _ => seq![],
        }) + items_handed_out(steps.drop_first())
    }
}

/// The items of `pages`, page after page, each in its own order.
pub open spec fn all_items<T>(pages: Seq<PageView<T>>) -> Seq<T>
    decreases pages.len(),
{
    if pages.len() == 0 {
        seq![]
    } else {
        pages[0].0 + all_items(pages.drop_first())
    }
}

proof fn lemma_counts_append<T>(a: Seq<StepView<T>>, b: Seq<StepView<T>>)
    ensures
        fetch_count(a + b) == fetch_count(a) + fetch_count(b),
        items_handed_out(a + b) == items_handed_out(a) + items_handed_out(b),
    decreases a.len(),
{
    if a.len() == 0 {
        assert(a + b =~= b);
        assert(items_handed_out(a) + items_handed_out(b) =~= items_handed_out(b));
    } else {
        assert((a + b).drop_first() =~= a.drop_first() + b);
        assert((a + b)[0] == a[0]);
        lemma_counts_append(a.drop_first(), b);
        let head: Seq<T> = match a[0] {
            StepView::Item(x) => seq![x],
            _ => seq![],
        };
        assert(head + (items_handed_out(a.drop_first()) + items_handed_out(b)) =~= (head + items_handed_out(
            a.drop_first(),
        )) + items_handed_out(b));
    }
}

proof fn lemma_counts_items<T>(items: Seq<T>)
    ensures
        fetch_count(item_steps(items)) == 0,
        items_handed_out(item_steps(items)) == items,
    decreases items.len(),
{
    if items.len() == 0 {
        assert(item_steps(items) =~= Seq::<StepView<T>>::empty());
        assert(items =~= Seq::<T>::empty());
    } else {
        assert(item_steps(items).drop_first() =~= item_steps(items.drop_first()));
        lemma_counts_items(items.drop_first());
        assert(seq![items[0]] + items.drop_first() =~= items);
    }
}

proof fn lemma_counts_pages<T>(pages: Seq<PageView<T>>, cursor: Option<Seq<char>>)
    ensures
        fetch_count(pages_steps(pages, cursor)) == pages.len(),
        items_handed_out(pages_steps(pages, cursor)) == all_items(pages),
    decreases pages.len(),
{
    if pages.len() > 0 {
        let fetch = seq![StepView::<T>::Fetch(cursor)];
        let rest = pages_steps(pages.drop_first(), next_cursor(pages[0].1));
        lemma_counts_pages(pages.drop_first(), next_cursor(pages[0].1));
        lemma_counts_items(pages[0].0);
        lemma_counts_append(fetch, item_steps(pages[0].0));
        lemma_counts_append(fetch + item_steps(pages[0].0), rest);
        assert(fetch.drop_first() =~= Seq::<StepView<T>>::empty());
        assert(items_handed_out(fetch) =~= Seq::<T>::empty()) by {
            assert(items_handed_out(fetch.drop_first()) == Seq::<T>::empty());
        }
        assert(fetch_count(fetch) == 1) by {
            assert(fetch_count(fetch.drop_first()) == 0);
        }
        assert(Seq::<T>::empty() + pages[0].0 =~= pages[0].0);
    }
}

/// A listing whose pages all return a cursor but the last, which returns
/// none (absent or empty), is handed out as: for each page in order, one
/// fetch with the cursor that the page before returned (none for the first)
/// followed by the page's items in the server's order; then the end. No
/// further fetch is made, whatever else could have been answered.
pub proof fn lemma_complete_listing<T>(
    pages: Seq<PageView<T>>,
    last: PageView<T>,
    unused: Seq<Result<PageView<T>, JulesError>>,
)
    requires
        all_continue(pages),
        next_cursor(last.1) is None,
    ensures
        run(PagerView::Fetching(None), answered(pages.push(last)) + unused) == pages_steps(pages.push(last), None)
            + seq![StepView::End],
        fetch_count(run(PagerView::Fetching(None), answered(pages.push(last)) + unused)) == pages.len() + 1,
        items_handed_out(run(PagerView::Fetching(None), answered(pages.push(last)) + unused)) == all_items(
            pages.push(last),
        ),
{
    lemma_counts_pages(pages.push(last), None);
    lemma_counts_append(pages_steps(pages.push(last), None), seq![StepView::<T>::End]);
    let end = seq![StepView::<T>::End];
    assert(end.drop_first() =~= Seq::<StepView<T>>::empty());
    assert(items_handed_out(end) =~= Seq::<T>::empty()) by {
        assert(items_handed_out(end.drop_first()) == Seq::<T>::empty());
    }
    assert(fetch_count(end) == 0) by {
        assert(fetch_count(end.drop_first()) == 0);
    }
    assert(pages.push(last).len() == pages.len() + 1);
    assert(all_items(pages.push(last)) + Seq::<T>::empty() =~= all_items(pages.push(last)));
    let c = cursor_after(pages, None);
    let rest = seq![Ok::<PageView<T>, JulesError>(last)] + unused;
    assert(answered(pages.push(last)) + unused =~= answered(pages) + rest);
    lemma_run_pages(pages, None, rest);
    lemma_run_pages_push(pages, last, None);
    lemma_run_items(last.0, None, unused);
    assert(rest[0] == Ok::<PageView<T>, JulesError>(last));
    assert(rest.drop_first() =~= unused);
    assert(run(PagerView::Fetching(c), rest) == seq![StepView::<T>::Fetch(c)] + run(
        PagerView::Emitting(last.0, None),
        unused,
    ));
    assert(run(PagerView::Emitting(Seq::<T>::empty(), None), unused) == seq![StepView::<T>::End]);
    assert(pages_steps(pages, None) + (seq![StepView::<T>::Fetch(c)] + (item_steps(last.0) + seq![StepView::<T>::End]))
        =~= pages_steps(pages.push(last), None) + seq![StepView::End]);
}

/// Where fetching fails after pages that all return a cursor, the session
/// hands out those pages' fetches and items in order, then the failing
/// fetch, then exactly one failure, then the end; nothing more is fetched.
pub proof fn lemma_failed_listing<T>(
    pages: Seq<PageView<T>>,
    error: JulesError,
    unused: Seq<Result<PageView<T>, JulesError>>,
)
    requires
        all_continue(pages),
    ensures
        run(PagerView::Fetching(None), answered(pages) + seq![Err(error)] + unused) == pages_steps(pages, None)
            + seq![StepView::Fetch(cursor_after(pages, None)), StepView::Failure(error), StepView::End],
{
    let c = cursor_after(pages, None);
    let rest = seq![Err::<PageView<T>, JulesError>(error)] + unused;
    assert(answered(pages) + seq![Err(error)] + unused =~= answered(pages) + rest);
    lemma_run_pages(pages, None, rest);
    assert(rest[0] == Err::<PageView<T>, JulesError>(error));
    assert(rest.drop_first() =~= unused);
    assert(run(PagerView::Fetching(c), rest) == seq![StepView::<T>::Fetch(c)] + run(
        PagerView::Failed(error),
        unused,
    ));
    assert(run(PagerView::<T>::Failed(error), unused) == seq![StepView::<T>::Failure(error)] + run(
        PagerView::Done,
        unused,
    ));
    assert(run(PagerView::<T>::Done, unused) == seq![StepView::<T>::End]);
    assert(pages_steps(pages, None) + (seq![StepView::<T>::Fetch(c)] + (seq![StepView::<T>::Failure(error)]
        + seq![StepView::<T>::End])) =~= pages_steps(pages, None) + seq![
        StepView::Fetch(cursor_after(pages, None)),
        StepView::Failure(error),
        StepView::End,
    ]);
}

} // verus!
