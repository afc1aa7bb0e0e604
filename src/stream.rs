use vstd::prelude::*;

verus! {

/// The two paginated listings of the remote event API.
#[derive(Clone, Copy, Debug, PartialEq, Eq, Structural)]
pub enum Listing {
    /// The games that a team took part in, keyed by the team.
    TeamGames,
    /// The timestamped updates of one game, keyed by the game.
    GameUpdates,
}

/// One page request: which listing, for which resource, resuming where.
///
/// `cursor` is `None` on the first request of a pagination sequence; the
/// listing is always requested in ascending order.
#[derive(Clone, Debug)]
pub struct FetchRequest {
    pub listing: Listing,
    pub key: u128,
    pub cursor: Option<String>,
}

/// What one pull from a stream produces.
#[derive(Debug)]
pub enum Pull<T> {
    /// The next item.
    Item(T),
    /// The stream cannot go on until this page is fetched and supplied.
    Fetch(FetchRequest),
    /// The listing is exhausted; the stream stays ended.
    End,
}

/// The state of a paginated stream: where it reads, the cursor of the next
/// page, whether the last page has been received, and the items of the
/// current page that have not been pulled yet.
pub ghost struct StreamView<T> {
    pub listing: Listing,
    pub key: u128,
    pub cursor: Option<String>,
    pub stop: bool,
    pub pending: Seq<T>,
}

impl<T> StreamView<T> {
    /// A stream that has fetched nothing yet.
    pub open spec fn fresh(listing: Listing, key: u128) -> StreamView<T> {
        StreamView { listing, key, cursor: None, stop: false, pending: Seq::empty() }
    }

    /// The current page is drained and another one must be fetched.
    pub open spec fn awaiting(self) -> bool {
        self.pending.len() == 0 && !self.stop
    }

    /// The current page is drained and it was the last one.
    pub open spec fn ended(self) -> bool {
        self.pending.len() == 0 && self.stop
    }

    /// The request for the next page.
    pub open spec fn request(self) -> FetchRequest {
        FetchRequest { listing: self.listing, key: self.key, cursor: self.cursor }
    }

    /// What the next pull produces.
    pub open spec fn pulled(self) -> Pull<T> {
        if self.pending.len() > 0 {
            Pull::Item(self.pending[0])
        } else if !self.stop {
            Pull::Fetch(self.request())
        } else {
            Pull::End
        }
    }

    /// The state after the next pull.
    pub open spec fn after_pull(self) -> StreamView<T> {
        if self.pending.len() > 0 {
            StreamView { pending: self.pending.drop_first(), ..self }
        } else {
            self
        }
    }

    /// The state once a fetched page of `items`, followed by `next_page`, is
    /// supplied: the page is buffered, and an absent cursor ends the listing.
    pub open spec fn with_page(self, items: Seq<T>, next_page: Option<String>) -> StreamView<T> {
        StreamView { cursor: next_page, stop: next_page is None, pending: items, ..self }
    }

    /// The results of `n` successive pulls.
    pub open spec fn pulls(self, n: nat) -> Seq<Pull<T>>
        decreases n,
    {
        if n == 0 {
            Seq::empty()
        } else {
            seq![self.pulled()] + self.after_pull().pulls((n - 1) as nat)
        }
    }
}

/// A lazy, single-pass stream over one paginated listing.
///
/// Pages are fetched one at a time, only once the previous page is drained;
/// items come out in the order the server returned them, page after page.
pub struct EventStream<T> {
    listing: Listing,
    key: u128,
    cursor: Option<String>,
    stop: bool,
    pending: Vec<T>,
}

impl<T> View for EventStream<T> {
    type V = StreamView<T>;

    closed spec fn view(&self) -> StreamView<T> {
        StreamView {
            listing: self.listing,
            key: self.key,
            cursor: self.cursor,
            stop: self.stop,
            pending: self.pending@,
        }
    }
}

pub(crate) fn clone_cursor(c: &Option<String>) -> (r: Option<String>)
    ensures
        r == *c,
{
    match c {
        Some(s) => Some(s.clone()),
        None => None,
    }
}

impl<T> EventStream<T> {
    /// A stream over `listing` for resource `key`, starting before its first page.
    pub fn new(listing: Listing, key: u128) -> (r: EventStream<T>)
        ensures
            r@ == StreamView::<T>::fresh(listing, key),
    {
        EventStream { listing, key, cursor: None, stop: false, pending: Vec::new() }
    }

    /// True when the stream waits for the next page of its listing.
    pub fn is_awaiting(&self) -> (r: bool)
        ensures
            r == self@.awaiting(),
    {
        self.pending.len() == 0 && !self.stop
    }

    /// True when the listing is exhausted.
    pub fn is_ended(&self) -> (r: bool)
        ensures
            r == self@.ended(),
    {
        self.pending.len() == 0 && self.stop
    }

    /// Pulls the next item, or says which page is needed, or that the listing ended.
    pub fn pull(&mut self) -> (r: Pull<T>)
        ensures
            r == old(self)@.pulled(),
            final(self)@ == old(self)@.after_pull(),
    {
        if self.pending.len() > 0 {
            Pull::Item(self.pending.remove(0))
        } else if !self.stop {
            Pull::Fetch(FetchRequest { listing: self.listing, key: self.key, cursor: clone_cursor(&self.cursor) })
        } else {
            Pull::End
        }
    }

    /// Hands the stream the page it asked for.
    pub fn supply(&mut self, items: Vec<T>, next_page: Option<String>)
        requires
            old(self)@.awaiting(),
        ensures
            final(self)@ == old(self)@.with_page(items@, next_page),
    {
        self.stop = next_page.is_none();
        self.cursor = next_page;
        self.pending = items;
    }
}

/// Pulling from a stream whose current page is `pending` yields those items in
/// order, and then whatever the drained stream yields.
pub proof fn lemma_drain<T>(v: StreamView<T>)
    ensures
        v.pulls(v.pending.len() + 1) == v.pending.map_values(|x: T| Pull::Item(x)) + seq![
            StreamView { pending: Seq::empty(), ..v }.pulled(),
        ],
    decreases v.pending.len(),
{
    let n = v.pending.len();
    if n == 0 {
        assert(v.pending =~= Seq::<T>::empty());
        assert(v.pulls(1) =~= seq![v.pulled()] + v.after_pull().pulls(0));
        assert(v.pulls(1) =~= v.pending.map_values(|x: T| Pull::Item(x)) + seq![
            StreamView { pending: Seq::empty(), ..v }.pulled(),
        ]);
    } else {
        let w = v.after_pull();
        lemma_drain(w);
        assert(w.pending.len() + 1 == n);
        assert(v.pulls(n + 1) == seq![v.pulled()] + w.pulls(w.pending.len() + 1));
        assert(StreamView { pending: Seq::empty(), ..w } == StreamView { pending: Seq::<T>::empty(), ..v });
        assert(v.pulls(n + 1) =~= v.pending.map_values(|x: T| Pull::Item(x)) + seq![
            StreamView { pending: Seq::empty(), ..v }.pulled(),
        ]);
    }
}

/// Pagination: a fresh stream first asks for its listing without a cursor.
/// Once a page of `items` followed by `next_page` is supplied, the stream yields
/// exactly those items in order, and then asks for the page at `next_page`,
/// cursor included, or ends for good when `next_page` is absent.
pub proof fn lemma_pagination<T>(
    listing: Listing,
    key: u128,
    v: StreamView<T>,
    items: Seq<T>,
    next_page: Option<String>,
)
    requires
        v.awaiting(),
    ensures
        StreamView::<T>::fresh(listing, key).pulled() == Pull::<T>::Fetch(
            FetchRequest { listing, key, cursor: None },
        ),
        v.with_page(items, next_page).pulls(items.len() + 1) == items.map_values(
            |x: T| Pull::Item(x),
        ) + seq![
            match next_page {
                Some(c) => Pull::Fetch(
                    FetchRequest { listing: v.listing, key: v.key, cursor: Some(c) },
                ),
                None => Pull::End,
            },
        ],
{
    lemma_drain(v.with_page(items, next_page));
}

} // verus!
