use vstd::prelude::*;
use crate::schema::{ChroniclerGame, ChroniclerGameResponse, ChroniclerGameUpdate, ChroniclerGameUpdatesResponse, GameUpdateData};
use crate::stream::{clone_cursor, EventStream, Listing, Pull, StreamView};

verus! {

/// A fetched page, of either listing.
#[derive(Debug)]
pub enum Page {
    Games(ChroniclerGameResponse),
    Updates(ChroniclerGameUpdatesResponse),
}

/// The items that a page of the game listing hands to its stream.
pub open spec fn game_ids_of(resp: ChroniclerGameResponse) -> Seq<u128> {
    resp.data@.map_values(|g: ChroniclerGame| g.game_id)
}

/// The items that a page of an update listing hands to its stream.
pub open spec fn snapshots_of(resp: ChroniclerGameUpdatesResponse) -> Seq<GameUpdateData> {
    resp.data@.map_values(|u: ChroniclerGameUpdate| u.data)
}

/// The state of a team's update feed: the stream of the team's games, and the
/// update stream of the game being read, if any.
pub ghost struct TeamView {
    pub team: u128,
    pub games: StreamView<u128>,
    pub current: Option<StreamView<GameUpdateData>>,
}

impl TeamView {
    /// A feed that has fetched nothing yet.
    pub open spec fn fresh(team: u128) -> TeamView {
        TeamView { team, games: StreamView::fresh(Listing::TeamGames, team), current: None }
    }

    /// Reads the team's game listing, and an update listing for each game.
    pub open spec fn wf(self) -> bool {
        &&& self.games.listing == Listing::TeamGames
        &&& self.games.key == self.team
        &&& self.current matches Some(c) ==> c.listing == Listing::GameUpdates
    }

    /// Bound on the steps a pull takes.
    pub open spec fn measure(self) -> nat {
        2 * self.games.pending.len() + if self.current is Some { 1nat } else { 0nat }
    }

    /// Number of updates buffered in the game being read.
    pub open spec fn buffered(self) -> nat {
        match self.current {
            Some(c) => c.pending.len(),
            None => 0,
        }
    }

    /// One pull of the feed: the game being read yields its updates; once it is
    /// exhausted the next game of the listing is opened; the feed ends with the
    /// game listing.
    pub open spec fn pull_step(self) -> (Pull<GameUpdateData>, TeamView)
        decreases self.measure(),
    {
        match self.current {
            Some(c) => if !c.ended() {
                (c.pulled(), TeamView { current: Some(c.after_pull()), ..self })
            } else {
                TeamView { current: None, ..self }.pull_step()
            },
            None => match self.games.pulled() {
                Pull::Item(g) => TeamView {
                    games: self.games.after_pull(),
                    current: Some(StreamView::fresh(Listing::GameUpdates, g)),
                    ..self
                }.pull_step(),
                Pull::Fetch(r) => (Pull::Fetch(r), self),
                Pull::End => (Pull::End, self),
            },
        }
    }

    /// The feed waits for exactly this kind of page.
    pub open spec fn accepts(self, page: Page) -> bool {
        match page {
            Page::Games(_) => self.current is None && self.games.awaiting(),
            Page::Updates(_) => match self.current {
                Some(c) => c.awaiting(),
                None => false,
            },
        }
    }

    /// The feed once `page` is supplied to the stream that asked for it.
    pub open spec fn with_page(self, page: Page) -> TeamView {
        match page {
            Page::Games(resp) => TeamView {
                games: self.games.with_page(game_ids_of(resp), resp.next_page),
                ..self
            },
            Page::Updates(resp) => TeamView {
                current: Some(self.current.unwrap().with_page(snapshots_of(resp), resp.next_page)),
                ..self
            },
        }
    }
}

/// A pull yields an update only out of the game being read, and so lowers the
/// number of updates buffered there.
pub proof fn lemma_item_consumes(v: TeamView)
    ensures
        v.pull_step().0 is Item ==> v.pull_step().1.buffered() < v.buffered(),
        v.wf() ==> v.pull_step().1.wf(),
        v.pull_step().1.team == v.team,
    decreases v.measure(),
{
    match v.current {
        Some(c) => if c.ended() {
            lemma_item_consumes(TeamView { current: None, ..v });
        },
        None => match v.games.pulled() {
            Pull::Item(g) => {
                let w = TeamView {
                    games: v.games.after_pull(),
                    current: Some(StreamView::fresh(Listing::GameUpdates, g)),
                    ..v
                };
                lemma_item_consumes(w);
                assert(w.pull_step().0 is Fetch);
            },
            _ => {},
        },
    }
}

/// Every page that a team's feed asks for is of its own game listing, or of
/// the update listing of a game.
pub proof fn lemma_fetches_stay_with_team(v: TeamView)
    requires
        v.wf(),
    ensures
        v.pull_step().0 matches Pull::Fetch(r) ==> (r.listing == Listing::TeamGames && r.key
            == v.team) || r.listing == Listing::GameUpdates,
    decreases v.measure(),
{
    match v.current {
        Some(c) => if c.ended() {
            lemma_fetches_stay_with_team(TeamView { current: None, ..v });
        },
        None => match v.games.pulled() {
            Pull::Item(g) => {
                lemma_fetches_stay_with_team(TeamView {
                    games: v.games.after_pull(),
                    current: Some(StreamView::fresh(Listing::GameUpdates, g)),
                    ..v
                });
            },
            _ => {},
        },
    }
}

/// A pull that asks for a page leaves the feed asking for that page.
pub proof fn lemma_fetch_repeats(v: TeamView)
    ensures
        v.pull_step().0 is Fetch ==> v.pull_step().1.pull_step() == v.pull_step(),
    decreases v.measure(),
{
    match v.current {
        Some(c) => if c.ended() {
            lemma_fetch_repeats(TeamView { current: None, ..v });
        },
        None => match v.games.pulled() {
            Pull::Item(g) => {
                lemma_fetch_repeats(TeamView {
                    games: v.games.after_pull(),
                    current: Some(StreamView::fresh(Listing::GameUpdates, g)),
                    ..v
                });
            },
            _ => {},
        },
    }
}

/// A pull that ends the feed leaves it ended.
pub proof fn lemma_end_repeats(v: TeamView)
    ensures
        v.pull_step().0 is End ==> v.pull_step().1.pull_step().0 is End,
    decreases v.measure(),
{
    match v.current {
        Some(c) => if c.ended() {
            lemma_end_repeats(TeamView { current: None, ..v });
        },
        None => match v.games.pulled() {
            Pull::Item(g) => {
                let w = TeamView {
                    games: v.games.after_pull(),
                    current: Some(StreamView::fresh(Listing::GameUpdates, g)),
                    ..v
                };
                lemma_end_repeats(w);
            },
            _ => {},
        },
    }
}

/// The stream of a team's games, read from the start.
pub fn games_for_team(team: u128) -> (r: EventStream<u128>)
    ensures
        r@ == StreamView::<u128>::fresh(Listing::TeamGames, team),
{
    EventStream::new(Listing::TeamGames, team)
}

/// The stream of a game's updates, read from the start.
pub fn game_updates_for_game(game_id: u128) -> (r: EventStream<GameUpdateData>)
    ensures
        r@ == StreamView::<GameUpdateData>::fresh(Listing::GameUpdates, game_id),
{
    EventStream::new(Listing::GameUpdates, game_id)
}

/// The updates of every game of a team, game after game, read from the start.
pub fn game_updates_for_team(team: u128) -> (r: TeamUpdates)
    ensures
        r@ == TeamView::fresh(team),
{
    TeamUpdates {
        team,
        games: games_for_team(team),
        current: game_updates_for_game(0),
        has_current: false,
    }
}

/// The updates of all of a team's games, as one stream.
pub struct TeamUpdates {
    team: u128,
    games: EventStream<u128>,
    current: EventStream<GameUpdateData>,
    has_current: bool,
}

impl View for TeamUpdates {
    type V = TeamView;

    closed spec fn view(&self) -> TeamView {
        TeamView {
            team: self.team,
            games: self.games@,
            current: if self.has_current { Some(self.current@) } else { None },
        }
    }
}

impl TeamUpdates {
    /// Pulls the next update of the team, or says which page is needed, or that
    /// every game has been read.
    pub fn pull(&mut self) -> (r: Pull<GameUpdateData>)
        ensures
            (r, final(self)@) == old(self)@.pull_step(),
    {
        loop
            invariant
                self@.pull_step() == old(self)@.pull_step(),
            decreases self@.measure(),
        {
            if self.has_current {
                if !self.current.is_ended() {
                    return self.current.pull();
                }
                self.has_current = false;
            } else {
                match self.games.pull() {
                    Pull::Item(g) => {
                        self.current = game_updates_for_game(g);
                        self.has_current = true;
                    },
                    Pull::Fetch(req) => {
                        return Pull::Fetch(req);
                    },
                    Pull::End => {
                        return Pull::End;
                    },
                }
            }
        }
    }

    /// True when the feed waits for this kind of page.
    pub fn accepts(&self, page: &Page) -> (r: bool)
        ensures
            r == self@.accepts(*page),
    {
        match page {
            Page::Games(_) => !self.has_current && self.games.is_awaiting(),
            Page::Updates(_) => self.has_current && self.current.is_awaiting(),
        }
    }

    /// Hands the feed the page it asked for.
    pub fn supply(&mut self, page: Page)
        requires
            old(self)@.accepts(page),
        ensures
            final(self)@ == old(self)@.with_page(page),
    {
        match page {
            Page::Games(resp) => {
                let ids = resp.game_ids();
                self.games.supply(ids, resp.next_page);
            },
            Page::Updates(resp) => {
                let next_page = clone_cursor(&resp.next_page);
                let items = resp.snapshots();
                self.current.supply(items, next_page);
            },
        }
    }
}

} // verus!
