use vstd::prelude::*;
use crate::feed::{
    game_updates_for_team, lemma_end_repeats, lemma_fetch_repeats, lemma_fetches_stay_with_team,
    lemma_item_consumes, game_ids_of, Page, TeamUpdates, TeamView,
};
use crate::schema::{ChroniclerGameResponse, GameUpdateData};
use crate::stream::{FetchRequest, Listing, Pull};

verus! {

/// The status line of the update that ends a game.
pub const GAME_OVER: &'static str = "Game over.";

/// The update that ends a game; it is never handed to a reader of a session.
pub open spec fn is_game_over(u: GameUpdateData) -> bool {
    u.last_update@ == GAME_OVER@
}

/// What one call to a session ends with.
#[derive(Debug)]
pub enum Step {
    /// The next snapshot.
    Ready(GameUpdateData),
    /// No snapshot this time: the team has no updates at all, or its feed was
    /// replayed and found empty.
    NoData,
    /// The session cannot go on until this page is fetched and supplied.
    Fetch(FetchRequest),
}

/// The state of a session: the team, its feed, whether the feed has ever
/// yielded an update, and whether the feed was rebuilt within the call in
/// progress and has yielded nothing since.
pub ghost struct SessionView {
    pub team: u128,
    pub stream: TeamView,
    pub started: bool,
    pub replaying: bool,
}

impl SessionView {
    /// A session that has fetched nothing yet.
    pub open spec fn fresh(team: u128) -> SessionView {
        SessionView { team, stream: TeamView::fresh(team), started: false, replaying: false }
    }

    /// The feed is the team's own, a feed is rebuilt only after an update was
    /// seen, and a call stops mid-replay only to wait for a page.
    pub open spec fn wf(self) -> bool {
        &&& self.stream.wf()
        &&& self.stream.team == self.team
        &&& self.replaying ==> self.started
        &&& self.replaying ==> self.stream.pull_step().0 is Fetch
    }

    /// Bound on the steps of a call.
    pub open spec fn measure(self) -> nat {
        2 * self.stream.buffered() + if self.replaying { 0nat } else { 1nat }
    }

    /// One pull of the feed, with no restart: an update marks the session
    /// started; an ended feed gives no data.
    pub open spec fn pulled_once(self) -> (Step, SessionView) {
        let (p, s) = self.stream.pull_step();
        match p {
            Pull::Item(u) => (
                Step::Ready(u),
                SessionView { stream: s, started: true, replaying: false, ..self },
            ),
            Pull::Fetch(r) => (Step::Fetch(r), SessionView { stream: s, ..self }),
            Pull::End => (Step::NoData, SessionView { stream: s, replaying: false, ..self }),
        }
    }

    /// The feed ends here, after updates were seen, and was not rebuilt in this call.
    pub open spec fn must_restart(self) -> bool {
        &&& self.stream.pull_step().0 is End
        &&& self.started
        &&& !self.replaying
    }

    /// One pull of the session, the update that ends a game included. When
    /// the feed ends, a session that never saw an update has no data; any other
    /// rebuilds its feed from the start and pulls once from it, unless it
    /// rebuilt it already within this call.
    pub open spec fn step(self) -> (Step, SessionView) {
        if self.must_restart() {
            SessionView { stream: TeamView::fresh(self.team), replaying: true, ..self }.pulled_once()
        } else {
            self.pulled_once()
        }
    }

    /// One call: pull, skipping the update that ends a game, until a snapshot
    /// comes, there is no data, or a page is needed.
    pub open spec fn run(self) -> (Step, SessionView)
        decreases self.measure(),
        via Self::run_decreases
    {
        let (r, w) = self.step();
        if r matches Step::Ready(u) && is_game_over(u) {
            w.run()
        } else {
            (r, w)
        }
    }

    #[via_fn]
    proof fn run_decreases(self) {
        lemma_step_consumes(self);
    }

    /// The session once `page` is supplied to its feed.
    pub open spec fn with_page(self, page: Page) -> SessionView {
        SessionView { stream: self.stream.with_page(page), ..self }
    }
}

/// A pull that yields an update lowers the number of updates buffered.
proof fn lemma_step_consumes(v: SessionView)
    ensures
        v.step().0 is Ready ==> v.step().1.measure() < v.measure(),
{
    lemma_item_consumes(v.stream);
    let f = TeamView::fresh(v.team);
    assert(f.pull_step().0 is Fetch);
}

/// One pull keeps the feed the team's own; it leaves a well-formed session
/// whenever it answers.
proof fn lemma_step_wf(v: SessionView)
    requires
        v.stream.wf(),
        v.stream.team == v.team,
        v.replaying ==> v.started,
    ensures
        v.step().1.stream.wf(),
        v.step().1.team == v.team,
        v.step().1.stream.team == v.team,
        v.step().1.replaying ==> v.step().1.started,
        v.step().0 is Fetch ==> v.step().1.wf(),
        !(v.step().0 is Fetch) ==> !v.step().1.replaying,
{
    let f = TeamView::fresh(v.team);
    lemma_item_consumes(v.stream);
    lemma_fetch_repeats(v.stream);
    assert(f.pull_step() == (
        Pull::<GameUpdateData>::Fetch(FetchRequest { listing: Listing::TeamGames, key: v.team, cursor: None }),
        f,
    ));
}

/// A call leaves a session well formed, given only that its feed is the team's
/// own and that it rebuilt the feed only after an update was seen.
pub proof fn lemma_run_wf(v: SessionView)
    requires
        v.stream.wf(),
        v.stream.team == v.team,
        v.replaying ==> v.started,
    ensures
        v.run().1.wf(),
        v.run().1.team == v.team,
    decreases v.measure(),
{
    lemma_step_consumes(v);
    lemma_step_wf(v);
    let (r, w) = v.step();
    if r matches Step::Ready(u) && is_game_over(u) {
        lemma_run_wf(w);
    }
}

/// A session never hands out the update that ends a game.
pub proof fn lemma_game_over_hidden(v: SessionView)
    ensures
        v.run().0 matches Step::Ready(u) ==> !is_game_over(u),
    decreases v.measure(),
{
    lemma_step_consumes(v);
    let (r, w) = v.step();
    if r matches Step::Ready(u) && is_game_over(u) {
        lemma_game_over_hidden(w);
    }
}

/// A session asks only for its own team's game listing, or for the updates
/// of a game.
pub proof fn lemma_session_fetches_own_team(v: SessionView)
    requires
        v.wf(),
    ensures
        v.run().0 matches Step::Fetch(r) ==> (r.listing == Listing::TeamGames && r.key == v.team)
            || r.listing == Listing::GameUpdates,
    decreases v.measure(),
{
    lemma_step_consumes(v);
    lemma_step_wf(v);
    lemma_fetches_stay_with_team(v.stream);
    let f = TeamView::fresh(v.team);
    assert(f.pull_step().0 is Fetch);
    let (r, w) = v.step();
    if r matches Step::Ready(u) && is_game_over(u) {
        lemma_session_fetches_own_team(w);
    }
}

/// Replay: once a session has yielded an update and its feed has ended, the
/// next call starts the feed over, asking for the team's game listing without
/// a cursor.
pub proof fn lemma_replay_on_exhaustion(v: SessionView)
    requires
        v.wf(),
        v.started,
        v.stream.pull_step().0 is End,
    ensures
        v.run().0 == Step::Fetch(FetchRequest { listing: Listing::TeamGames, key: v.team, cursor: None }),
        v.run().1.stream == TeamView::fresh(v.team),
{
    let f = TeamView::fresh(v.team);
    let r = FetchRequest { listing: Listing::TeamGames, key: v.team, cursor: None };
    assert(f.pull_step() == (Pull::<GameUpdateData>::Fetch(r), f));
}

/// No data is final: a session that never yielded an update and whose feed has
/// ended answers no data, and stays in a state where the next call does the same.
pub proof fn lemma_no_data_is_final(v: SessionView)
    requires
        v.wf(),
        !v.started,
        v.stream.pull_step().0 is End,
    ensures
        v.run().0 is NoData,
        v.run().1.wf(),
        !v.run().1.started,
        v.run().1.stream.pull_step().0 is End,
{
    lemma_step_wf(v);
    lemma_end_repeats(v.stream);
}

/// A team whose game listing comes back empty, without a next page, on the
/// first fetch has no data: the first call asks for that page, goes on to no
/// data once it is supplied, and leaves the session where every later call
/// answers no data too.
pub proof fn lemma_empty_team_has_no_data(team: u128, resp: ChroniclerGameResponse)
    requires
        resp.data@.len() == 0,
        resp.next_page is None,
    ensures
        ({
            let (r1, v1) = SessionView::fresh(team).run();
            let (r2, v2) = v1.with_page(Page::Games(resp)).run();
            &&& r1 == Step::Fetch(FetchRequest { listing: Listing::TeamGames, key: team, cursor: None })
            &&& r2 is NoData
            &&& v2.wf()
            &&& !v2.started
            &&& v2.stream.pull_step().0 is End
        }),
{
    let v0 = SessionView::fresh(team);
    let f = TeamView::fresh(team);
    let r = FetchRequest { listing: Listing::TeamGames, key: team, cursor: None };
    assert(f.pull_step() == (Pull::<GameUpdateData>::Fetch(r), f));
    assert(v0.run() == (Step::Fetch(r), v0));
    let v1 = v0.with_page(Page::Games(resp));
    assert(game_ids_of(resp) =~= Seq::<u128>::empty());
    assert(v1.stream.pull_step().0 is End);
    assert(v1.wf());
    lemma_no_data_is_final(v1);
}

/// One team's never-ending feed of snapshots.
pub struct GameStates {
    team: u128,
    stream: TeamUpdates,
    started: bool,
    replaying: bool,
}

impl View for GameStates {
    type V = SessionView;

    closed spec fn view(&self) -> SessionView {
        SessionView {
            team: self.team,
            stream: self.stream@,
            started: self.started,
            replaying: self.replaying,
        }
    }
}

fn is_game_over_exec(u: &GameUpdateData) -> (r: bool)
    ensures
        r == is_game_over(*u),
{
    let text = String::from_str(GAME_OVER);
    u.last_update == text
}

impl GameStates {
    /// A session for `team`, reading its feed from the start.
    pub fn new(team: u128) -> (r: GameStates)
        ensures
            r@ == SessionView::fresh(team),
            r@.wf(),
    {
        GameStates { team, stream: game_updates_for_team(team), started: false, replaying: false }
    }

    /// The team this session reads.
    pub fn team(&self) -> (r: u128)
        ensures
            r == self@.team,
    {
        self.team
    }

    /// Starts a call: the next snapshot, no data, or the page that is needed
    /// first. After a failed fetch the session is as it was, and asks again.
    pub fn next(&mut self) -> (r: Step)
        requires
            old(self)@.wf(),
        ensures
            (r, final(self)@) == old(self)@.run(),
            final(self)@.wf(),
            final(self)@.team == old(self)@.team,
    {
        self.run()
    }

    /// One pull, the update that ends a game included, rebuilding the feed
    /// once if it ended after updates were seen.
    pub fn next_inner(&mut self) -> (r: Step)
        requires
            old(self)@.stream.wf(),
            old(self)@.stream.team == old(self)@.team,
            old(self)@.replaying ==> old(self)@.started,
        ensures
            (r, final(self)@) == old(self)@.step(),
            final(self)@.wf(),
            final(self)@.team == old(self)@.team,
    {
        proof {
            lemma_step_wf(self@);
        }
        let replaying = self.replaying;
        let r = self.pull_once();
        if let Step::NoData = r {
            if self.started && !replaying {
                self.stream = game_updates_for_team(self.team);
                self.replaying = true;
                return self.pull_once();
            }
        }
        r
    }

    fn pull_once(&mut self) -> (r: Step)
        ensures
            (r, final(self)@) == old(self)@.pulled_once(),
    {
        match self.stream.pull() {
            Pull::Item(u) => {
                self.started = true;
                self.replaying = false;
                Step::Ready(u)
            },
            Pull::Fetch(r) => Step::Fetch(r),
            Pull::End => {
                self.replaying = false;
                Step::NoData
            },
        }
    }

    /// True when the session waits for this kind of page.
    pub fn accepts(&self, page: &Page) -> (r: bool)
        ensures
            r == self@.stream.accepts(*page),
    {
        self.stream.accepts(page)
    }

    /// Goes on with a call, once the page it asked for has been fetched.
    pub fn supply(&mut self, page: Page) -> (r: Step)
        requires
            old(self)@.wf(),
            old(self)@.stream.accepts(page),
        ensures
            (r, final(self)@) == old(self)@.with_page(page).run(),
            final(self)@.wf(),
            final(self)@.team == old(self)@.team,
    {
        self.stream.supply(page);
        self.run()
    }

    fn run(&mut self) -> (r: Step)
        requires
            old(self)@.stream.wf(),
            old(self)@.stream.team == old(self)@.team,
            old(self)@.replaying ==> old(self)@.started,
        ensures
            (r, final(self)@) == old(self)@.run(),
            final(self)@.wf(),
            final(self)@.team == old(self)@.team,
    {
        proof {
            lemma_run_wf(self@);
        }
        loop
            invariant
                self@.run() == old(self)@.run(),
                old(self)@.run().1.wf(),
                old(self)@.run().1.team == old(self)@.team,
                self@.stream.wf(),
                self@.stream.team == self@.team,
                self@.replaying ==> self@.started,
            decreases self@.measure(),
        {
            let ghost before = self@;
            proof {
                lemma_step_consumes(before);
                lemma_step_wf(before);
            }
            let r = self.next_inner();
            let skip = match &r {
                Step::Ready(u) => is_game_over_exec(u),
                _ => false,
            };
            if !skip {
                return r;
            }
        }
    }
}

} // verus!
