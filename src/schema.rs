use vstd::prelude::*;

verus! {

/// Number of bases a side plays with when the snapshot does not say.
pub const DEFAULT_BASES: i32 = 4;

/// Number of balls for a walk when the snapshot does not say.
pub const DEFAULT_BALLS: i32 = 4;

/// Number of strikes for a strikeout when the snapshot does not say.
pub const DEFAULT_STRIKES: i32 = 3;

/// Number of outs in a half-inning when the snapshot does not say.
pub const DEFAULT_OUTS: i32 = 3;

/// The value taken by a side-aware accessor: the away-side field while the away
/// side is acting (top of the inning), else the home-side field.
pub open spec fn side_field<T>(away_acting: bool, away: T, home: T) -> T {
    if away_acting { away } else { home }
}

/// One observation of a live game.
///
/// Identifiers are 128-bit values (the numeric form of a UUID).
#[derive(Clone, Debug)]
pub struct GameUpdateData {
    pub id: u128,
    /// True while the away side is batting (the top of an inning).
    pub top_of_inning: bool,
    pub home_bases: Option<i32>,
    pub home_balls: Option<i32>,
    pub home_strikes: Option<i32>,
    pub home_outs: Option<i32>,
    pub away_bases: Option<i32>,
    pub away_balls: Option<i32>,
    pub away_strikes: Option<i32>,
    pub away_outs: Option<i32>,
    pub bases_occupied: Vec<i32>,
    pub at_bat_balls: i32,
    pub at_bat_strikes: i32,
    pub half_inning_outs: i32,
    pub home_batter_name: Option<String>,
    pub home_pitcher_name: Option<String>,
    pub away_batter_name: Option<String>,
    pub away_pitcher_name: Option<String>,
    pub home_team_color: Option<String>,
    pub away_team_color: Option<String>,
    pub last_update: String,
}

impl GameUpdateData {
    /// Number of bases of the acting side.
    pub fn num_bases(&self) -> (r: i32)
        ensures
            r == side_field(self.top_of_inning, self.away_bases, self.home_bases).unwrap_or(
                DEFAULT_BASES,
            ),
    {
        if self.top_of_inning {
            self.away_bases.unwrap_or(DEFAULT_BASES)
        } else {
            self.home_bases.unwrap_or(DEFAULT_BASES)
        }
    }

    /// Number of outs that end a half-inning for the acting side.
    pub fn max_outs(&self) -> (r: i32)
        ensures
            r == side_field(self.top_of_inning, self.away_outs, self.home_outs).unwrap_or(
                DEFAULT_OUTS,
            ),
    {
        if self.top_of_inning {
            self.away_outs.unwrap_or(DEFAULT_OUTS)
        } else {
            self.home_outs.unwrap_or(DEFAULT_OUTS)
        }
    }

    /// Number of balls that make a walk for the acting side.
    pub fn max_balls(&self) -> (r: i32)
        ensures
            r == side_field(self.top_of_inning, self.away_balls, self.home_balls).unwrap_or(
                DEFAULT_BALLS,
            ),
    {
        if self.top_of_inning {
            self.away_balls.unwrap_or(DEFAULT_BALLS)
        } else {
            self.home_balls.unwrap_or(DEFAULT_BALLS)
        }
    }

    /// Number of strikes that make a strikeout for the acting side.
    pub fn max_strikes(&self) -> (r: i32)
        ensures
            r == side_field(self.top_of_inning, self.away_strikes, self.home_strikes).unwrap_or(
                DEFAULT_STRIKES,
            ),
    {
        if self.top_of_inning {
            self.away_strikes.unwrap_or(DEFAULT_STRIKES)
        } else {
            self.home_strikes.unwrap_or(DEFAULT_STRIKES)
        }
    }

    /// Name of the acting side's batter.
    pub fn current_batter_name(&self) -> (r: &Option<String>)
        ensures
            *r == side_field(self.top_of_inning, self.away_batter_name, self.home_batter_name),
    {
        if self.top_of_inning {
            &self.away_batter_name
        } else {
            &self.home_batter_name
        }
    }

    /// Name of the acting side's pitcher.
    pub fn current_pitcher_name(&self) -> (r: &Option<String>)
        ensures
            *r == side_field(self.top_of_inning, self.away_pitcher_name, self.home_pitcher_name),
    {
        if self.top_of_inning {
            &self.away_pitcher_name
        } else {
            &self.home_pitcher_name
        }
    }

    /// Color of the batting side: the away side's while it is acting.
    pub fn batting_team_color(&self) -> (r: &Option<String>)
        ensures
            *r == side_field(self.top_of_inning, self.away_team_color, self.home_team_color),
    {
        if self.top_of_inning {
            &self.away_team_color
        } else {
            &self.home_team_color
        }
    }

    /// Color of the pitching side: the home side's while the away side is acting.
    pub fn pitching_team_color(&self) -> (r: &Option<String>)
        ensures
            *r == side_field(self.top_of_inning, self.home_team_color, self.away_team_color),
    {
        if self.top_of_inning {
            &self.home_team_color
        } else {
            &self.away_team_color
        }
    }
}

/// One entry of a team's game listing.
#[derive(Clone, Copy, Debug)]
pub struct ChroniclerGame {
    pub game_id: u128,
}

/// One page of a team's game listing.
#[derive(Clone, Debug)]
pub struct ChroniclerGameResponse {
    /// Cursor of the following page; absent on the last page.
    pub next_page: Option<String>,
    pub data: Vec<ChroniclerGame>,
}

/// One timestamped update of a game.
#[derive(Clone, Debug)]
pub struct ChroniclerGameUpdate {
    pub game_id: u128,
    /// Milliseconds since the Unix epoch, UTC.
    pub timestamp: i64,
    pub data: GameUpdateData,
}

/// One page of a game's update listing.
#[derive(Clone, Debug)]
pub struct ChroniclerGameUpdatesResponse {
    /// Cursor of the following page; absent on the last page.
    pub next_page: Option<String>,
    pub data: Vec<ChroniclerGameUpdate>,
}

impl ChroniclerGameResponse {
    /// The game identifiers of the page, in order.
    pub fn game_ids(&self) -> (r: Vec<u128>)
        ensures
            r@ == self.data@.map_values(|g: ChroniclerGame| g.game_id),
    {
        let mut r: Vec<u128> = Vec::new();
        let n = self.data.len();
        for i in 0..n
            invariant
                n == self.data@.len(),
                r@ == self.data@.subrange(0, i as int).map_values(|g: ChroniclerGame| g.game_id),
        {
            r.push(self.data[i].game_id);
            assert(self.data@.subrange(0, i + 1).map_values(|g: ChroniclerGame| g.game_id)
                =~= self.data@.subrange(0, i as int).map_values(|g: ChroniclerGame| g.game_id).push(self.data@[i as int].game_id));
        }
        assert(self.data@.subrange(0, n as int) =~= self.data@);
        r
    }
}

impl ChroniclerGameUpdatesResponse {
    /// The snapshots carried by the page's updates, in order.
    pub fn snapshots(self) -> (r: Vec<GameUpdateData>)
        ensures
            r@ == self.data@.map_values(|u: ChroniclerGameUpdate| u.data),
    {
        let ghost all = self.data@;
        let mut rest = self.data;
        let mut r: Vec<GameUpdateData> = Vec::new();
        while rest.len() > 0
            invariant
                r@ + rest@.map_values(|u: ChroniclerGameUpdate| u.data) == all.map_values(
                    |u: ChroniclerGameUpdate| u.data,
                ),
            decreases rest@.len(),
        {
            let ghost before = rest@;
            let u = rest.remove(0);
            assert(before.map_values(|u: ChroniclerGameUpdate| u.data) =~= seq![u.data]
                + rest@.map_values(|u: ChroniclerGameUpdate| u.data));
            r.push(u.data);
            assert(r@ + rest@.map_values(|u: ChroniclerGameUpdate| u.data) =~= all.map_values(
                |u: ChroniclerGameUpdate| u.data,
            ));
        }
        assert(rest@.map_values(|u: ChroniclerGameUpdate| u.data) =~= Seq::<GameUpdateData>::empty());
        assert(r@ + rest@.map_values(|u: ChroniclerGameUpdate| u.data) =~= r@);
        r
    }
}

} // verus!
