use game_feed::feed::{game_updates_for_game, game_updates_for_team, games_for_team, Page};
use game_feed::schema::{
    ChroniclerGame, ChroniclerGameResponse, ChroniclerGameUpdate, ChroniclerGameUpdatesResponse,
    GameUpdateData,
};
use game_feed::session::{GameStates, Step};
use game_feed::store::SessionStore;
use game_feed::stream::{EventStream, FetchRequest, Listing, Pull};

fn snapshot(id: u128, status: &str) -> GameUpdateData {
    GameUpdateData {
        id,
        top_of_inning: true,
        home_bases: None,
        home_balls: None,
        home_strikes: None,
        home_outs: None,
        away_bases: None,
        away_balls: None,
        away_strikes: None,
        away_outs: None,
        bases_occupied: vec![],
        at_bat_balls: 0,
        at_bat_strikes: 0,
        half_inning_outs: 0,
        home_batter_name: None,
        home_pitcher_name: None,
        away_batter_name: None,
        away_pitcher_name: None,
        home_team_color: None,
        away_team_color: None,
        last_update: status.to_string(),
    }
}

fn games_page(ids: &[u128], next: Option<&str>) -> Page {
    Page::Games(ChroniclerGameResponse {
        next_page: next.map(|c| c.to_string()),
        data: ids.iter().map(|&game_id| ChroniclerGame { game_id }).collect(),
    })
}

fn updates_page(game_id: u128, items: Vec<GameUpdateData>, next: Option<&str>) -> Page {
    Page::Updates(ChroniclerGameUpdatesResponse {
        next_page: next.map(|c| c.to_string()),
        data: items
            .into_iter()
            .enumerate()
            .map(|(i, data)| ChroniclerGameUpdate { game_id, timestamp: i as i64, data })
            .collect(),
    })
}

fn is_fetch(step: &Step, listing: Listing, key: u128, cursor: Option<&str>) -> bool {
    match step {
        Step::Fetch(r) => r.listing == listing && r.key == key && r.cursor.as_deref() == cursor,
        _ => false,
    }
}

fn ready_id(step: &Step) -> Option<u128> {
    match step {
        Step::Ready(u) => Some(u.id),
        _ => None,
    }
}

fn pull_fetch(p: &Pull<u128>) -> Option<FetchRequest> {
    match p {
        Pull::Fetch(r) => Some(r.clone()),
        _ => None,
    }
}

#[test]
fn three_pages_drain_in_order_then_end() {
    let mut s: EventStream<u128> = EventStream::new(Listing::GameUpdates, 9);
    let r = pull_fetch(&s.pull()).unwrap();
    assert_eq!(r.cursor, None);
    assert_eq!(r.key, 9);
    assert_eq!(r.listing, Listing::GameUpdates);
    s.supply(vec![1, 2], Some("A".to_string()));
    assert!(matches!(s.pull(), Pull::Item(1)));
    assert!(matches!(s.pull(), Pull::Item(2)));
    let r = pull_fetch(&s.pull()).unwrap();
    assert_eq!(r.cursor.as_deref(), Some("A"));
    s.supply(vec![3], Some("B".to_string()));
    assert!(matches!(s.pull(), Pull::Item(3)));
    let r = pull_fetch(&s.pull()).unwrap();
    assert_eq!(r.cursor.as_deref(), Some("B"));
    s.supply(vec![4, 5], None);
    assert!(matches!(s.pull(), Pull::Item(4)));
    assert!(matches!(s.pull(), Pull::Item(5)));
    assert!(matches!(s.pull(), Pull::End));
    assert!(matches!(s.pull(), Pull::End));
    assert!(s.is_ended());
}

#[test]
fn empty_page_with_cursor_is_followed() {
    let mut s: EventStream<u128> = EventStream::new(Listing::TeamGames, 1);
    assert!(s.is_awaiting());
    s.supply(vec![], Some("A".to_string()));
    assert!(s.is_awaiting());
    let r = pull_fetch(&s.pull()).unwrap();
    assert_eq!(r.cursor.as_deref(), Some("A"));
    s.supply(vec![], None);
    assert!(matches!(s.pull(), Pull::End));
}

#[test]
fn stream_constructors_read_from_start() {
    let mut g = games_for_team(4);
    let r = pull_fetch(&g.pull()).unwrap();
    assert_eq!((r.listing, r.key, r.cursor), (Listing::TeamGames, 4, None));
    let mut u = game_updates_for_game(6);
    match u.pull() {
        Pull::Fetch(r) => assert_eq!((r.listing, r.key, r.cursor), (Listing::GameUpdates, 6, None)),
        _ => panic!("expected a fetch"),
    }
}

#[test]
fn team_feed_reads_each_game_in_turn() {
    let mut t = game_updates_for_team(1);
    match t.pull() {
        Pull::Fetch(r) => assert_eq!((r.listing, r.key, r.cursor), (Listing::TeamGames, 1, None)),
        _ => panic!("expected a fetch"),
    }
    let page = games_page(&[10, 20], None);
    assert!(t.accepts(&page));
    assert!(!t.accepts(&updates_page(10, vec![], None)));
    t.supply(page);
    match t.pull() {
        Pull::Fetch(r) => assert_eq!((r.listing, r.key), (Listing::GameUpdates, 10)),
        _ => panic!("expected a fetch"),
    }
    t.supply(updates_page(10, vec![snapshot(1, "a")], None));
    assert!(matches!(t.pull(), Pull::Item(u) if u.id == 1));
    match t.pull() {
        Pull::Fetch(r) => assert_eq!((r.listing, r.key, r.cursor), (Listing::GameUpdates, 20, None)),
        _ => panic!("expected a fetch"),
    }
    t.supply(updates_page(20, vec![snapshot(2, "b")], None));
    assert!(matches!(t.pull(), Pull::Item(u) if u.id == 2));
    assert!(matches!(t.pull(), Pull::End));
}

/// A session for team 1 whose only game 10 has `items` in one page.
fn session_with(items: Vec<GameUpdateData>) -> (GameStates, Step) {
    let mut s = GameStates::new(1);
    let step = s.next();
    assert!(is_fetch(&step, Listing::TeamGames, 1, None));
    let step = s.supply(games_page(&[10], None));
    assert!(is_fetch(&step, Listing::GameUpdates, 10, None));
    let step = s.supply(updates_page(10, items, None));
    (s, step)
}

#[test]
fn game_over_is_skipped() {
    let (mut s, step) =
        session_with(vec![snapshot(1, "first"), snapshot(2, "Game over."), snapshot(3, "third")]);
    assert_eq!(ready_id(&step), Some(1));
    assert_eq!(ready_id(&s.next()), Some(3));
}

#[test]
fn exhausted_session_replays_from_start() {
    let (mut s, step) = session_with(vec![snapshot(1, "first")]);
    assert_eq!(ready_id(&step), Some(1));
    let step = s.next();
    assert!(is_fetch(&step, Listing::TeamGames, 1, None));
    let step = s.supply(games_page(&[10], None));
    assert!(is_fetch(&step, Listing::GameUpdates, 10, None));
    let step = s.supply(updates_page(10, vec![snapshot(1, "first")], None));
    assert_eq!(ready_id(&step), Some(1));
}

#[test]
fn replay_found_empty_gives_no_data_once() {
    let (mut s, step) = session_with(vec![snapshot(1, "first")]);
    assert_eq!(ready_id(&step), Some(1));
    let step = s.next();
    assert!(is_fetch(&step, Listing::TeamGames, 1, None));
    let step = s.supply(games_page(&[], None));
    assert!(matches!(step, Step::NoData));
    // The next call replays again.
    let step = s.next();
    assert!(is_fetch(&step, Listing::TeamGames, 1, None));
}

#[test]
fn only_game_over_ends_in_replay() {
    let (mut s, step) = session_with(vec![snapshot(5, "Game over.")]);
    assert!(is_fetch(&step, Listing::TeamGames, 1, None));
    let step = s.supply(games_page(&[10], None));
    assert!(is_fetch(&step, Listing::GameUpdates, 10, None));
    let step = s.supply(updates_page(10, vec![snapshot(6, "live")], None));
    assert_eq!(ready_id(&step), Some(6));
    assert_eq!(s.team(), 1);
}

#[test]
fn team_without_games_has_no_data_for_good() {
    let mut s = GameStates::new(3);
    let step = s.next();
    assert!(is_fetch(&step, Listing::TeamGames, 3, None));
    let step = s.supply(games_page(&[], None));
    assert!(matches!(step, Step::NoData));
    for _ in 0..3 {
        assert!(matches!(s.next(), Step::NoData));
    }
}

#[test]
fn failed_fetch_is_asked_again() {
    let mut s = GameStates::new(2);
    let step = s.next();
    assert!(is_fetch(&step, Listing::TeamGames, 2, None));
    // The page could not be fetched: the call is simply made again.
    let step = s.next();
    assert!(is_fetch(&step, Listing::TeamGames, 2, None));
    let step = s.supply(games_page(&[7], Some("C")));
    assert!(is_fetch(&step, Listing::GameUpdates, 7, None));
    let step = s.next();
    assert!(is_fetch(&step, Listing::GameUpdates, 7, None));
}

#[test]
fn store_keeps_keys_apart() {
    let mut store = SessionStore::new();
    let a = store.advance(1);
    assert!(is_fetch(&a, Listing::TeamGames, 1, None));
    let b = store.advance(2);
    assert!(is_fetch(&b, Listing::TeamGames, 2, None));
    let page = games_page(&[], None);
    assert!(store.accepts(2, &page));
    assert!(!store.accepts(5, &page));
    assert!(matches!(store.supply(2, page), Step::NoData));
    // Team 1 is still waiting for its first page.
    assert!(store.accepts(1, &games_page(&[], None)));
    let a = store.supply(1, games_page(&[10], None));
    assert!(is_fetch(&a, Listing::GameUpdates, 10, None));
    let a = store.supply(1, updates_page(10, vec![snapshot(1, "x"), snapshot(2, "y")], None));
    assert_eq!(ready_id(&a), Some(1));
    assert!(matches!(store.advance(2), Step::NoData));
    assert_eq!(ready_id(&store.advance(1)), Some(2));
}

#[test]
fn page_conversions_keep_order() {
    let r = ChroniclerGameResponse {
        next_page: None,
        data: vec![ChroniclerGame { game_id: 3 }, ChroniclerGame { game_id: 1 }],
    };
    assert_eq!(r.game_ids(), vec![3, 1]);
    let u = ChroniclerGameUpdatesResponse {
        next_page: Some("Z".to_string()),
        data: vec![
            ChroniclerGameUpdate { game_id: 8, timestamp: 5, data: snapshot(4, "p") },
            ChroniclerGameUpdate { game_id: 8, timestamp: 6, data: snapshot(9, "q") },
        ],
    };
    let ids: Vec<u128> = u.snapshots().iter().map(|s| s.id).collect();
    assert_eq!(ids, vec![4, 9]);
}

#[test]
fn accessors_follow_acting_side() {
    let mut g = snapshot(1, "live");
    g.away_bases = Some(5);
    g.away_balls = Some(3);
    g.away_strikes = Some(2);
    g.away_outs = Some(4);
    g.away_batter_name = Some("Away Batter".to_string());
    g.away_pitcher_name = Some("Away Pitcher".to_string());
    g.home_team_color = Some("#112233".to_string());
    g.away_team_color = Some("#445566".to_string());
    assert_eq!(g.num_bases(), 5);
    assert_eq!(g.max_balls(), 3);
    assert_eq!(g.max_strikes(), 2);
    assert_eq!(g.max_outs(), 4);
    assert_eq!(g.current_batter_name().as_deref(), Some("Away Batter"));
    assert_eq!(g.current_pitcher_name().as_deref(), Some("Away Pitcher"));
    assert_eq!(g.batting_team_color().as_deref(), Some("#445566"));
    assert_eq!(g.pitching_team_color().as_deref(), Some("#112233"));
    g.top_of_inning = false;
    assert_eq!(g.num_bases(), 4);
    assert_eq!(g.max_balls(), 4);
    assert_eq!(g.max_strikes(), 3);
    assert_eq!(g.max_outs(), 3);
    assert_eq!(g.current_batter_name(), &None);
    assert_eq!(g.current_pitcher_name(), &None);
    assert_eq!(g.batting_team_color().as_deref(), Some("#112233"));
    assert_eq!(g.pitching_team_color().as_deref(), Some("#445566"));
}

#[test]
fn next_inner_hands_out_game_over() {
    let (mut s, step) = session_with(vec![snapshot(1, "first"), snapshot(2, "Game over.")]);
    assert_eq!(ready_id(&step), Some(1));
    match s.next_inner() {
        Step::Ready(u) => assert_eq!(u.last_update, "Game over."),
        _ => panic!("expected the final update"),
    }
    // The feed has ended after an update: one pull rebuilds it.
    assert!(is_fetch(&s.next_inner(), Listing::TeamGames, 1, None));
}
