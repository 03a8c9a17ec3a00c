use chessmate::engine::{HandleActionError, TttEngine};
use chessmate::gamepool::{DoGameActionError, EnterGameError, NewGameError, TttGamePool};
use chessmate::lobby::{TttInfo, TttLobby};
use chessmate::messages::{ActionOutcome, DoAction, Fight, NewGame, StartGame};
use chessmate::protocol::{parse_command, Command};
use chessmate::server::{GameServer, SetTicketError};
use chessmate::ttt::{TttAction, TttActionResult, TttMove, TttSign, TttUsers, TttWish};

const XS: TttWish = TttWish { sign: TttSign::Xs };
const OS: TttWish = TttWish { sign: TttSign::Os };

fn mv(col: u8, row: u8) -> TttAction {
    TttAction::Move(TttMove { col, row })
}

fn act(server: &mut GameServer, user_id: u64, game_id: u64, action: TttAction) -> Vec<(u64, ActionOutcome)> {
    server.do_action(DoAction { user_id, game_id, action }).ok().unwrap()
}

fn texts_of(server: &mut GameServer, user_id: u64, text: &str) -> Vec<(u64, String)> {
    match parse_command(text).ok().unwrap() {
        Command::Find(w) => server.find_pair(user_id, w).ok().unwrap().iter().map(|(u, m)| (*u, m.to_text())).collect(),
        Command::Join(g) => server
            .join_to_game(user_id, g)
            .ok()
            .unwrap()
            .iter()
            .map(|(u, m)| (*u, m.to_text()))
            .collect(),
        Command::Action(g, a) => server
            .do_action(DoAction { user_id, game_id: g, action: a })
            .ok()
            .unwrap()
            .iter()
            .map(|(u, m)| (*u, m.to_text()))
            .collect(),
    }
}

#[test]
fn scenario_find_join_move() {
    let mut server = GameServer::new();
    assert!(texts_of(&mut server, 10, "/find?Xs").is_empty());
    let paired = texts_of(&mut server, 20, "/find?Os");
    assert_eq!(
        paired,
        vec![(10, "/event/new_game/1".to_string()), (20, "/event/new_game/1".to_string())]
    );
    assert!(texts_of(&mut server, 10, "/join?1").is_empty());
    let fight = texts_of(&mut server, 20, "/join?1");
    assert_eq!(
        fight,
        vec![(10, "/event/fight/1".to_string()), (20, "/event/fight/1".to_string())]
    );
    let moved = texts_of(&mut server, 10, "/action?1:move:0,0");
    assert_eq!(
        moved,
        vec![(10, "/event/action/1/10/0,0".to_string()), (20, "/event/action/1/10/0,0".to_string())]
    );
    let again = act(&mut server, 10, 1, mv(1, 1));
    assert_eq!(
        again,
        vec![(10, ActionOutcome { user_id: 10, game_id: 1, result: TttActionResult::ImpossibleAction })]
    );
}

#[test]
fn scenario_row_of_three_wins() {
    let mut server = GameServer::new();
    server.find_pair(1, XS).ok().unwrap();
    server.find_pair(2, OS).ok().unwrap();
    server.join_to_game(1, 1).ok().unwrap();
    server.join_to_game(2, 1).ok().unwrap();
    act(&mut server, 1, 1, mv(0, 0));
    act(&mut server, 2, 1, mv(0, 1));
    act(&mut server, 1, 1, mv(1, 0));
    act(&mut server, 2, 1, mv(1, 1));
    let win = act(&mut server, 1, 1, mv(2, 0));
    let outcome = ActionOutcome { user_id: 1, game_id: 1, result: TttActionResult::Win(1) };
    assert_eq!(win, vec![(1, outcome), (2, outcome)]);
    assert_eq!(outcome.to_text(), "/event/action/1/1/win_of/1");
    assert_eq!(
        server.do_action(DoAction { user_id: 2, game_id: 1, action: mv(2, 2) }),
        Err(DoGameActionError::Finished)
    );
}

#[test]
fn pairing_in_either_order() {
    let mut lobby = TttLobby::with_communication();
    assert_eq!(lobby.add_ticket(5, OS), None);
    let start = lobby.add_ticket(6, XS).unwrap();
    assert_eq!(start, StartGame { users: TttUsers(6, 5), game_id: 1 });
    assert_eq!(start.notices(), vec![(6, NewGame(1)), (5, NewGame(1))]);
    assert_eq!(lobby.add_ticket(7, XS), None);
    let start = lobby.add_ticket(8, OS).unwrap();
    assert_eq!(start, StartGame { users: TttUsers(7, 8), game_id: 2 });
    assert_eq!(lobby.game_counter(), 2);
}

#[test]
fn no_self_match_on_resubmit() {
    let mut lobby = TttLobby::with_communication();
    assert_eq!(lobby.add_ticket(3, XS), None);
    assert_eq!(lobby.add_ticket(3, OS), None);
    assert_eq!(lobby.add_ticket(3, XS), None);
    let start = lobby.add_ticket(4, OS).unwrap();
    assert_eq!(start.users, TttUsers(3, 4));
    assert_eq!(lobby.add_ticket(9, XS), None);
}

#[test]
fn same_wishes_do_not_pair() {
    let mut lobby = TttLobby::with_communication();
    assert_eq!(lobby.add_ticket(1, XS), None);
    assert_eq!(lobby.add_ticket(2, XS), None);
    let start = lobby.add_ticket(3, OS).unwrap();
    assert_eq!(start.users, TttUsers(1, 3));
}

#[test]
fn rating_threshold() {
    let a = TttInfo { rating: 1000 };
    assert!(a.is_match(TttInfo { rating: 1019 }));
    assert!(!a.is_match(TttInfo { rating: 1020 }));
    assert!(a.is_match(TttInfo { rating: 981 }));
    assert!(!a.is_match(TttInfo { rating: 980 }));
}

#[test]
fn no_third_observer() {
    let mut pool = TttGamePool::new();
    pool.new_game(1, TttUsers(1, 2)).ok().unwrap();
    assert_eq!(pool.new_game(1, TttUsers(3, 4)), Err(NewGameError::DuplicateGame));
    assert_eq!(pool.enter_game(1, 1), Ok(vec![]));
    assert_eq!(pool.enter_game(1, 1), Err(EnterGameError::AlreadyEntered));
    assert_eq!(pool.enter_game(1, 3), Err(EnterGameError::BadUser));
    assert_eq!(pool.enter_game(2, 1), Err(EnterGameError::BadGame));
    assert_eq!(pool.enter_game(1, 2), Ok(vec![(1, Fight { game_id: 1 }), (2, Fight { game_id: 1 })]));
    assert_eq!(pool.enter_game(1, 2), Err(EnterGameError::AlreadyEntered));
}

#[test]
fn actions_wait_for_both_players() {
    let mut pool = TttGamePool::new();
    pool.new_game(1, TttUsers(1, 2)).ok().unwrap();
    assert_eq!(pool.do_game_action(1, 1, mv(0, 0)), Err(DoGameActionError::NotReady));
    assert_eq!(pool.do_game_action(7, 1, mv(0, 0)), Err(DoGameActionError::BadGame));
    pool.enter_game(1, 1).ok().unwrap();
    pool.enter_game(1, 2).ok().unwrap();
    let out = pool.do_game_action(1, 2, mv(0, 0)).ok().unwrap();
    assert_eq!(out, vec![(2, ActionOutcome { user_id: 2, game_id: 1, result: TttActionResult::ImpossibleAction })]);
}

#[test]
fn turn_alternation() {
    let mut pool = TttGamePool::new();
    pool.new_game(1, TttUsers(1, 2)).ok().unwrap();
    pool.enter_game(1, 1).ok().unwrap();
    pool.enter_game(1, 2).ok().unwrap();
    let ok = pool.do_game_action(1, 1, mv(1, 1)).ok().unwrap();
    assert_eq!(ok[0].1.result, TttActionResult::Action(mv(1, 1)));
    let refused = pool.do_game_action(1, 1, mv(2, 2)).ok().unwrap();
    assert_eq!(refused.len(), 1);
    assert_eq!(refused[0].1.result, TttActionResult::ImpossibleAction);
    let occupied = pool.do_game_action(1, 2, mv(1, 1)).ok().unwrap();
    assert_eq!(occupied, vec![(2, ActionOutcome { user_id: 2, game_id: 1, result: TttActionResult::ImpossibleAction })]);
    let off_board = pool.do_game_action(1, 2, mv(3, 0)).ok().unwrap();
    assert_eq!(off_board[0].1.result, TttActionResult::ImpossibleAction);
    let ok = pool.do_game_action(1, 2, mv(0, 0)).ok().unwrap();
    assert_eq!(ok.len(), 2);
}

#[test]
fn terminal_state_after_surrender() {
    let mut pool = TttGamePool::new();
    pool.new_game(4, TttUsers(1, 2)).ok().unwrap();
    pool.enter_game(4, 2).ok().unwrap();
    pool.enter_game(4, 1).ok().unwrap();
    let out = pool.do_game_action(4, 1, TttAction::Surrender).ok().unwrap();
    assert_eq!(out[0].1.result, TttActionResult::Win(2));
    assert_eq!(pool.do_game_action(4, 2, mv(0, 0)), Err(DoGameActionError::Finished));
    assert_eq!(pool.do_game_action(4, 1, TttAction::Surrender), Err(DoGameActionError::Finished));
}

#[test]
fn draw_by_agreement() {
    let mut pool = TttGamePool::new();
    pool.new_game(1, TttUsers(1, 2)).ok().unwrap();
    pool.enter_game(1, 1).ok().unwrap();
    pool.enter_game(1, 2).ok().unwrap();
    let refused = pool.do_game_action(1, 1, TttAction::ApplyDraw).ok().unwrap();
    assert_eq!(refused[0].1.result, TttActionResult::ImpossibleAction);
    let proposed = pool.do_game_action(1, 1, TttAction::ProposeDraw).ok().unwrap();
    assert_eq!(proposed[0].1.result, TttActionResult::Action(TttAction::ProposeDraw));
    let drawn = pool.do_game_action(1, 2, TttAction::ApplyDraw).ok().unwrap();
    assert_eq!(drawn, vec![
        (1, ActionOutcome { user_id: 2, game_id: 1, result: TttActionResult::Draw }),
        (2, ActionOutcome { user_id: 2, game_id: 1, result: TttActionResult::Draw }),
    ]);
    assert_eq!(pool.do_game_action(1, 1, mv(0, 0)), Err(DoGameActionError::Finished));
}

#[test]
fn full_board_is_a_draw() {
    let mut pool = TttGamePool::new();
    pool.new_game(1, TttUsers(1, 2)).ok().unwrap();
    pool.enter_game(1, 1).ok().unwrap();
    pool.enter_game(1, 2).ok().unwrap();
    // X O X / X O O / O X X, with no line of three
    let moves = [(0, 0), (1, 0), (2, 0), (1, 1), (0, 1), (2, 1), (1, 2), (0, 2)];
    let mut user = 1;
    for (col, row) in moves {
        let out = pool.do_game_action(1, user, mv(col, row)).ok().unwrap();
        assert_eq!(out[0].1.result, TttActionResult::Action(mv(col, row)));
        user = 3 - user;
    }
    let last = pool.do_game_action(1, 1, mv(2, 2)).ok().unwrap();
    assert_eq!(last[0].1.result, TttActionResult::Draw);
}

#[test]
fn column_and_diagonal_wins() {
    let mut pool = TttGamePool::new();
    pool.new_game(1, TttUsers(1, 2)).ok().unwrap();
    pool.enter_game(1, 1).ok().unwrap();
    pool.enter_game(1, 2).ok().unwrap();
    for (user, col, row) in [(1, 0, 0), (2, 1, 0), (1, 0, 1), (2, 2, 0)] {
        pool.do_game_action(1, user, mv(col, row)).ok().unwrap();
    }
    let win = pool.do_game_action(1, 1, mv(0, 2)).ok().unwrap();
    assert_eq!(win[0].1.result, TttActionResult::Win(1));

    pool.new_game(2, TttUsers(1, 2)).ok().unwrap();
    pool.enter_game(2, 1).ok().unwrap();
    pool.enter_game(2, 2).ok().unwrap();
    for (user, col, row) in [(1, 1, 0), (2, 2, 0), (1, 0, 0), (2, 1, 1), (1, 2, 2)] {
        pool.do_game_action(2, user, mv(col, row)).ok().unwrap();
    }
    let win = pool.do_game_action(2, 2, mv(0, 2)).ok().unwrap();
    assert_eq!(win[0].1.result, TttActionResult::Win(2));
}

#[test]
fn playing_user_cannot_wait() {
    let mut server = GameServer::new();
    server.find_pair(1, XS).ok().unwrap();
    server.find_pair(2, OS).ok().unwrap();
    assert_eq!(server.find_pair(1, XS), Err(SetTicketError::AlreadyPlaying));
    assert_eq!(server.find_pair(3, OS), Ok(vec![]));
    server.join_to_game(1, 1).ok().unwrap();
    server.join_to_game(2, 1).ok().unwrap();
    act(&mut server, 1, 1, TttAction::Surrender);
    let paired = server.find_pair(1, XS).ok().unwrap();
    assert_eq!(paired, vec![(1, NewGame(2)), (3, NewGame(2))]);
}

#[test]
fn pool_queries() {
    let mut pool = TttGamePool::new();
    assert_eq!(pool.get_games_stats(), (0,));
    pool.new_game(1, TttUsers(1, 2)).ok().unwrap();
    pool.new_game(2, TttUsers(3, 4)).ok().unwrap();
    assert_eq!(pool.get_games_stats(), (2,));
    let info = pool.check_is_playing(4).unwrap();
    assert_eq!((info.game_id, info.users), (2, TttUsers(3, 4)));
    assert_eq!(pool.check_is_playing(5), None);
}

#[test]
fn engine_refusals() {
    let mut engine = TttEngine::for_users(TttUsers(1, 2));
    assert_eq!(engine.check_action(3, TttAction::Surrender), Some(HandleActionError::InvalidUser));
    assert_eq!(engine.check_action(2, mv(0, 0)), Some(HandleActionError::WrongTurn));
    assert_eq!(engine.check_action(1, TttAction::ApplyDraw), Some(HandleActionError::InvalidAction));
    assert_eq!(engine.check_action(1, mv(0, 0)), None);
    assert_eq!(engine.react(1, mv(0, 0)), TttActionResult::Action(mv(0, 0)));
    assert_eq!(engine.current_player(), 2);
    assert_eq!(engine.check_action(2, mv(0, 0)), Some(HandleActionError::InvalidAction));
}
