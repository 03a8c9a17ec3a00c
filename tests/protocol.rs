use chessmate::domain::Wish;
use chessmate::messages::{ActionOutcome, Fight, NewGame};
use chessmate::protocol::{parse_command, Command, CommandError};
use chessmate::query::ParseQueryError;
use chessmate::text::{decimal_text, parse_number};
use chessmate::ttt::{TttAction, TttActionErr, TttActionResult, TttMove, TttSign, TttWish, TttWishErr};

#[test]
fn commands() {
    assert_eq!(parse_command("/find?Xs"), Ok(Command::Find(TttWish { sign: TttSign::Xs })));
    assert_eq!(parse_command("/find?Os"), Ok(Command::Find(TttWish { sign: TttSign::Os })));
    assert_eq!(parse_command("/join?12"), Ok(Command::Join(12)));
    assert_eq!(
        parse_command("/action?3:move:2,1"),
        Ok(Command::Action(3, TttAction::Move(TttMove { col: 2, row: 1 })))
    );
    assert_eq!(parse_command("/action?3:action:surrender"), Ok(Command::Action(3, TttAction::Surrender)));
}

#[test]
fn command_errors() {
    assert_eq!(parse_command("/find"), Err(CommandError::InvalidQuery(ParseQueryError::InvalidFormat)));
    assert_eq!(parse_command("/quit?now"), Err(CommandError::UndefinedCommand));
    assert_eq!(parse_command("/find?Zs"), Err(CommandError::InvalidWish));
    assert_eq!(parse_command("/join?x1"), Err(CommandError::InvalidGameId));
    assert_eq!(parse_command("/action?3"), Err(CommandError::InvalidAttrs));
    assert_eq!(parse_command("/action?x:move:0,0"), Err(CommandError::InvalidGameId));
    assert_eq!(
        parse_command("/action?1:move:0"),
        Err(CommandError::InvalidAction(TttActionErr::InvalidMove))
    );
    assert_eq!(
        parse_command("/action?1:jump:0"),
        Err(CommandError::InvalidAction(TttActionErr::InvalidAction))
    );
}

#[test]
fn error_texts() {
    assert_eq!(CommandError::InvalidQuery(ParseQueryError::EmptyQuery).to_text(), "/error/invalid_query:EmptyQuery");
    assert_eq!(CommandError::UndefinedCommand.to_text(), "/error/undefined_command");
    assert_eq!(CommandError::InvalidWish.to_text(), "/error/invalid_wish");
    assert_eq!(CommandError::InvalidGameId.to_text(), "/error/invalid_game_id");
    assert_eq!(CommandError::InvalidAttrs.to_text(), "/error/invalid_attrs");
    assert_eq!(CommandError::InvalidAction(TttActionErr::InvalidMove).to_text(), "/error/invalid_move");
    assert_eq!(CommandError::InvalidAction(TttActionErr::InvalidAction).to_text(), "/error/invalid_action");
}

#[test]
fn actions() {
    assert_eq!(TttAction::parse("action:propose_draw"), Ok(TttAction::ProposeDraw));
    assert_eq!(TttAction::parse("action:apply_draw"), Ok(TttAction::ApplyDraw));
    assert_eq!(TttAction::parse("action:dance"), Err(TttActionErr::InvalidAction));
    assert_eq!(TttAction::parse("surrender"), Err(TttActionErr::InvalidAction));
    assert_eq!(TttAction::parse("move:0,256"), Err(TttActionErr::InvalidMove));
    assert_eq!(TttAction::parse("move:+1,255"), Ok(TttAction::Move(TttMove { col: 1, row: 255 })));
    assert_eq!(TttAction::parse("move:1,2,3"), Err(TttActionErr::InvalidMove));
    assert_eq!(TttAction::Move(TttMove { col: 1, row: 2 }).to_text(), "1,2");
    assert_eq!(TttAction::ApplyDraw.to_text(), "apply_draw");
    assert_eq!(TttWish::parse("xs"), Err(TttWishErr::InvalidWish));
    assert!(TttWish { sign: TttSign::Xs }.is_match(&TttWish { sign: TttSign::Os }));
    assert_eq!(TttSign::Os.opposite(), TttSign::Xs);
}

#[test]
fn events() {
    assert_eq!(NewGame(1).to_text(), "/event/new_game/1");
    assert_eq!(Fight { game_id: 40 }.to_text(), "/event/fight/40");
    let o = ActionOutcome { user_id: 7, game_id: 3, result: TttActionResult::Action(TttAction::Surrender) };
    assert_eq!(o.to_text(), "/event/action/3/7/surrender");
    assert_eq!(TttActionResult::Draw.to_text(), "draw");
    assert_eq!(TttActionResult::ImpossibleAction.to_text(), "impossible_action");
    assert_eq!(TttActionResult::Win(12).to_text(), "win_of/12");
}

#[test]
fn numbers() {
    assert_eq!(decimal_text(0), "0");
    assert_eq!(decimal_text(1907), "1907");
    assert_eq!(decimal_text(u64::MAX), "18446744073709551615");
    assert_eq!(parse_number("18446744073709551615", u64::MAX), Some(u64::MAX));
    assert_eq!(parse_number("18446744073709551616", u64::MAX), None);
    assert_eq!(parse_number("", 255), None);
    assert_eq!(parse_number("+", 255), None);
    assert_eq!(parse_number("-1", 255), None);
    assert_eq!(parse_number("007", 255), Some(7));
}
