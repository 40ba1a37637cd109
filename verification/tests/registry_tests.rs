use cerke_online_backend::app_state::AppState;
use cerke_online_backend::bot::TacticsKey;
use cerke_online_backend::matching::vs_cpu_entry_;
use cerke_online_backend::message::AfterHalfAcceptanceMessage;
use cerke_online_backend::message::RetAfterHalfAcceptance;
use cerke_online_backend::message::RetInfPoll;
use cerke_online_backend::message::RetMainPoll;
use cerke_online_backend::message::RetTyMok;
use cerke_online_backend::message::RetVsCpuEntry;
use cerke_online_backend::message::RetWhetherTyMokPoll;
use cerke_online_backend::misc::AccessToken;
use cerke_online_backend::misc::BotToken;
use cerke_online_backend::misc::RoomInfoWithPerspective;

fn bot_room() -> (AppState, RoomInfoWithPerspective, bool) {
    let mut data = AppState::new();
    let RetVsCpuEntry::LetTheGameBegin {
        access_token,
        is_first_move_my_move,
        ..
    } = vs_cpu_entry_(false, &mut data);
    let info = data
        .parse_token_and_get_room_info(&access_token)
        .expect("the credential owns a room");
    (data, info, is_first_move_my_move.result)
}

#[test]
fn tokens_round_trip_through_their_text_form() {
    let token = AccessToken::fresh();
    assert_eq!(AccessToken::parse_str(&token.text()), Ok(token));
    assert!(AccessToken::parse_str("definitely not a uuid").is_err());
    let bot = BotToken::fresh();
    assert_eq!(BotToken::parse_str(&bot.text()), Ok(bot));
}

#[test]
fn unknown_credentials_cannot_resolve_a_room() {
    let data = AppState::new();
    assert!(data
        .parse_token_and_get_room_info(&AccessToken::fresh().text())
        .is_err());
    assert!(data.parse_token_and_get_room_info("garbage").is_err());
}

#[test]
fn wrong_phase_operations_are_rejected_without_harm() {
    let (mut data, info, _) = bot_room();
    // A fresh room awaits a move: the half-acceptance and hand-decision
    // operations must all be rejected.
    let r = data.analyze_afterhalfacceptance_message_and_update(
        AfterHalfAcceptanceMessage::AfterHalfAcceptance { dest: None },
        &info,
    );
    assert!(matches!(r, RetAfterHalfAcceptance::Illegal { .. }));
    let r = data.receive_tymok_and_update(&info);
    assert!(matches!(r, RetTyMok::Illegal));
    // The room still answers polls normally afterwards.
    let r = data.reply_to_whether_tymok_poll(&info);
    assert!(matches!(r, RetWhetherTyMokPoll::NotYetDetermined));
}

#[test]
fn fresh_room_polls_report_nothing_determined() {
    let (data, info, _) = bot_room();
    assert!(matches!(
        data.reply_to_whether_tymok_poll(&info),
        RetWhetherTyMokPoll::NotYetDetermined
    ));
    // No move has been made at all, so the stepping-move poll is a typed
    // error rather than a wait.
    assert!(matches!(
        data.reply_to_inf_poll(&info),
        RetInfPoll::Illegal { .. }
    ));
}

#[test]
fn main_poll_lets_the_bot_take_its_turn() {
    let (mut data, info, my_move_first) = bot_room();
    let r = data.reply_to_main_poll(&info);
    if my_move_first {
        // It is the human's turn: nothing to report yet.
        assert!(matches!(r, RetMainPoll::NotYetDetermined), "{:?}", r);
    } else {
        // It is the bot's turn: polling makes the bot move at once.
        let made = match r {
            RetMainPoll::MoveMade { content, message } => {
                assert_eq!(message, Some(TacticsKey::Neutral));
                content
            }
            other => panic!("expected the bot's move, got {:?}", other),
        };
        // The same committed move is still there on a second poll.
        let r2 = data.reply_to_main_poll(&info);
        match r2 {
            RetMainPoll::MoveMade { content, message } => {
                assert_eq!(message, None);
                assert_eq!(content, made);
            }
            other => panic!("expected the recorded move, got {:?}", other),
        }
    }
}

#[test]
fn main_poll_against_a_human_waits() {
    let mut data = AppState::new();
    let a = cerke_online_backend::matching::random_entry_(false, &mut data);
    let token_a = match a {
        cerke_online_backend::message::RetRandomEntry::InWaitingList { access_token } => {
            access_token
        }
        other => panic!("expected to wait, got {:?}", other),
    };
    let b = cerke_online_backend::matching::random_entry_(false, &mut data);
    let token_b = match b {
        cerke_online_backend::message::RetRandomEntry::RoomAlreadyAssigned {
            access_token, ..
        } => access_token,
        other => panic!("expected a room, got {:?}", other),
    };
    let info_a = data.parse_token_and_get_room_info(&token_a).unwrap();
    let info_b = data.parse_token_and_get_room_info(&token_b).unwrap();
    assert!(matches!(
        data.reply_to_main_poll(&info_a),
        RetMainPoll::NotYetDetermined
    ));
    assert!(matches!(
        data.reply_to_main_poll(&info_b),
        RetMainPoll::NotYetDetermined
    ));
}
