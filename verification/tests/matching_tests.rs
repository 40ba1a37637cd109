use cerke_online_backend::app_state::AppState;
use cerke_online_backend::matching::random_entrance_cancel;
use cerke_online_backend::matching::random_entrance_poll_;
use cerke_online_backend::matching::random_entry_;
use cerke_online_backend::matching::remove_random;
use cerke_online_backend::matching::vs_cpu_entry_;
use cerke_online_backend::message::MsgWithAccessToken;
use cerke_online_backend::message::RetRandomCancel;
use cerke_online_backend::message::RetRandomEntry;
use cerke_online_backend::message::RetRandomPoll;
use cerke_online_backend::message::RetVsCpuEntry;
use cerke_online_backend::misc::AccessToken;

fn msg(token: &str) -> MsgWithAccessToken {
    MsgWithAccessToken {
        access_token: token.to_string(),
    }
}

#[test]
fn empty_pool_waits_then_next_entry_pairs() {
    let mut data = AppState::new();

    // First entrant: the pool is empty, so the fresh credential waits.
    let token_a = match random_entry_(false, &mut data) {
        RetRandomEntry::InWaitingList { access_token } => access_token,
        other => panic!("expected to wait, got {:?}", other),
    };

    // Second entrant: paired with the first at once.
    let (token_b, first_mover_b, ia_b) = match random_entry_(false, &mut data) {
        RetRandomEntry::RoomAlreadyAssigned {
            access_token,
            is_first_move_my_move,
            is_ia_down_for_me,
        } => (access_token, is_first_move_my_move, is_ia_down_for_me),
        other => panic!("expected a room, got {:?}", other),
    };

    // Both credentials now resolve to the same room, on opposite sides.
    let info_a = data
        .parse_token_and_get_room_info(&token_a)
        .expect("the first credential owns a room");
    let info_b = data
        .parse_token_and_get_room_info(&token_b)
        .expect("the second credential owns a room");
    assert_eq!(info_a.room_id, info_b.room_id);
    assert_ne!(info_a.is_ia_down_for_me, info_b.is_ia_down_for_me);
    assert_eq!(info_b.is_ia_down_for_me, ia_b);

    // Polling either credential reports the assigned room, and the two
    // perspectives see opposite turn-order decisions.
    let poll_a = random_entrance_poll_(false, &msg(&token_a), &data);
    match poll_a {
        RetRandomPoll::Legal {
            ret:
                RetRandomEntry::RoomAlreadyAssigned {
                    access_token,
                    is_first_move_my_move,
                    is_ia_down_for_me,
                },
        } => {
            assert_eq!(access_token, token_a);
            assert_eq!(is_ia_down_for_me, info_a.is_ia_down_for_me);
            assert_eq!(is_first_move_my_move, first_mover_b.not());
        }
        other => panic!("expected the assigned room, got {:?}", other),
    }
}

#[test]
fn waiting_credential_polls_as_waiting() {
    let mut data = AppState::new();
    let token = match random_entry_(false, &mut data) {
        RetRandomEntry::InWaitingList { access_token } => access_token,
        other => panic!("expected to wait, got {:?}", other),
    };
    match random_entrance_poll_(false, &msg(&token), &data) {
        RetRandomPoll::Legal {
            ret: RetRandomEntry::InWaitingList { access_token },
        } => assert_eq!(access_token, token),
        other => panic!("expected still waiting, got {:?}", other),
    }
}

#[test]
fn unknown_and_garbage_tokens_fail_the_poll() {
    let data = AppState::new();
    let unknown = AccessToken::fresh().text();
    assert!(matches!(
        random_entrance_poll_(false, &msg(&unknown), &data),
        RetRandomPoll::Illegal { .. }
    ));
    assert!(matches!(
        random_entrance_poll_(false, &msg("not-a-token"), &data),
        RetRandomPoll::Illegal { .. }
    ));
}

#[test]
fn cancel_semantics() {
    let mut data = AppState::new();

    // A credential that already owns a room cannot cancel.
    let token_a = match random_entry_(false, &mut data) {
        RetRandomEntry::InWaitingList { access_token } => access_token,
        other => panic!("expected to wait, got {:?}", other),
    };
    let _token_b = match random_entry_(false, &mut data) {
        RetRandomEntry::RoomAlreadyAssigned { access_token, .. } => access_token,
        other => panic!("expected a room, got {:?}", other),
    };
    assert_eq!(
        random_entrance_cancel(false, &msg(&token_a), &mut data),
        RetRandomCancel::Legal { cancellable: false }
    );

    // A pooled credential cancels, and a second poll then reports unknown.
    let token_c = match random_entry_(false, &mut data) {
        RetRandomEntry::InWaitingList { access_token } => access_token,
        other => panic!("expected to wait, got {:?}", other),
    };
    assert_eq!(
        random_entrance_cancel(false, &msg(&token_c), &mut data),
        RetRandomCancel::Legal { cancellable: true }
    );
    assert!(matches!(
        random_entrance_poll_(false, &msg(&token_c), &data),
        RetRandomPoll::Illegal { .. }
    ));

    // An unknown credential is still reported cancellable; garbage is not.
    let unknown = AccessToken::fresh().text();
    assert_eq!(
        random_entrance_cancel(false, &msg(&unknown), &mut data),
        RetRandomCancel::Legal { cancellable: true }
    );
    assert!(matches!(
        random_entrance_cancel(false, &msg("###"), &mut data),
        RetRandomCancel::Illegal { .. }
    ));
}

#[test]
fn vs_cpu_entry_opens_a_room_at_once() {
    let mut data = AppState::new();
    let RetVsCpuEntry::LetTheGameBegin {
        access_token,
        is_first_move_my_move,
        is_ia_down_for_me,
    } = vs_cpu_entry_(false, &mut data);
    let info = data
        .parse_token_and_get_room_info(&access_token)
        .expect("the credential owns a room");
    assert_eq!(info.is_ia_down_for_me, is_ia_down_for_me);
    // The decision's verdict is read from this credential's perspective: the
    // last recorded pair must agree with it.
    let last = is_first_move_my_move.process.last().expect("history");
    assert_eq!(
        is_first_move_my_move.result,
        last.first.count() > last.second.count()
    );
}

#[test]
fn remove_random_takes_one_held_element() {
    let mut v: Vec<u32> = vec![];
    assert_eq!(remove_random(&mut v), None);
    let mut v: Vec<u32> = vec![7];
    assert_eq!(remove_random(&mut v), Some(7));
    assert!(v.is_empty());
    let mut v: Vec<u32> = vec![1, 2, 3, 4];
    let x = remove_random(&mut v).expect("an element");
    assert!([1, 2, 3, 4].contains(&x));
    assert_eq!(v.len(), 3);
    assert!(!v.contains(&x));
}
