use rand::Rng;
use vstd::prelude::*;

use crate::app_state::AppState;
use crate::game_state::GameState;
use crate::message::MsgWithAccessToken;
use crate::message::RetRandomCancel;
use crate::message::RetRandomEntry;
use crate::message::RetRandomPoll;
use crate::message::RetVsCpuEntry;
use crate::misc::uuid_of_text;
use crate::misc::uuid_random;
use crate::misc::uuid_text_of;
use crate::misc::AccessToken;
use crate::misc::BotToken;
use crate::misc::RoomId;
use crate::misc::RoomInfoWithPerspective;
use crate::trial::is_negation;
use crate::trial::SystemTrialSource;
use crate::trial::TrialSource;

verus! {

broadcast use vstd::std_specs::hash::group_hash_axioms;

/// Mints the identity of a freshly opened room.
#[must_use]
pub fn open_a_room(_token: AccessToken, _new_token: AccessToken, _is_staging: bool) -> RoomId {
    RoomId(uuid_random())
}

/// Mints the identity of a freshly opened room whose second seat is a bot.
#[must_use]
pub fn open_a_room_against_bot(
    _token: BotToken,
    _new_token: AccessToken,
    _is_staging: bool,
) -> RoomId {
    RoomId(uuid_random())
}

/// Relies on rand's gen_range over `0..n`: a uniformly random index below
/// `n`; the range is nonempty, so the call returns.
#[verifier::external_body]
fn random_below(n: usize) -> (r: usize)
    requires
        n > 0,
    ensures
        r < n,
{
    rand::thread_rng().gen_range(0..n)
}

/// Removes one element at a uniformly random position, guarding against any
/// iteration-order bias: nothing from an empty sequence, otherwise some held
/// element, with the hole closed by the last element.
pub fn remove_random<T: Copy>(v: &mut Vec<T>) -> (r: Option<T>)
    ensures
        old(v)@.len() == 0 ==> r is None && final(v)@ == old(v)@,
        old(v)@.len() > 0 ==> final(v)@.len() == old(v)@.len() - 1 && (r matches Some(x)
            && exists|i: int|
            0 <= i < old(v)@.len() && x == old(v)@[i] && final(v)@ == old(v)@.update(
                i,
                old(v)@.last(),
            ).drop_last()),
{
    if v.len() == 0 {
        None
    } else {
        let i = random_below(v.len());
        let x = v.swap_remove(i);
        proof {
            assert(x == old(v)@[i as int] && final(v)@ == old(v)@.update(
                i as int,
                old(v)@.last(),
            ).drop_last());
        }
        Some(x)
    }
}

fn pool_contains(v: &Vec<AccessToken>, t: u128) -> (r: bool)
    ensures
        r == v@.contains(AccessToken(t)),
{
    let mut i: usize = 0;
    while i < v.len()
        invariant
            i <= v@.len(),
            forall|j: int| 0 <= j < i ==> v@[j] != AccessToken(t),
        decreases v@.len() - i,
    {
        if v[i].0 == t {
            return true;
        }
        i = i + 1;
    }
    false
}

/// Says that entering a nonempty pool paired the pool's credential at
/// position `i` with the fresh credential `fresh`: the waiting entry left
/// the pool, both credentials now map to one freshly initialised room with
/// complementary perspectives, and the reply carries the fresh credential
/// and its own perspective.
pub open spec fn paired(pre: AppState, post: AppState, r: RetRandomEntry, i: int, fresh: u128) -> bool {
    let waiting = pre.waiting_list@[i].0;
    &&& 0 <= i < pre.waiting_list@.len()
    &&& post.waiting_list@ == pre.waiting_list@.update(i, pre.waiting_list@.last()).drop_last()
    &&& post.rooms_where_opponent_is_bot@ == pre.rooms_where_opponent_is_bot@
    &&& (r matches RetRandomEntry::RoomAlreadyAssigned {
        access_token,
        is_first_move_my_move,
        is_ia_down_for_me,
    } && {
        let room = post.person_to_room@[fresh].room_id.0;
        &&& access_token@ == uuid_text_of(fresh)
        &&& post.person_to_room@.contains_key(fresh)
        &&& post.person_to_room@.contains_key(waiting)
        &&& post.person_to_room@[fresh].room_id == post.person_to_room@[waiting].room_id
        &&& (fresh != waiting ==> post.person_to_room@[waiting].is_ia_down_for_me
            == !post.person_to_room@[fresh].is_ia_down_for_me)
        &&& (fresh != waiting ==> is_ia_down_for_me
            == post.person_to_room@[fresh].is_ia_down_for_me)
        &&& (forall|t: u128|
            t != fresh && t != waiting ==> (#[trigger] post.person_to_room@.contains_key(t)
                <==> pre.person_to_room@.contains_key(t)) && (pre.person_to_room@.contains_key(t)
                ==> post.person_to_room@[t] == pre.person_to_room@[t]))
        &&& post.room_to_gamestate@.contains_key(room)
        &&& (forall|x: u128|
            x != room ==> (#[trigger] post.room_to_gamestate@.contains_key(x)
                <==> pre.room_to_gamestate@.contains_key(x)) && (pre.room_to_gamestate@.contains_key(
                x,
            ) ==> post.room_to_gamestate@[x] == pre.room_to_gamestate@[x]))
        &&& ({
            let gs = post.room_to_gamestate@[room];
            &&& gs.wf()
            &&& gs.season == 0
            &&& gs.state is AwaitingMove
            &&& gs.cur().len() == 0
            &&& (gs.is_first_move_ia_move@[0] matches Some(w0) && {
                &&& w0.result == gs.ia_side_to_move
                &&& (is_ia_down_for_me ==> is_first_move_my_move.result == w0.result
                    && is_first_move_my_move.process@ == w0.process@)
                &&& (!is_ia_down_for_me ==> is_negation(w0, is_first_move_my_move))
            })
        })
    })
}

/// Enters the random matchmaking pool. With the pool empty the fresh
/// credential is put in the pool and told to wait; otherwise one pooled
/// credential is removed at a uniformly random position and paired with the
/// fresh one in a newly opened room, with perspectives assigned
/// complementarily and the season-opening turn order already decided.
#[must_use]
pub fn random_entry_(is_staging: bool, data: &mut AppState) -> (r: RetRandomEntry)
    requires
        old(data).wf(),
    ensures
        final(data).wf(),
        old(data).waiting_list@.len() == 0 ==> {
            &&& final(data).waiting_list@.len() == 1
            &&& (r matches RetRandomEntry::InWaitingList { access_token } && access_token@
                == uuid_text_of(final(data).waiting_list@[0].0))
            &&& final(data).person_to_room@ == old(data).person_to_room@
            &&& final(data).room_to_gamestate@ == old(data).room_to_gamestate@
            &&& final(data).rooms_where_opponent_is_bot@ == old(
                data,
            ).rooms_where_opponent_is_bot@
        },
        old(data).waiting_list@.len() > 0 ==> exists|i: int, fresh: u128|
            paired(*old(data), *final(data), r, i, fresh),
{
    let ghost pre = *data;
    let new_token = AccessToken::fresh();
    let opt_token = remove_random(&mut data.waiting_list);
    match opt_token {
        Some(token) => {
            let room_id = open_a_room(token, new_token, is_staging);
            let mut source = SystemTrialSource;
            let is_ia_down_for_newtoken = source.next_bool();
            let _ = data.person_to_room.insert(
                new_token.0,
                RoomInfoWithPerspective { room_id, is_ia_down_for_me: is_ia_down_for_newtoken },
            );
            let _ = data.person_to_room.insert(
                token.0,
                RoomInfoWithPerspective { room_id, is_ia_down_for_me: !is_ia_down_for_newtoken },
            );
            let game_state = GameState::new();
            let is_first_move_my_move = game_state.is_first_move_my_move(
                is_ia_down_for_newtoken,
                0,
            );
            let _ = data.room_to_gamestate.insert(room_id.0, game_state);
            let r = RetRandomEntry::RoomAlreadyAssigned {
                access_token: new_token.text(),
                is_first_move_my_move,
                is_ia_down_for_me: is_ia_down_for_newtoken,
            };
            proof {
                let i = choose|i: int|
                    0 <= i < pre.waiting_list@.len() && token == pre.waiting_list@[i]
                        && data.waiting_list@ == pre.waiting_list@.update(
                        i,
                        pre.waiting_list@.last(),
                    ).drop_last();
                assert(paired(pre, *data, r, i, new_token.0));
            }
            r
        },
        None => {
            data.waiting_list.push(new_token);
            RetRandomEntry::InWaitingList { access_token: new_token.text() }
        },
    }
}

/// Matchmaking fairness: entering with exactly one credential waiting and a
/// fresh, distinct credential always pairs exactly those two, in the same
/// room, with complementary sides.
pub proof fn lemma_matchmaking_pairs_the_waiting(
    pre: AppState,
    post: AppState,
    r: RetRandomEntry,
    i: int,
    fresh: u128,
)
    requires
        pre.waiting_list@.len() == 1,
        paired(pre, post, r, i, fresh),
        fresh != pre.waiting_list@[0].0,
    ensures
        post.waiting_list@.len() == 0,
        post.person_to_room@.contains_key(fresh),
        post.person_to_room@.contains_key(pre.waiting_list@[0].0),
        post.person_to_room@[fresh].room_id == post.person_to_room@[pre.waiting_list@[0].0].room_id,
        post.person_to_room@[fresh].is_ia_down_for_me != post.person_to_room@[pre.waiting_list@[0].0].is_ia_down_for_me,
{
    assert(i == 0);
}

/// Says that asking for a bot match seated the fresh credential `fresh` in a
/// newly opened bot-controlled room with a freshly initialised session, and
/// that the reply carries that credential, its perspective, and the opening
/// turn order reread from that perspective.
pub open spec fn bot_room_opened(pre: AppState, post: AppState, r: RetVsCpuEntry, fresh: u128) -> bool {
    &&& (r matches RetVsCpuEntry::LetTheGameBegin {
        access_token,
        is_first_move_my_move,
        is_ia_down_for_me,
    } && {
        let room = post.person_to_room@[fresh].room_id.0;
        &&& access_token@ == uuid_text_of(fresh)
        &&& post.person_to_room@.contains_key(fresh)
        &&& post.person_to_room@[fresh].is_ia_down_for_me == is_ia_down_for_me
        &&& post.rooms_where_opponent_is_bot@.contains(room)
        &&& post.room_to_gamestate@.contains_key(room)
        &&& ({
            let gs = post.room_to_gamestate@[room];
            &&& gs.wf()
            &&& gs.season == 0
            &&& gs.state is AwaitingMove
            &&& gs.cur().len() == 0
            &&& (gs.is_first_move_ia_move@[0] matches Some(w0) && {
                &&& w0.result == gs.ia_side_to_move
                &&& (is_ia_down_for_me ==> is_first_move_my_move.result == w0.result
                    && is_first_move_my_move.process@ == w0.process@)
                &&& (!is_ia_down_for_me ==> is_negation(w0, is_first_move_my_move))
            })
        })
        &&& (forall|t: u128|
            t != fresh ==> (#[trigger] post.person_to_room@.contains_key(t)
                <==> pre.person_to_room@.contains_key(t)) && (pre.person_to_room@.contains_key(t)
                ==> post.person_to_room@[t] == pre.person_to_room@[t]))
    })
}

/// Opens a room against the bot: the fresh credential is seated at a random
/// perspective opposite a synthetic bot identity, the room is flagged as
/// bot-controlled, and its session is freshly initialised. Never waits.
#[must_use]
pub fn vs_cpu_entry_(is_staging: bool, data: &mut AppState) -> (r: RetVsCpuEntry)
    requires
        old(data).wf(),
    ensures
        final(data).wf(),
        final(data).waiting_list == old(data).waiting_list,
        exists|fresh: u128| #[trigger] bot_room_opened(*old(data), *final(data), r, fresh),
{
    let ghost pre = *data;
    let new_token = AccessToken::fresh();
    let bot_token = BotToken::fresh();
    let room_id = open_a_room_against_bot(bot_token, new_token, is_staging);
    let mut source = SystemTrialSource;
    let is_ia_down_for_newtoken = source.next_bool();
    let _ = data.person_to_room.insert(
        new_token.0,
        RoomInfoWithPerspective { room_id, is_ia_down_for_me: is_ia_down_for_newtoken },
    );
    let _ = data.rooms_where_opponent_is_bot.insert(room_id.0);
    let game_state = GameState::new();
    let is_first_move_my_move = game_state.is_first_move_my_move(is_ia_down_for_newtoken, 0);
    let _ = data.room_to_gamestate.insert(room_id.0, game_state);
    let r = RetVsCpuEntry::LetTheGameBegin {
        access_token: new_token.text(),
        is_first_move_my_move,
        is_ia_down_for_me: is_ia_down_for_newtoken,
    };
    proof {
        assert(bot_room_opened(pre, *data, r, new_token.0));
    }
    r
}

/// Polls the matchmaking pool for a credential: already seated in a room
/// (with the opening turn order reread from that credential's perspective),
/// still waiting, or unknown.
#[must_use]
pub fn random_entrance_poll_(
    _is_staging: bool,
    msg: &MsgWithAccessToken,
    data: &AppState,
) -> (r: RetRandomPoll)
    requires
        data.wf(),
    ensures
        uuid_of_text(msg.access_token@) is None ==> r is Illegal,
        uuid_of_text(msg.access_token@) matches Some(t) ==> {
            if data.person_to_room@.contains_key(t) {
                r matches RetRandomPoll::Legal {
                    ret: RetRandomEntry::RoomAlreadyAssigned {
                        access_token,
                        is_first_move_my_move,
                        is_ia_down_for_me,
                    },
                } && {
                    &&& access_token@ == uuid_text_of(t)
                    &&& is_ia_down_for_me == data.person_to_room@[t].is_ia_down_for_me
                    &&& is_first_move_my_move.wf()
                    &&& ({
                        let gs =
                            data.room_to_gamestate@[data.person_to_room@[t].room_id.0];
                        let stored = gs.is_first_move_ia_move@[0]->0;
                        if is_ia_down_for_me {
                            is_first_move_my_move.result == stored.result
                                && is_first_move_my_move.process@ == stored.process@
                        } else {
                            is_negation(stored, is_first_move_my_move)
                        }
                    })
                }
            } else if data.waiting_list@.contains(AccessToken(t)) {
                r matches RetRandomPoll::Legal {
                    ret: RetRandomEntry::InWaitingList { access_token },
                } && access_token@ == uuid_text_of(t)
            } else {
                r is Illegal
            }
        },
{
    match AccessToken::parse_str(msg.access_token.as_str()) {
        Err(_) => RetRandomPoll::Illegal {
            why_illegal: "access token could not be parsed".to_owned(),
        },
        Ok(access_token) => {
            match data.person_to_room.get(&access_token.0) {
                Some(room_perspective) => {
                    let game_state = match data.room_to_gamestate.get(
                        &room_perspective.room_id.0,
                    ) {
                        Some(g) => g,
                        None => unreached(),
                    };
                    let is_first_move_my_move = game_state.is_first_move_my_move(
                        room_perspective.is_ia_down_for_me,
                        0,
                    );
                    RetRandomPoll::Legal {
                        ret: RetRandomEntry::RoomAlreadyAssigned {
                            access_token: access_token.text(),
                            is_first_move_my_move,
                            is_ia_down_for_me: room_perspective.is_ia_down_for_me,
                        },
                    }
                },
                None => {
                    if pool_contains(&data.waiting_list, access_token.0) {
                        RetRandomPoll::Legal {
                            ret: RetRandomEntry::InWaitingList {
                                access_token: access_token.text(),
                            },
                        }
                    } else {
                        RetRandomPoll::Illegal {
                            why_illegal: "Invalid access token: please reapply".to_owned(),
                        }
                    }
                },
            }
        },
    }
}

/// Cancels a matchmaking wait. A credential that already owns a room cannot
/// cancel; a pooled credential is removed from the pool; an unknown
/// credential is reported cancellable all the same, so that cancelling is
/// idempotent.
#[must_use]
pub fn random_entrance_cancel(
    _is_staging: bool,
    msg: &MsgWithAccessToken,
    data: &mut AppState,
) -> (r: RetRandomCancel)
    requires
        old(data).wf(),
    ensures
        final(data).wf(),
        final(data).person_to_room@ == old(data).person_to_room@,
        final(data).room_to_gamestate@ == old(data).room_to_gamestate@,
        final(data).rooms_where_opponent_is_bot@ == old(data).rooms_where_opponent_is_bot@,
        uuid_of_text(msg.access_token@) is None ==> r is Illegal && final(data).waiting_list
            == old(data).waiting_list,
        uuid_of_text(msg.access_token@) matches Some(t) ==> {
            if old(data).person_to_room@.contains_key(t) {
                r == (RetRandomCancel::Legal { cancellable: false }) && final(data).waiting_list
                    == old(data).waiting_list
            } else {
                &&& r == (RetRandomCancel::Legal { cancellable: true })
                &&& forall|x: AccessToken|
                    #[trigger] final(data).waiting_list@.contains(x) <==> (old(
                        data,
                    ).waiting_list@.contains(x) && x.0 != t)
            }
        },
{
    match AccessToken::parse_str(msg.access_token.as_str()) {
        Err(_) => RetRandomCancel::Illegal {
            why_illegal: "access token could not be parsed".to_owned(),
        },
        Ok(access_token) => {
            if data.person_to_room.contains_key(&access_token.0) {
                RetRandomCancel::Legal { cancellable: false }
            } else {
                let ghost pool0 = data.waiting_list@;
                let mut kept: Vec<AccessToken> = Vec::new();
                let mut i: usize = 0;
                while i < data.waiting_list.len()
                    invariant
                        i <= data.waiting_list@.len(),
                        data.waiting_list@ == pool0,
                        forall|j: int|
                            0 <= j < kept@.len() ==> #[trigger] kept@[j].0 != access_token.0
                                && pool0.contains(kept@[j]),
                        forall|j: int|
                            0 <= j < i ==> (pool0[j].0 == access_token.0 || kept@.contains(
                                pool0[j],
                            )),
                    decreases data.waiting_list@.len() - i,
                {
                    let entry = data.waiting_list[i];
                    let ghost kept0 = kept@;
                    if entry.0 != access_token.0 {
                        kept.push(entry);
                        proof {
                            assert(pool0.contains(pool0[i as int]));
                            assert(kept@.last() == pool0[i as int]);
                            assert forall|j: int|
                                0 <= j < kept0.len() implies kept@.contains(kept0[j]) by {
                                assert(kept@[j] == kept0[j]);
                            }
                        }
                    }
                    i = i + 1;
                }
                proof {
                    assert forall|x: AccessToken| #[trigger]
                        kept@.contains(x) implies (pool0.contains(x) && x.0 != access_token.0) by {
                        let j = choose|j: int| 0 <= j < kept@.len() && kept@[j] == x;
                        assert(kept@[j].0 != access_token.0 && pool0.contains(kept@[j]));
                    }
                    assert forall|x: AccessToken| pool0.contains(x) && x.0
                        != access_token.0 implies #[trigger] kept@.contains(x) by {
                        let j = choose|j: int| 0 <= j < pool0.len() && pool0[j] == x;
                        assert(pool0[j].0 == access_token.0 || kept@.contains(pool0[j]));
                    }
                }
                data.waiting_list = kept;
                RetRandomCancel::Legal { cancellable: true }
            }
        },
    }
}

} // verus!
