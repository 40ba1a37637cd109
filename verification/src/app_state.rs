use std::collections::HashMap;
use std::collections::HashSet;

use vstd::prelude::*;

use crate::bot::bot_move;
use crate::bot::BotMove;
use crate::engine::moved_triggers_tymok_taxot;
use crate::game::HandCompletionStatus;
use crate::game_state::ledger_append_only;
use crate::game_state::lemma_ledger_append_only_trans;
use crate::game_state::GameState;
use crate::game_state::HandOutcome;
use crate::game_state::Phase;
use crate::message::RetMainPoll;
use crate::message::AfterHalfAcceptanceMessage;
use crate::message::InfAfterStepInternal;
use crate::message::MainMessage;
use crate::message::RetAfterHalfAcceptance;
use crate::message::RetInfAfterStep;
use crate::message::RetInfPoll;
use crate::message::RetNormalMove;
use crate::message::RetTaXot;
use crate::message::RetTyMok;
use crate::message::RetWhetherTyMokPoll;
use crate::misc::uuid_of_text;
use crate::misc::AccessToken;
use crate::misc::RoomInfoWithPerspective;
use crate::trial::WhoGoesFirst;

verus! {

broadcast use vstd::std_specs::hash::group_hash_axioms;

/// The whole service's shared registries: the matchmaking pool, the map from
/// credential to room perspective, the set of bot-controlled rooms, and the
/// map from room to its session. The caller serialises access (one exclusive
/// borrow per operation).
pub struct AppState {
    pub access_counter: i32,
    pub waiting_list: Vec<AccessToken>,
    pub person_to_room: HashMap<u128, RoomInfoWithPerspective>,
    pub rooms_where_opponent_is_bot: HashSet<u128>,
    pub room_to_gamestate: HashMap<u128, GameState>,
}

/// Runs the bot's whole turn in a session that is ready for a move: pick a
/// legal move at random, apply it (settling a stepping move's own
/// half-acceptance in the same turn), and resolve the hand, ending the
/// season at once where the applied move forces the decision. The session's
/// ledgers only ever grow.
fn run_bot_turn(game_state: &mut GameState) -> (r: RetMainPoll)
    requires
        old(game_state).wf(),
        old(game_state).state is AwaitingMove,
    ensures
        final(game_state).wf(),
        ledger_append_only(*old(game_state), *final(game_state)),
        r matches RetMainPoll::MoveMade { message, .. } ==> message == Some(
            crate::bot::TacticsKey::Neutral,
        ),
        r matches RetMainPoll::MoveMade { content, .. } ==> {
            &&& final(game_state).cur().len() > 0
            &&& content == final(game_state).cur().last().mov
            &&& final(game_state).ledger(old(game_state).season as int).len() == old(
                game_state,
            ).cur().len() + 1
        },
{
    let ghost g0 = *game_state;
    let bot = match &game_state.state {
        Phase::AwaitingMove(g) => bot_move(g, game_state.config),
        _ => unreached(),
    };
    let b = match bot {
        Some(b) => b,
        None => {
            return RetMainPoll::Illegal { why_illegal: "the bot has no legal move".to_owned() };
        },
    };
    let tactics = b.tactics;
    let moved_ok = match b.bot_move {
        BotMove::NormalMove(m) => {
            match game_state.apply_normal_move(m) {
                RetNormalMove::Illegal { .. } => false,
                _ => true,
            }
        },
        BotMove::InfAfterStep { dat, after } => {
            match game_state.apply_inf_after_step(dat) {
                RetInfAfterStep::Legal { ciurl } => {
                    let ghost gm = *game_state;
                    let c = ciurl.count();
                    let dest = after[c];
                    let ok = match game_state.apply_after_half_acceptance(dest) {
                        RetAfterHalfAcceptance::Illegal { .. } => false,
                        _ => true,
                    };
                    proof {
                        lemma_ledger_append_only_trans(g0, gm, *game_state);
                    }
                    ok
                },
                RetInfAfterStep::Illegal { .. } => false,
            }
        },
    };
    if !moved_ok {
        return RetMainPoll::Illegal { why_illegal: "the bot's move was rejected".to_owned() };
    }
    let ghost g1 = *game_state;
    match &game_state.state {
        Phase::MoveApplied(moved) => {
            if moved_triggers_tymok_taxot(moved) {
                let _ = game_state.apply_taxot();
            } else {
                let _ = game_state.apply_resolve();
            }
        },
        _ => {},
    }
    proof {
        lemma_ledger_append_only_trans(g0, g1, *game_state);
    }
    match game_state.get_last_move() {
        Some(m) => RetMainPoll::MoveMade { content: m.mov, message: Some(tactics) },
        None => RetMainPoll::NotYetDetermined,
    }
}

impl AppState {
    /// The registry invariant: every credential's room exists, and every
    /// room's session satisfies the session invariant.
    pub open spec fn wf(self) -> bool {
        &&& forall|t: u128|
            #[trigger] self.person_to_room@.contains_key(t)
                ==> self.room_to_gamestate@.contains_key(self.person_to_room@[t].room_id.0)
        &&& forall|r: u128|
            #[trigger] self.room_to_gamestate@.contains_key(r) ==> self.room_to_gamestate@[r].wf()
    }

    /// Everything but room `rid`'s session (and the access counter) is
    /// unchanged.
    pub open spec fn same_except_room(pre: AppState, post: AppState, rid: u128) -> bool {
        &&& post.access_counter == pre.access_counter
        &&& post.waiting_list == pre.waiting_list
        &&& post.person_to_room@ == pre.person_to_room@
        &&& post.rooms_where_opponent_is_bot@ == pre.rooms_where_opponent_is_bot@
        &&& post.room_to_gamestate@.dom() == pre.room_to_gamestate@.dom()
        &&& forall|r: u128|
            pre.room_to_gamestate@.contains_key(r) && r != rid
                ==> #[trigger] post.room_to_gamestate@[r] == pre.room_to_gamestate@[r]
    }

    /// An empty registry: nobody waiting, no rooms.
    pub fn new() -> (a: AppState)
        ensures
            a.wf(),
            a.waiting_list@.len() == 0,
            a.person_to_room@ == Map::<u128, RoomInfoWithPerspective>::empty(),
            a.room_to_gamestate@ == Map::<u128, GameState>::empty(),
            a.rooms_where_opponent_is_bot@ == Set::<u128>::empty(),
    {
        AppState {
            access_counter: 0,
            waiting_list: Vec::new(),
            person_to_room: HashMap::new(),
            rooms_where_opponent_is_bot: HashSet::new(),
            room_to_gamestate: HashMap::new(),
        }
    }

    /// Resolves a raw credential string to that credential's room
    /// perspective, or says why it cannot: the text may be unparsable, or
    /// parse to a credential that owns no room.
    pub fn parse_token_and_get_room_info(&self, raw_token: &str) -> (r: Result<
        RoomInfoWithPerspective,
        String,
    >)
        ensures
            uuid_of_text(raw_token@) is None ==> r is Err,
            uuid_of_text(raw_token@) matches Some(t) ==> (if self.person_to_room@.contains_key(t) {
                r == Ok::<RoomInfoWithPerspective, String>(self.person_to_room@[t])
            } else {
                r is Err
            }),
    {
        match AccessToken::parse_str(raw_token) {
            Err(_) => Err("Unparsable access token".to_owned()),
            Ok(access_token) => {
                match self.person_to_room.get(&access_token.0) {
                    None => Err("Unrecognized access token".to_owned()),
                    Some(room_info) => Ok(*room_info),
                }
            },
        }
    }

    /// Takes room `rid`'s session out of the registry.
    fn take_room(&mut self, rid: u128) -> (g: GameState)
        requires
            old(self).wf(),
            old(self).room_to_gamestate@.contains_key(rid),
        ensures
            g == old(self).room_to_gamestate@[rid],
            g.wf(),
            final(self).room_to_gamestate@ == old(self).room_to_gamestate@.remove(rid),
            final(self).access_counter == old(self).access_counter,
            final(self).waiting_list == old(self).waiting_list,
            final(self).person_to_room@ == old(self).person_to_room@,
            final(self).rooms_where_opponent_is_bot@ == old(self).rooms_where_opponent_is_bot@,
    {
        match self.room_to_gamestate.remove(&rid) {
            Some(g) => g,
            None => unreached(),
        }
    }

    /// Puts room `rid`'s session back into the registry.
    fn put_room(&mut self, rid: u128, g: GameState)
        requires
            g.wf(),
        ensures
            final(self).room_to_gamestate@ == old(self).room_to_gamestate@.insert(rid, g),
            final(self).access_counter == old(self).access_counter,
            final(self).waiting_list == old(self).waiting_list,
            final(self).person_to_room@ == old(self).person_to_room@,
            final(self).rooms_where_opponent_is_bot@ == old(self).rooms_where_opponent_is_bot@,
    {
        let _ = self.room_to_gamestate.insert(rid, g);
    }

    /// Applies a submitted ordinary move to the credential's room and then
    /// resolves the hand. A stepping-move submission is redirected to its own
    /// operation's endpoint by a typed rejection. The room's ledger only ever
    /// grows, and a move succeeds only from `AwaitingMove`.
    pub fn analyze_main_message_and_update(
        &mut self,
        message: MainMessage,
        room_info: &RoomInfoWithPerspective,
    ) -> (r: RetNormalMove)
        requires
            old(self).wf(),
            old(self).room_to_gamestate@.contains_key(room_info.room_id.0),
        ensures
            final(self).wf(),
            AppState::same_except_room(*old(self), *final(self), room_info.room_id.0),
            final(self).room_to_gamestate@.contains_key(room_info.room_id.0),
            ({
                let pre = old(self).room_to_gamestate@[room_info.room_id.0];
                let post = final(self).room_to_gamestate@[room_info.room_id.0];
                &&& crate::game_state::ledger_append_only(pre, post)
                &&& post.wf()
                &&& (!(pre.state is AwaitingMove) ==> !(r is WithoutWaterEntry) && !(r matches
                    RetNormalMove::WithWaterEntry { .. }))
                &&& (message matches MainMessage::InfAfterStep { .. } ==> r is Illegal)
                &&& (r is Illegal && !(pre.state is MoveApplied) ==> post == pre)
                &&& (!(r is Illegal) ==> post.state is MoveApplied || post.state is AwaitingMove)
                &&& (!(r is Illegal) ==> post.season == pre.season && post.ledger(
                    pre.season as int,
                ).len() == pre.cur().len() + 1 && ({
                    let rec = post.ledger(pre.season as int)[pre.cur().len() as int];
                    let w = match r {
                        RetNormalMove::WithWaterEntry { ciurl } => Some(ciurl),
                        _ => None,
                    };
                    &&& rec.by_ia_owner == pre.ia_side_to_move
                    &&& rec.mov == (match message {
                        MainMessage::NonTamMove { data } => crate::game_state::spec_polled(
                            crate::game::NormalMove::NonTamMove { data },
                            w,
                        ),
                        MainMessage::TamMove { flatten } => crate::game_state::spec_polled(
                            crate::game::NormalMove::TamMove { flatten },
                            w,
                        ),
                        MainMessage::InfAfterStep { .. } => rec.mov,
                    })
                }))
            }),
    {
        let rid = room_info.room_id.0;
        let mut game_state = self.take_room(rid);
        let res = match message {
            MainMessage::NonTamMove { data } => game_state.apply_normal_move(
                crate::game::NormalMove::NonTamMove { data },
            ),
            MainMessage::TamMove { flatten } => game_state.apply_normal_move(
                crate::game::NormalMove::TamMove { flatten },
            ),
            MainMessage::InfAfterStep { .. } => RetNormalMove::Illegal {
                why_illegal: "a stepping move must be sent to its own endpoint".to_owned(),
            },
        };
        let _ = game_state.apply_resolve();
        self.put_room(rid, game_state);
        proof {
            assert(final(self).room_to_gamestate@.dom() =~= old(
                self,
            ).room_to_gamestate@.dom().insert(rid));
            assert(final(self).room_to_gamestate@.dom() =~= old(self).room_to_gamestate@.dom());
        }
        res
    }

    /// Begins a submitted stepping move in the credential's room and then
    /// resolves the hand (which, with the half-acceptance still pending,
    /// leaves the provisional record in place).
    pub fn analyze_inf_after_step_and_update(
        &mut self,
        message: MainMessage,
        room_info: &RoomInfoWithPerspective,
    ) -> (r: RetInfAfterStep)
        requires
            old(self).wf(),
            old(self).room_to_gamestate@.contains_key(room_info.room_id.0),
        ensures
            final(self).wf(),
            AppState::same_except_room(*old(self), *final(self), room_info.room_id.0),
            final(self).room_to_gamestate@.contains_key(room_info.room_id.0),
            ({
                let pre = old(self).room_to_gamestate@[room_info.room_id.0];
                let post = final(self).room_to_gamestate@[room_info.room_id.0];
                &&& crate::game_state::ledger_append_only(pre, post)
                &&& post.wf()
                &&& (!(pre.state is AwaitingMove) ==> r is Illegal)
                &&& (r is Illegal && !(pre.state is MoveApplied) ==> post == pre)
                &&& (r matches RetInfAfterStep::Legal { .. } ==> post.state
                    is AwaitingHalfAcceptance && post.season == pre.season)
                &&& (r matches RetInfAfterStep::Legal { ciurl } ==> post.cur() == pre.cur().push(
                    crate::game::MovePiece {
                        mov: (match message {
                            MainMessage::InfAfterStep { flatten } => crate::message::MoveToBePolled::InfAfterStep {
                                src: flatten.src,
                                step: flatten.step,
                                coord_signifying_planned_direction: flatten.coord_signifying_planned_direction,
                                stepping_ciurl: ciurl,
                                final_result: None,
                            },
                            _ => pre.cur().last().mov,
                        }),
                        status: Some(HandCompletionStatus::NotYetDetermined),
                        by_ia_owner: pre.ia_side_to_move,
                    },
                ))
                &&& (!(message matches MainMessage::InfAfterStep { .. }) ==> r is Illegal)
            }),
    {
        let rid = room_info.room_id.0;
        let mut game_state = self.take_room(rid);
        let res = match message {
            MainMessage::InfAfterStep { flatten } => game_state.apply_inf_after_step(flatten),
            _ => RetInfAfterStep::Illegal {
                why_illegal: "only a stepping move may be sent to this endpoint".to_owned(),
            },
        };
        let _ = game_state.apply_resolve();
        self.put_room(rid, game_state);
        proof {
            assert(final(self).room_to_gamestate@.dom() =~= old(self).room_to_gamestate@.dom());
        }
        res
    }

    /// Settles the pending stepping move in the credential's room with the
    /// submitted half-acceptance decision, and then resolves the hand.
    pub fn analyze_afterhalfacceptance_message_and_update(
        &mut self,
        message: AfterHalfAcceptanceMessage,
        room_info: &RoomInfoWithPerspective,
    ) -> (r: RetAfterHalfAcceptance)
        requires
            old(self).wf(),
            old(self).room_to_gamestate@.contains_key(room_info.room_id.0),
        ensures
            final(self).wf(),
            AppState::same_except_room(*old(self), *final(self), room_info.room_id.0),
            final(self).room_to_gamestate@.contains_key(room_info.room_id.0),
            ({
                let pre = old(self).room_to_gamestate@[room_info.room_id.0];
                let post = final(self).room_to_gamestate@[room_info.room_id.0];
                &&& crate::game_state::ledger_append_only(pre, post)
                &&& post.wf()
                &&& (!(pre.state is AwaitingHalfAcceptance) ==> r is Illegal)
                &&& (r is Illegal && !(pre.state is MoveApplied) ==> post == pre)
                &&& (!(r is Illegal) ==> post.state is MoveApplied || post.state is AwaitingMove)
                &&& (pre.state is AwaitingHalfAcceptance && (message matches
                    AfterHalfAcceptanceMessage::AfterHalfAcceptance { dest: None }) ==> r
                    is WithoutWaterEntry)
                &&& (!(r is Illegal) ==> post.season == pre.season && post.ledger(
                    pre.season as int,
                ).len() == pre.cur().len() && ({
                    let pending = pre.cur().last();
                    let d = match message {
                        AfterHalfAcceptanceMessage::AfterHalfAcceptance { dest: Some(d0) } => d0,
                        _ => pending.mov->InfAfterStep_src,
                    };
                    let w = match r {
                        RetAfterHalfAcceptance::WithWaterEntry { ciurl } => Some(ciurl),
                        _ => None,
                    };
                    post.ledger(pre.season as int)[pre.cur().len() - 1].mov
                        == crate::game_state::filled_record(pending, d, w).mov
                }))
            }),
    {
        let rid = room_info.room_id.0;
        let mut game_state = self.take_room(rid);
        let res = match message {
            AfterHalfAcceptanceMessage::AfterHalfAcceptance { dest } => game_state.apply_after_half_acceptance(
                dest,
            ),
        };
        let _ = game_state.apply_resolve();
        self.put_room(rid, game_state);
        proof {
            assert(final(self).room_to_gamestate@.dom() =~= old(self).room_to_gamestate@.dom());
        }
        res
    }

    /// Commits the "continue this season" decision for the credential's
    /// room. Rejected when it is not that credential's decision to make, or
    /// when no hand decision is pending.
    pub fn receive_tymok_and_update(&mut self, room_info: &RoomInfoWithPerspective) -> (r:
        RetTyMok)
        requires
            old(self).wf(),
            old(self).room_to_gamestate@.contains_key(room_info.room_id.0),
        ensures
            final(self).wf(),
            AppState::same_except_room(*old(self), *final(self), room_info.room_id.0),
            final(self).room_to_gamestate@.contains_key(room_info.room_id.0),
            ({
                let pre = old(self).room_to_gamestate@[room_info.room_id.0];
                let post = final(self).room_to_gamestate@[room_info.room_id.0];
                &&& crate::game_state::ledger_append_only(pre, post)
                &&& post.wf()
                &&& (r is Illegal ==> post == pre)
                &&& (pre.ia_side_to_move != room_info.is_ia_down_for_me ==> r is Illegal)
                &&& (!(pre.state is MoveApplied) ==> r is Illegal)
                &&& (r is Legal ==> post.state is AwaitingMove
                    && crate::game_state::GameState::frame_except_current_ledger(pre, post)
                    && post.cur() == pre.cur().update(
                    pre.cur().len() - 1,
                    crate::game::MovePiece {
                        status: Some(HandCompletionStatus::TyMok),
                        ..pre.cur().last()
                    },
                ))
            }),
    {
        let rid = room_info.room_id.0;
        let mut game_state = self.take_room(rid);
        let res = if room_info.is_ia_down_for_me != game_state.is_ia_owner_s_turn() {
            RetTyMok::Illegal
        } else {
            game_state.apply_tymok()
        };
        self.put_room(rid, game_state);
        proof {
            assert(final(self).room_to_gamestate@.dom() =~= old(self).room_to_gamestate@.dom());
        }
        res
    }

    /// Commits the "end this season" decision for the credential's room.
    /// Rejected when it is not that credential's decision to make, or when no
    /// hand decision is pending; otherwise either the match end is reported
    /// or the next season opens with a fresh turn-order decision.
    pub fn receive_taxot_and_update(&mut self, room_info: &RoomInfoWithPerspective) -> (r:
        RetTaXot)
        requires
            old(self).wf(),
            old(self).room_to_gamestate@.contains_key(room_info.room_id.0),
        ensures
            final(self).wf(),
            AppState::same_except_room(*old(self), *final(self), room_info.room_id.0),
            final(self).room_to_gamestate@.contains_key(room_info.room_id.0),
            ({
                let pre = old(self).room_to_gamestate@[room_info.room_id.0];
                let post = final(self).room_to_gamestate@[room_info.room_id.0];
                &&& crate::game_state::ledger_append_only(pre, post)
                &&& post.wf()
                &&& (r is Illegal ==> post == pre)
                &&& (pre.ia_side_to_move != room_info.is_ia_down_for_me ==> r is Illegal)
                &&& (!(pre.state is MoveApplied) ==> r is Illegal)
                &&& (r matches RetTaXot::Legal { is_first_move_my_move: Some(w) } ==> {
                    &&& w.wf()
                    &&& post.state is AwaitingMove
                    &&& post.season == (if pre.season < 3 {
                        pre.season + 1
                    } else {
                        3
                    })
                    &&& w.result == post.ia_side_to_move
                    &&& post.ledger(pre.season as int) == pre.cur().update(
                        pre.cur().len() - 1,
                        crate::game::MovePiece {
                            status: Some(HandCompletionStatus::TaXot),
                            ..pre.cur().last()
                        },
                    )
                })
            }),
    {
        let rid = room_info.room_id.0;
        let mut game_state = self.take_room(rid);
        let res = if room_info.is_ia_down_for_me != game_state.is_ia_owner_s_turn() {
            RetTaXot::Illegal
        } else {
            game_state.apply_taxot()
        };
        self.put_room(rid, game_state);
        proof {
            assert(final(self).room_to_gamestate@.dom() =~= old(self).room_to_gamestate@.dom());
        }
        res
    }

    /// Answers a poll for the opponent's hand decision: continued, ended
    /// (with the next season's turn-order decision read from the asking
    /// credential's perspective), or not yet determined.
    pub fn reply_to_whether_tymok_poll(&self, room_info: &RoomInfoWithPerspective) -> (r:
        RetWhetherTyMokPoll)
        requires
            self.wf(),
            self.room_to_gamestate@.contains_key(room_info.room_id.0),
        ensures
            ({
                let gs = self.room_to_gamestate@[room_info.room_id.0];
                if gs.cur().len() == 0 {
                    r is NotYetDetermined
                } else {
                    match gs.cur().last().status {
                        Some(HandCompletionStatus::TaXot) => r matches
                            RetWhetherTyMokPoll::TaXot { is_first_move_my_move: Some(w) } && w.wf()
                            && ({
                            let stored = gs.is_first_move_ia_move@[gs.season as int]->0;
                            if room_info.is_ia_down_for_me {
                                w.result == stored.result && w.process@ == stored.process@
                            } else {
                                crate::trial::is_negation(stored, w)
                            }
                        }),
                        Some(HandCompletionStatus::TyMok) => r is TyMok,
                        _ => r is NotYetDetermined,
                    }
                }
            }),
    {
        let game_state = match self.room_to_gamestate.get(&room_info.room_id.0) {
            Some(g) => g,
            None => unreached(),
        };
        match game_state.get_last_move() {
            Some(mov) => {
                match mov.status {
                    Some(HandCompletionStatus::TaXot) => RetWhetherTyMokPoll::TaXot {
                        is_first_move_my_move: Some(
                            game_state.is_first_move_my_move(
                                room_info.is_ia_down_for_me,
                                game_state.get_season(),
                            ),
                        ),
                    },
                    Some(HandCompletionStatus::TyMok) => RetWhetherTyMokPoll::TyMok,
                    Some(HandCompletionStatus::NotYetDetermined) => RetWhetherTyMokPoll::NotYetDetermined,
                    None => RetWhetherTyMokPoll::NotYetDetermined,
                }
            },
            None => RetWhetherTyMokPoll::NotYetDetermined,
        }
    }

    /// Answers a poll for the opponent's move. If the most recent move was
    /// made by the other seat it is returned as it stands. Otherwise, in a
    /// bot-controlled room where it is the bot's seat to move, the bot takes
    /// its whole turn now: it picks a legal move at random, applies it (for a
    /// stepping move, settling its own half-acceptance from the precomputed
    /// table in the same turn), resolves the hand, and the finished move is
    /// returned with the bot's tactics label. Against a human opponent the
    /// poll reports that nothing has been determined yet.
    pub fn reply_to_main_poll(&mut self, room_info: &RoomInfoWithPerspective) -> (r: RetMainPoll)
        requires
            old(self).wf(),
            old(self).room_to_gamestate@.contains_key(room_info.room_id.0),
        ensures
            final(self).wf(),
            AppState::same_except_room(*old(self), *final(self), room_info.room_id.0),
            final(self).room_to_gamestate@.contains_key(room_info.room_id.0),
            ({
                let pre = old(self).room_to_gamestate@[room_info.room_id.0];
                let post = final(self).room_to_gamestate@[room_info.room_id.0];
                &&& ledger_append_only(pre, post)
                &&& post.wf()
                &&& (pre.cur().len() > 0 && pre.cur().last().by_ia_owner
                    != room_info.is_ia_down_for_me ==> post == pre && r == (RetMainPoll::MoveMade {
                    content: pre.cur().last().mov,
                    message: None,
                }))
                &&& (!(pre.cur().len() > 0 && pre.cur().last().by_ia_owner
                    != room_info.is_ia_down_for_me) && !old(
                    self,
                ).rooms_where_opponent_is_bot@.contains(room_info.room_id.0) ==> post == pre && r
                    is NotYetDetermined)
                &&& (r matches RetMainPoll::MoveMade { content, message: Some(t) } ==> {
                    &&& t == crate::bot::TacticsKey::Neutral
                    &&& post.cur().len() > 0
                    &&& content == post.cur().last().mov
                    &&& post.ledger(pre.season as int).len() == pre.cur().len() + 1
                })
            }),
    {
        let rid = room_info.room_id.0;
        let is_bot = self.rooms_where_opponent_is_bot.contains(&rid);
        let mut game_state = self.take_room(rid);
        let last = game_state.get_last_move();
        let opponent_moved = match &last {
            Some(m) => m.by_ia_owner != room_info.is_ia_down_for_me,
            None => false,
        };
        let res = if opponent_moved {
            match last {
                Some(m) => RetMainPoll::MoveMade { content: m.mov, message: None },
                None => unreached(),
            }
        } else if is_bot && game_state.is_ia_owner_s_turn() != room_info.is_ia_down_for_me {
            match &game_state.state {
                Phase::AwaitingMove(_) => run_bot_turn(&mut game_state),
                _ => RetMainPoll::NotYetDetermined,
            }
        } else {
            RetMainPoll::NotYetDetermined
        };
        self.put_room(rid, game_state);
        proof {
            assert(final(self).room_to_gamestate@.dom() =~= old(self).room_to_gamestate@.dom());
        }
        res
    }

    /// Answers a poll for a stepping move's deferred outcome: the finished
    /// move once its final result is filled in, not yet determined while the
    /// half-acceptance is pending, and a typed rejection when there is no
    /// last move, the last move is the asking credential's own, or the last
    /// move is not a stepping move.
    pub fn reply_to_inf_poll(&self, room_info: &RoomInfoWithPerspective) -> (r: RetInfPoll)
        requires
            self.wf(),
            self.room_to_gamestate@.contains_key(room_info.room_id.0),
        ensures
            ({
                let gs = self.room_to_gamestate@[room_info.room_id.0];
                if gs.cur().len() == 0 {
                    r is Illegal
                } else {
                    let last = gs.cur().last();
                    if last.by_ia_owner == room_info.is_ia_down_for_me {
                        r is Illegal
                    } else {
                        match last.mov {
                            crate::message::MoveToBePolled::InfAfterStep { final_result, .. } => (
                            match final_result {
                                Some(_) => r == RetInfPoll::MoveMade { content: last.mov },
                                None => r is NotYetDetermined,
                            }),
                            _ => r is Illegal,
                        }
                    }
                }
            }),
    {
        let game_state = match self.room_to_gamestate.get(&room_info.room_id.0) {
            Some(g) => g,
            None => unreached(),
        };
        match game_state.get_last_move() {
            None => RetInfPoll::Illegal { why_illegal: "there is no last move".to_owned() },
            Some(last_move) => {
                if room_info.is_ia_down_for_me == last_move.by_ia_owner {
                    RetInfPoll::Illegal { why_illegal: "it's not your turn".to_owned() }
                } else {
                    match &last_move.mov {
                        crate::message::MoveToBePolled::InfAfterStep { final_result, .. } => {
                            match final_result {
                                Some(_) => RetInfPoll::MoveMade { content: last_move.mov },
                                None => RetInfPoll::NotYetDetermined,
                            }
                        },
                        _ => RetInfPoll::Illegal {
                            why_illegal: "InfAfterStep is not happening".to_owned(),
                        },
                    }
                }
            },
        }
    }
}

} // verus!
