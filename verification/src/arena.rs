//! The match state machine.
//!
//! A match runs Waiting -> PlayerAJoined -> BothJoined -> Combat -> Resolved.
//! Two players join with equal stakes, submit disjoint teams of three catalog
//! champions, then fight rounds under a commit-reveal scheme: each round both
//! players first commit to a hashed move, then reveal it; when the second
//! reveal lands the round resolves immediately. A fully knocked-out team ends
//! the match and pays the pot to the winner; an expired timeout lets either
//! player close an abandoned match. Every procedure is all-or-nothing: on an
//! error the state is unchanged.
//!
//! The machine is pure: callers pass in the current block height and receive
//! payout instructions as values. Each transition is specified exactly by a
//! `spec_*` function of the old state and the inputs.

use vstd::prelude::*;
use crate::champions::N_CHAMPIONS;
use crate::codec::{spec_decode_move, MOVE_MAX, MOVE_MIN};
use crate::combat::{init_champion_state, is_team_eliminated, resolve_turn, spec_init_state};
use crate::combat_model::{lemma_resolve_turn_fits, spec_resolve_turn};
use crate::rpo::{rpo_digest3, rpo_hash3};
use crate::types::{count_active, state_wf, ChampionState, ChampionStateView, MAX_BUFFS};

verus! {

/// Stake each player must escrow to join, in base units of the stake asset.
pub const STAKE_AMOUNT: u64 = 10000000;

/// Number of blocks a phase may sit idle before `claim_timeout` can close the
/// match.
pub const TIMEOUT_BLOCKS: u64 = 900;

/// Base of the payout-id band used by timeout payouts. Normal resolution uses
/// the round number, which stays far below this, so the two triggers can never
/// collide.
pub const TIMEOUT_PAYOUT_BASE: u64 = 1000000;

/// Lifecycle phase of a match.
#[derive(Clone, Copy, Debug, PartialEq, Eq, Structural)]
pub enum Phase {
    Waiting,
    PlayerAJoined,
    BothJoined,
    Combat,
    Resolved,
}

/// Numeric code of a phase, as persisted.
pub open spec fn phase_code(p: Phase) -> int {
    match p {
        Phase::Waiting => 0,
        Phase::PlayerAJoined => 1,
        Phase::BothJoined => 2,
        Phase::Combat => 3,
        Phase::Resolved => 4,
    }
}

/// Outcome of a resolved match.
#[derive(Clone, Copy, Debug, PartialEq, Eq, Structural)]
pub enum Winner {
    Undecided,
    PlayerA,
    PlayerB,
    Draw,
}

/// A player identity: the two field elements of an account id.
#[derive(Clone, Copy, Debug, PartialEq, Eq, Structural)]
pub struct PlayerId {
    pub prefix: u64,
    pub suffix: u64,
}

/// One payout instruction: credit `amount` to `recipient`. The `payout_id`
/// seeds the payout note so that two equal transfers never collide; ids of
/// distinct triggers come from disjoint bands.
#[derive(Clone, Copy, Debug, PartialEq, Eq, Structural)]
pub struct Payout {
    pub recipient: PlayerId,
    pub amount: u64,
    pub payout_id: u64,
}

/// Why a procedure call was rejected. Every rejection leaves the match state
/// exactly as it was.
#[derive(Clone, Copy, Debug, PartialEq, Eq, Structural)]
pub enum ArenaError {
    /// The stake does not equal [`STAKE_AMOUNT`].
    WrongStake,
    /// `join` outside Waiting or PlayerAJoined.
    MatchFull,
    /// The joined player tried to join again as its own opponent.
    SelfPlay,
    /// The procedure does not apply to the current phase.
    WrongPhase,
    /// The caller is not a player of this match.
    NotAPlayer,
    /// The caller already submitted a team.
    TeamAlreadySet,
    /// A champion id outside the catalog.
    InvalidChampionId,
    /// The same champion twice in one team.
    DuplicateChampion,
    /// A champion already taken by the opposing team.
    ChampionOverlap,
    /// A second commitment in the same round.
    AlreadyCommitted,
    /// A reveal without a commitment.
    NoCommitment,
    /// A second reveal in the same round.
    AlreadyRevealed,
    /// The revealed move does not hash to the commitment.
    CommitmentMismatch,
    /// The revealed move is outside [MOVE_MIN, MOVE_MAX].
    MoveOutOfRange,
    /// The revealed move names a champion not on the caller's team.
    ChampionNotOnTeam,
    /// The revealed move names a knocked-out champion.
    ChampionKnockedOut,
    /// A stat modifier found no free buff slot; the round has no outcome.
    BuffCapacity,
    /// `claim_timeout` before the deadline passed.
    TimeoutNotReached,
    /// `claim_timeout` outside the three active phases.
    MatchNotActive,
}

/// Full state of one match.
#[derive(Debug)]
pub struct MatchState {
    pub phase: Phase,
    pub player_a: PlayerId,
    pub player_b: PlayerId,
    pub stake_a: u64,
    pub stake_b: u64,
    pub team_a_set: bool,
    pub team_b_set: bool,
    pub team_a: [u8; 3],
    pub team_b: [u8; 3],
    pub round: u64,
    pub commit_a: [u64; 4],
    pub commit_b: [u64; 4],
    pub reveal_a: [u64; 4],
    pub reveal_b: [u64; 4],
    pub champs_a: [ChampionState; 3],
    pub champs_b: [ChampionState; 3],
    pub timeout_height: u64,
    pub winner: Winner,
}

/// Mathematical image of a [`MatchState`].
#[verifier::ext_equal]
pub ghost struct MatchStateView {
    pub phase: Phase,
    pub player_a: PlayerId,
    pub player_b: PlayerId,
    pub stake_a: int,
    pub stake_b: int,
    pub team_a_set: bool,
    pub team_b_set: bool,
    pub team_a: Seq<u8>,
    pub team_b: Seq<u8>,
    pub round: int,
    pub commit_a: Seq<u64>,
    pub commit_b: Seq<u64>,
    pub reveal_a: Seq<u64>,
    pub reveal_b: Seq<u64>,
    pub champs_a: Seq<ChampionStateView>,
    pub champs_b: Seq<ChampionStateView>,
    pub timeout_height: int,
    pub winner: Winner,
}

impl View for MatchState {
    type V = MatchStateView;

    open spec fn view(&self) -> MatchStateView {
        MatchStateView {
            phase: self.phase,
            player_a: self.player_a,
            player_b: self.player_b,
            stake_a: self.stake_a as int,
            stake_b: self.stake_b as int,
            team_a_set: self.team_a_set,
            team_b_set: self.team_b_set,
            team_a: self.team_a@,
            team_b: self.team_b@,
            round: self.round as int,
            commit_a: self.commit_a@,
            commit_b: self.commit_b@,
            reveal_a: self.reveal_a@,
            reveal_b: self.reveal_b@,
            champs_a: Seq::new(3, |i: int| self.champs_a@[i]@),
            champs_b: Seq::new(3, |i: int| self.champs_b@[i]@),
            timeout_height: self.timeout_height as int,
            winner: self.winner,
        }
    }
}

/// Addition on block heights and payout ids, saturating at the 64-bit limit.
pub open spec fn spec_sat_add(a: int, b: int) -> int {
    if a + b <= u64::MAX as int {
        a + b
    } else {
        u64::MAX as int
    }
}

/// Whether a stored word is the empty (all-zero) word. An empty commit or
/// reveal slot means "not submitted this round".
pub open spec fn spec_word_empty(w: Seq<u64>) -> bool {
    w[0] == 0 && w[1] == 0 && w[2] == 0 && w[3] == 0
}

/// The all-zero word.
pub open spec fn spec_zero_word() -> Seq<u64> {
    seq![0u64, 0u64, 0u64, 0u64]
}

/// Three distinct in-catalog champion ids.
pub open spec fn team_valid(t: Seq<u8>) -> bool {
    &&& t.len() == 3
    &&& t[0] < N_CHAMPIONS && t[1] < N_CHAMPIONS && t[2] < N_CHAMPIONS
    &&& t[0] != t[1] && t[0] != t[2] && t[1] != t[2]
}

/// No champion appears on both teams.
pub open spec fn teams_disjoint(t1: Seq<u8>, t2: Seq<u8>) -> bool {
    forall|i: int, j: int| 0 <= i < 3 && 0 <= j < 3 ==> t1[i] != t2[j]
}

/// Some champion appears on both teams (the check `set_team` performs).
pub open spec fn teams_overlap(t1: Seq<u8>, t2: Seq<u8>) -> bool {
    ||| t1[0] == t2[0]
    ||| t1[0] == t2[1]
    ||| t1[0] == t2[2]
    ||| t1[1] == t2[0]
    ||| t1[1] == t2[1]
    ||| t1[1] == t2[2]
    ||| t1[2] == t2[0]
    ||| t1[2] == t2[1]
    ||| t1[2] == t2[2]
}

/// Index of `id` in a team of three, or -1.
pub open spec fn spec_team_index(t: Seq<u8>, id: u8) -> int {
    if t[0] == id {
        0
    } else if t[1] == id {
        1
    } else if t[2] == id {
        2
    } else {
        -1
    }
}

/// A submitted team side is coherent: the team is valid and each of its three
/// combatant states is well formed and carries the champion id of its slot.
pub open spec fn side_wf(team: Seq<u8>, champs: Seq<ChampionStateView>) -> bool {
    &&& team_valid(team)
    &&& champs.len() == 3
    &&& forall|i: int| 0 <= i < 3 ==> state_wf(#[trigger] champs[i])
    &&& forall|i: int| 0 <= i < 3 ==> (#[trigger] champs[i]).id == team[i] as int
}

/// A stored reveal is coherent: the move is in range and names a living
/// champion on the given team.
pub open spec fn reveal_wf(reveal: Seq<u64>, team: Seq<u8>, champs: Seq<ChampionStateView>) -> bool {
    &&& MOVE_MIN as int <= reveal[0] as int <= MOVE_MAX as int
    &&& spec_team_index(team, spec_decode_move(reveal[0] as int).champion_id) >= 0
    &&& !champs[spec_team_index(team, spec_decode_move(reveal[0] as int).champion_id)].is_ko
}

/// The match invariant. Every procedure preserves it.
pub open spec fn match_wf(s: MatchStateView) -> bool {
    &&& s.team_a.len() == 3 && s.team_b.len() == 3
    &&& s.champs_a.len() == 3 && s.champs_b.len() == 3
    &&& s.commit_a.len() == 4 && s.commit_b.len() == 4
    &&& s.reveal_a.len() == 4 && s.reveal_b.len() == 4
    &&& (s.phase == Phase::PlayerAJoined || s.phase == Phase::BothJoined || s.phase
        == Phase::Combat) ==> s.stake_a == STAKE_AMOUNT as int
    &&& (s.phase == Phase::BothJoined || s.phase == Phase::Combat) ==> s.stake_b
        == STAKE_AMOUNT as int && s.player_a != s.player_b
    &&& s.team_a_set ==> side_wf(s.team_a, s.champs_a)
    &&& s.team_b_set ==> side_wf(s.team_b, s.champs_b)
    &&& s.team_a_set && s.team_b_set ==> teams_disjoint(s.team_a, s.team_b)
    &&& s.phase == Phase::Combat ==> s.team_a_set && s.team_b_set
    &&& phase_code(s.phase) <= 2 ==> spec_word_empty(s.commit_a) && spec_word_empty(s.commit_b)
        && spec_word_empty(s.reveal_a) && spec_word_empty(s.reveal_b)
    &&& s.phase == Phase::Combat && !spec_word_empty(s.reveal_a) ==> reveal_wf(
        s.reveal_a,
        s.team_a,
        s.champs_a,
    )
    &&& s.phase == Phase::Combat && !spec_word_empty(s.reveal_b) ==> reveal_wf(
        s.reveal_b,
        s.team_b,
        s.champs_b,
    )
}

// ---------------------------------------------------------------------------
// Transition specifications
// ---------------------------------------------------------------------------

/// The freshly created match: Waiting, everything zeroed.
pub open spec fn spec_blank_state() -> ChampionStateView {
    ChampionStateView {
        id: 0,
        current_hp: 0,
        max_hp: 0,
        buffs: Seq::new(MAX_BUFFS as nat, |i: int| crate::types::spec_empty_buff()),
        buff_count: 0,
        burn_turns: 0,
        is_ko: false,
        total_damage_dealt: 0,
    }
}

/// The freshly created match.
pub open spec fn spec_new_match() -> MatchStateView {
    MatchStateView {
        phase: Phase::Waiting,
        player_a: PlayerId { prefix: 0, suffix: 0 },
        player_b: PlayerId { prefix: 0, suffix: 0 },
        stake_a: 0,
        stake_b: 0,
        team_a_set: false,
        team_b_set: false,
        team_a: seq![0u8, 0u8, 0u8],
        team_b: seq![0u8, 0u8, 0u8],
        round: 0,
        commit_a: spec_zero_word(),
        commit_b: spec_zero_word(),
        reveal_a: spec_zero_word(),
        reveal_b: spec_zero_word(),
        champs_a: seq![spec_blank_state(), spec_blank_state(), spec_blank_state()],
        champs_b: seq![spec_blank_state(), spec_blank_state(), spec_blank_state()],
        timeout_height: 0,
        winner: Winner::Undecided,
    }
}

/// `join`: the exact stake is required; the first caller becomes player A
/// (Waiting -> PlayerAJoined), a second, different identity becomes player B
/// (PlayerAJoined -> BothJoined). Each join arms the timeout. Joining twice
/// with the same identity is self-play and rejected; any later phase is full.
pub open spec fn spec_join(s: MatchStateView, player: PlayerId, stake: int, now: int) -> (
    MatchStateView,
    Result<(), ArenaError>,
) {
    if stake != STAKE_AMOUNT as int {
        (s, Err(ArenaError::WrongStake))
    } else if s.phase == Phase::Waiting {
        (
            MatchStateView {
                phase: Phase::PlayerAJoined,
                player_a: player,
                stake_a: stake,
                timeout_height: spec_sat_add(now, TIMEOUT_BLOCKS as int),
                ..s
            },
            Ok(()),
        )
    } else if s.phase == Phase::PlayerAJoined {
        if player == s.player_a {
            (s, Err(ArenaError::SelfPlay))
        } else {
            (
                MatchStateView {
                    phase: Phase::BothJoined,
                    player_b: player,
                    stake_b: stake,
                    timeout_height: spec_sat_add(now, TIMEOUT_BLOCKS as int),
                    ..s
                },
                Ok(()),
            )
        }
    } else {
        (s, Err(ArenaError::MatchFull))
    }
}

/// `set_team`: only in BothJoined, only by a joined player, once per player.
/// The three ids must be distinct catalog champions, disjoint from an already
/// submitted opposing team. The side's three combatant states are initialized
/// from the catalog. The second submission starts Combat and re-arms the
/// timeout.
pub open spec fn spec_set_team(
    s: MatchStateView,
    player: PlayerId,
    c0: u64,
    c1: u64,
    c2: u64,
    now: int,
) -> (MatchStateView, Result<(), ArenaError>) {
    if s.phase != Phase::BothJoined {
        (s, Err(ArenaError::WrongPhase))
    } else if player != s.player_a && player != s.player_b {
        (s, Err(ArenaError::NotAPlayer))
    } else {
        let is_a = player == s.player_a;
        if (if is_a {
            s.team_a_set
        } else {
            s.team_b_set
        }) {
            (s, Err(ArenaError::TeamAlreadySet))
        } else if !(c0 < N_CHAMPIONS as u64 && c1 < N_CHAMPIONS as u64 && c2 < N_CHAMPIONS as u64) {
            (s, Err(ArenaError::InvalidChampionId))
        } else if c0 == c1 || c0 == c2 || c1 == c2 {
            (s, Err(ArenaError::DuplicateChampion))
        } else {
            let team = seq![c0 as u8, c1 as u8, c2 as u8];
            let opp_set = if is_a {
                s.team_b_set
            } else {
                s.team_a_set
            };
            let opp = if is_a {
                s.team_b
            } else {
                s.team_a
            };
            if opp_set && teams_overlap(team, opp) {
                (s, Err(ArenaError::ChampionOverlap))
            } else {
                let champs = seq![
                    spec_init_state(c0 as int),
                    spec_init_state(c1 as int),
                    spec_init_state(c2 as int),
                ];
                let s1 = if is_a {
                    MatchStateView { team_a: team, champs_a: champs, team_a_set: true, ..s }
                } else {
                    MatchStateView { team_b: team, champs_b: champs, team_b_set: true, ..s }
                };
                let s2 = if s1.team_a_set && s1.team_b_set {
                    MatchStateView {
                        phase: Phase::Combat,
                        timeout_height: spec_sat_add(now, TIMEOUT_BLOCKS as int),
                        ..s1
                    }
                } else {
                    s1
                };
                (s2, Ok(()))
            }
        }
    }
}

/// `submit_commit`: only in Combat, only by a player, once per round; stores
/// the commitment word untouched.
pub open spec fn spec_submit_commit(s: MatchStateView, player: PlayerId, commit: Seq<u64>) -> (
    MatchStateView,
    Result<(), ArenaError>,
) {
    if s.phase != Phase::Combat {
        (s, Err(ArenaError::WrongPhase))
    } else if player != s.player_a && player != s.player_b {
        (s, Err(ArenaError::NotAPlayer))
    } else {
        let is_a = player == s.player_a;
        let existing = if is_a {
            s.commit_a
        } else {
            s.commit_b
        };
        if !spec_word_empty(existing) {
            (s, Err(ArenaError::AlreadyCommitted))
        } else if is_a {
            (MatchStateView { commit_a: commit, ..s }, Ok(()))
        } else {
            (MatchStateView { commit_b: commit, ..s }, Ok(()))
        }
    }
}

/// A player's progress in the current round: 0 nothing, 1 committed,
/// 2 revealed.
pub open spec fn spec_progress(commit: Seq<u64>, reveal: Seq<u64>) -> int {
    if !spec_word_empty(reveal) {
        2
    } else if !spec_word_empty(commit) {
        1
    } else {
        0
    }
}

/// Whether all three champions of a side are knocked out.
pub open spec fn spec_side_eliminated(champs: Seq<ChampionStateView>) -> bool {
    champs[0].is_ko && champs[1].is_ko && champs[2].is_ko
}

/// Payouts issued when combat resolves: the winner takes the whole pot under
/// the current round number as payout id; a draw refunds both stakes under the
/// round number and its successor.
pub open spec fn spec_resolution_payouts(s: MatchStateView, w: Winner) -> Seq<Payout> {
    if w == Winner::PlayerA {
        seq![
            Payout {
                recipient: s.player_a,
                amount: (s.stake_a + s.stake_b) as u64,
                payout_id: s.round as u64,
            },
        ]
    } else if w == Winner::PlayerB {
        seq![
            Payout {
                recipient: s.player_b,
                amount: (s.stake_a + s.stake_b) as u64,
                payout_id: s.round as u64,
            },
        ]
    } else {
        seq![
            Payout { recipient: s.player_a, amount: s.stake_a as u64, payout_id: s.round as u64 },
            Payout {
                recipient: s.player_b,
                amount: s.stake_b as u64,
                payout_id: spec_sat_add(s.round, 1) as u64,
            },
        ]
    }
}

/// Resolve the round once both reveals are present in `s`.
///
/// The two revealed actions are fetched, the two acting combatants are loaded
/// from their team slots, and the turn resolver computes the round. If either
/// side then has all three champions knocked out the match resolves: the
/// winner (or a draw, when the last champions of both sides fell in the same
/// round) is recorded, the phase becomes Resolved, and the payouts of
/// [`spec_resolution_payouts`] are issued. Otherwise the round counter
/// advances, both commit and reveal slots are cleared, and the timeout is
/// re-armed.
///
/// A side that carries more than [`MAX_BUFFS`] - 2 active modifiers could
/// exhaust its buff slots during the round; such a round is refused whole
/// with [`ArenaError::BuffCapacity`] before anything changes (unreachable
/// under the catalog's ability durations).
pub open spec fn spec_resolve_round(s: MatchStateView, now: int) -> (
    MatchStateView,
    Result<Seq<Payout>, ArenaError>,
) {
    let action_a = spec_decode_move(s.reveal_a[0] as int);
    let action_b = spec_decode_move(s.reveal_b[0] as int);
    let ia = spec_team_index(s.team_a, action_a.champion_id);
    let ib = spec_team_index(s.team_b, action_b.champion_id);
    let sa = s.champs_a[ia];
    let sb = s.champs_b[ib];
    if !(count_active(sa.buffs) <= MAX_BUFFS - 2 && count_active(sb.buffs) <= MAX_BUFFS - 2) {
        (s, Err(ArenaError::BuffCapacity))
    } else {
        let (na, nb, evs) = spec_resolve_turn(sa, sb, action_a, action_b).unwrap();
        let champs_a = s.champs_a.update(ia, na);
        let champs_b = s.champs_b.update(ib, nb);
        let a_elim = spec_side_eliminated(champs_a);
        let b_elim = spec_side_eliminated(champs_b);
        if a_elim || b_elim {
            let w = if a_elim && b_elim {
                Winner::Draw
            } else if b_elim {
                Winner::PlayerA
            } else {
                Winner::PlayerB
            };
            (
                MatchStateView {
                    champs_a: champs_a,
                    champs_b: champs_b,
                    winner: w,
                    phase: Phase::Resolved,
                    ..s
                },
                Ok(spec_resolution_payouts(s, w)),
            )
        } else {
            (
                MatchStateView {
                    champs_a: champs_a,
                    champs_b: champs_b,
                    round: spec_sat_add(s.round, 1),
                    commit_a: spec_zero_word(),
                    commit_b: spec_zero_word(),
                    reveal_a: spec_zero_word(),
                    reveal_b: spec_zero_word(),
                    timeout_height: spec_sat_add(now, TIMEOUT_BLOCKS as int),
                    ..s
                },
                Ok(Seq::empty()),
            )
        }
    }
}

/// `submit_reveal`: only in Combat by a player who committed this round and
/// has not yet revealed. The revealed move and nonce must hash to the stored
/// commitment, the move must be in range and name a living champion of the
/// caller's team. The reveal is stored; when it completes the pair, the round
/// resolves at once via [`spec_resolve_round`].
pub open spec fn spec_submit_reveal(
    s: MatchStateView,
    player: PlayerId,
    mv: u64,
    n1: u64,
    n2: u64,
    now: int,
) -> (MatchStateView, Result<Seq<Payout>, ArenaError>) {
    if s.phase != Phase::Combat {
        (s, Err(ArenaError::WrongPhase))
    } else if player != s.player_a && player != s.player_b {
        (s, Err(ArenaError::NotAPlayer))
    } else {
        let is_a = player == s.player_a;
        let commitment = if is_a {
            s.commit_a
        } else {
            s.commit_b
        };
        let existing = if is_a {
            s.reveal_a
        } else {
            s.reveal_b
        };
        if spec_word_empty(commitment) {
            (s, Err(ArenaError::NoCommitment))
        } else if !spec_word_empty(existing) {
            (s, Err(ArenaError::AlreadyRevealed))
        } else if rpo_digest3(mv, n1, n2) != commitment {
            (s, Err(ArenaError::CommitmentMismatch))
        } else if !(MOVE_MIN as u64 <= mv && mv <= MOVE_MAX as u64) {
            (s, Err(ArenaError::MoveOutOfRange))
        } else {
            let action = spec_decode_move(mv as int);
            let team = if is_a {
                s.team_a
            } else {
                s.team_b
            };
            let champs = if is_a {
                s.champs_a
            } else {
                s.champs_b
            };
            let idx = spec_team_index(team, action.champion_id);
            if idx < 0 {
                (s, Err(ArenaError::ChampionNotOnTeam))
            } else if champs[idx].is_ko {
                (s, Err(ArenaError::ChampionKnockedOut))
            } else {
                let reveal = seq![mv, n1, n2, 0u64];
                let s1 = if is_a {
                    MatchStateView { reveal_a: reveal, ..s }
                } else {
                    MatchStateView { reveal_b: reveal, ..s }
                };
                if !spec_word_empty(s1.reveal_a) && !spec_word_empty(s1.reveal_b) {
                    let (s2, outcome) = spec_resolve_round(s1, now);
                    if outcome is Err {
                        (s, outcome)
                    } else {
                        (s2, outcome)
                    }
                } else {
                    (s1, Ok(Seq::empty()))
                }
            }
        }
    }
}

/// `claim_timeout`: in the three waiting-capable phases, once the current
/// block is past the stored deadline, the match resolves without further
/// play. With only player A joined, A reclaims their stake. With both joined
/// but combat not started, both are refunded. In Combat, the player who
/// progressed further in the round (reveal counts 2, commit 1) wins the pot;
/// equal progress is a draw with both stakes refunded. The phase becomes
/// Resolved before any payout is computed, so a second claim is rejected.
pub open spec fn spec_claim_timeout(s: MatchStateView, player: PlayerId, now: int) -> (
    MatchStateView,
    Result<Seq<Payout>, ArenaError>,
) {
    if !(s.phase == Phase::PlayerAJoined || s.phase == Phase::BothJoined || s.phase
        == Phase::Combat) {
        (s, Err(ArenaError::MatchNotActive))
    } else if now <= s.timeout_height {
        (s, Err(ArenaError::TimeoutNotReached))
    } else {
        let base = (TIMEOUT_PAYOUT_BASE as int + phase_code(s.phase)) as u64;
        if s.phase == Phase::PlayerAJoined {
            if player != s.player_a {
                (s, Err(ArenaError::NotAPlayer))
            } else {
                (
                    MatchStateView { phase: Phase::Resolved, ..s },
                    Ok(
                        seq![
                            Payout {
                                recipient: s.player_a,
                                amount: s.stake_a as u64,
                                payout_id: base,
                            },
                        ],
                    ),
                )
            }
        } else if player != s.player_a && player != s.player_b {
            (s, Err(ArenaError::NotAPlayer))
        } else if s.phase == Phase::BothJoined {
            (
                MatchStateView { phase: Phase::Resolved, ..s },
                Ok(
                    seq![
                        Payout { recipient: s.player_a, amount: s.stake_a as u64, payout_id: base },
                        Payout {
                            recipient: s.player_b,
                            amount: s.stake_b as u64,
                            payout_id: (base + 1) as u64,
                        },
                    ],
                ),
            )
        } else {
            let pa_prog = spec_progress(s.commit_a, s.reveal_a);
            let pb_prog = spec_progress(s.commit_b, s.reveal_b);
            if pa_prog > pb_prog {
                (
                    MatchStateView { phase: Phase::Resolved, winner: Winner::PlayerA, ..s },
                    Ok(
                        seq![
                            Payout {
                                recipient: s.player_a,
                                amount: (s.stake_a + s.stake_b) as u64,
                                payout_id: base,
                            },
                        ],
                    ),
                )
            } else if pb_prog > pa_prog {
                (
                    MatchStateView { phase: Phase::Resolved, winner: Winner::PlayerB, ..s },
                    Ok(
                        seq![
                            Payout {
                                recipient: s.player_b,
                                amount: (s.stake_a + s.stake_b) as u64,
                                payout_id: base,
                            },
                        ],
                    ),
                )
            } else {
                (
                    MatchStateView { phase: Phase::Resolved, winner: Winner::Draw, ..s },
                    Ok(
                        seq![
                            Payout {
                                recipient: s.player_a,
                                amount: s.stake_a as u64,
                                payout_id: base,
                            },
                            Payout {
                                recipient: s.player_b,
                                amount: s.stake_b as u64,
                                payout_id: (base + 1) as u64,
                            },
                        ],
                    ),
                )
            }
        }
    }
}

// ---------------------------------------------------------------------------
// Executable procedures
// ---------------------------------------------------------------------------

/// Saturating add on block heights and payout ids.
fn sat_add(a: u64, b: u64) -> (r: u64)
    ensures
        r as int == spec_sat_add(a as int, b as int),
{
    if a <= u64::MAX - b {
        a + b
    } else {
        u64::MAX
    }
}

/// Whether a stored word is the empty (all-zero) word.
fn word_is_empty(w: &[u64; 4]) -> (r: bool)
    ensures
        r == spec_word_empty(w@),
{
    w[0] == 0 && w[1] == 0 && w[2] == 0 && w[3] == 0
}

impl MatchState {
    /// A fresh match, waiting for its first player.
    pub fn new() -> (s: MatchState)
        ensures
            s@ == spec_new_match(),
            match_wf(s@),
    {
        let e = crate::types::BuffSlot::empty();
        let blank = ChampionState {
            id: 0,
            current_hp: 0,
            max_hp: 0,
            buffs: [e, e, e, e, e, e, e, e],
            buff_count: 0,
            burn_turns: 0,
            is_ko: false,
            total_damage_dealt: 0,
        };
        let s = MatchState {
            phase: Phase::Waiting,
            player_a: PlayerId { prefix: 0, suffix: 0 },
            player_b: PlayerId { prefix: 0, suffix: 0 },
            stake_a: 0,
            stake_b: 0,
            team_a_set: false,
            team_b_set: false,
            team_a: [0, 0, 0],
            team_b: [0, 0, 0],
            round: 0,
            commit_a: [0, 0, 0, 0],
            commit_b: [0, 0, 0, 0],
            reveal_a: [0, 0, 0, 0],
            reveal_b: [0, 0, 0, 0],
            champs_a: [blank, blank, blank],
            champs_b: [blank, blank, blank],
            timeout_height: 0,
            winner: Winner::Undecided,
        };
        proof {
            assert(blank@ =~= spec_blank_state());
            assert(s@ =~= spec_new_match());
        }
        s
    }

    /// Join the match with a stake. See [`spec_join`] for the exact
    /// transition; on an error the state is unchanged.
    pub fn join(&mut self, player: PlayerId, stake: u64, current_block: u64) -> (r: Result<
        (),
        ArenaError,
    >)
        requires
            match_wf(old(self)@),
        ensures
            match_wf(final(self)@),
            (final(self)@, r) == spec_join(old(self)@, player, stake as int, current_block as int),
    {
        if stake != STAKE_AMOUNT {
            return Err(ArenaError::WrongStake);
        }
        match self.phase {
            Phase::Waiting => {
                self.player_a = player;
                self.stake_a = stake;
                self.phase = Phase::PlayerAJoined;
                self.timeout_height = sat_add(current_block, TIMEOUT_BLOCKS);
                assert(self@ =~= spec_join(
                    old(self)@,
                    player,
                    stake as int,
                    current_block as int,
                ).0);
                Ok(())
            },
            Phase::PlayerAJoined => {
                if player.prefix == self.player_a.prefix && player.suffix == self.player_a.suffix {
                    return Err(ArenaError::SelfPlay);
                }
                self.player_b = player;
                self.stake_b = stake;
                self.phase = Phase::BothJoined;
                self.timeout_height = sat_add(current_block, TIMEOUT_BLOCKS);
                assert(self@ =~= spec_join(
                    old(self)@,
                    player,
                    stake as int,
                    current_block as int,
                ).0);
                Ok(())
            },
            _ => Err(ArenaError::MatchFull),
        }
    }

    /// Submit this player's team of three champions. See [`spec_set_team`]
    /// for the exact transition; on an error the state is unchanged.
    pub fn set_team(
        &mut self,
        player: PlayerId,
        c0: u64,
        c1: u64,
        c2: u64,
        current_block: u64,
    ) -> (r: Result<(), ArenaError>)
        requires
            match_wf(old(self)@),
        ensures
            match_wf(final(self)@),
            (final(self)@, r) == spec_set_team(old(self)@, player, c0, c1, c2, current_block as int),
    {
        if self.phase != Phase::BothJoined {
            return Err(ArenaError::WrongPhase);
        }
        let is_a = player == self.player_a;
        let is_b = player == self.player_b;
        if !is_a && !is_b {
            return Err(ArenaError::NotAPlayer);
        }
        if (is_a && self.team_a_set) || (!is_a && self.team_b_set) {
            return Err(ArenaError::TeamAlreadySet);
        }
        if !(c0 < N_CHAMPIONS as u64 && c1 < N_CHAMPIONS as u64 && c2 < N_CHAMPIONS as u64) {
            return Err(ArenaError::InvalidChampionId);
        }
        if c0 == c1 || c0 == c2 || c1 == c2 {
            return Err(ArenaError::DuplicateChampion);
        }
        let team: [u8; 3] = [c0 as u8, c1 as u8, c2 as u8];
        let opp_set = if is_a {
            self.team_b_set
        } else {
            self.team_a_set
        };
        if opp_set {
            let opp = if is_a {
                &self.team_b
            } else {
                &self.team_a
            };
            let mut overlap = false;
            if team[0] == opp[0] || team[0] == opp[1] || team[0] == opp[2] {
                overlap = true;
            }
            if team[1] == opp[0] || team[1] == opp[1] || team[1] == opp[2] {
                overlap = true;
            }
            if team[2] == opp[0] || team[2] == opp[1] || team[2] == opp[2] {
                overlap = true;
            }
            if overlap {
                return Err(ArenaError::ChampionOverlap);
            }
        }
        let champs: [ChampionState; 3] = [
            init_champion_state(c0 as u8),
            init_champion_state(c1 as u8),
            init_champion_state(c2 as u8),
        ];
        if is_a {
            self.team_a = team;
            self.champs_a = champs;
            self.team_a_set = true;
        } else {
            self.team_b = team;
            self.champs_b = champs;
            self.team_b_set = true;
        }
        if self.team_a_set && self.team_b_set {
            self.phase = Phase::Combat;
            self.timeout_height = sat_add(current_block, TIMEOUT_BLOCKS);
        }
        proof {
            let spec_result = spec_set_team(old(self)@, player, c0, c1, c2, current_block as int);
            assert(self@.champs_a =~= spec_result.0.champs_a);
            assert(self@.champs_b =~= spec_result.0.champs_b);
            assert(self@.team_a =~= spec_result.0.team_a);
            assert(self@.team_b =~= spec_result.0.team_b);
            assert(self@ =~= spec_result.0);
            if self@.team_a_set && self@.team_b_set {
                assert forall|i: int, j: int| 0 <= i < 3 && 0 <= j < 3 implies self@.team_a[i]
                    != self@.team_b[j] by {}
            }
        }
        Ok(())
    }

    /// Submit a hashed move commitment for this round. See
    /// [`spec_submit_commit`]; on an error the state is unchanged.
    pub fn submit_commit(&mut self, player: PlayerId, commit: [u64; 4]) -> (r: Result<
        (),
        ArenaError,
    >)
        requires
            match_wf(old(self)@),
        ensures
            match_wf(final(self)@),
            (final(self)@, r) == spec_submit_commit(old(self)@, player, commit@),
    {
        if self.phase != Phase::Combat {
            return Err(ArenaError::WrongPhase);
        }
        let is_a = player == self.player_a;
        let is_b = player == self.player_b;
        if !is_a && !is_b {
            return Err(ArenaError::NotAPlayer);
        }
        let already = if is_a {
            !word_is_empty(&self.commit_a)
        } else {
            !word_is_empty(&self.commit_b)
        };
        if already {
            return Err(ArenaError::AlreadyCommitted);
        }
        if is_a {
            self.commit_a = commit;
        } else {
            self.commit_b = commit;
        }
        assert(self@ =~= spec_submit_commit(old(self)@, player, commit@).0);
        Ok(())
    }

    /// Reveal this round's committed move. See [`spec_submit_reveal`]; when
    /// this is the second reveal of the round, the round resolves immediately
    /// and the returned payouts (empty unless the match ended) must be issued
    /// by the caller. On an error the state is unchanged.
    #[verifier::rlimit(100)]
    #[verifier::spinoff_prover]
    pub fn submit_reveal(
        &mut self,
        player: PlayerId,
        encoded_move: u64,
        nonce1: u64,
        nonce2: u64,
        current_block: u64,
    ) -> (r: Result<Vec<Payout>, ArenaError>)
        requires
            match_wf(old(self)@),
        ensures
            match_wf(final(self)@),
            final(self)@ == spec_submit_reveal(
                old(self)@,
                player,
                encoded_move,
                nonce1,
                nonce2,
                current_block as int,
            ).0,
            ({
                let outcome = spec_submit_reveal(
                    old(self)@,
                    player,
                    encoded_move,
                    nonce1,
                    nonce2,
                    current_block as int,
                ).1;
                match r {
                    Ok(v) => outcome is Ok && v@ == outcome.unwrap(),
                    Err(e) => outcome == Err::<Seq<Payout>, ArenaError>(e),
                }
            }),
    {
        if self.phase != Phase::Combat {
            return Err(ArenaError::WrongPhase);
        }
        let is_a = player == self.player_a;
        let is_b = player == self.player_b;
        if !is_a && !is_b {
            return Err(ArenaError::NotAPlayer);
        }
        let commitment: [u64; 4] = if is_a {
            self.commit_a
        } else {
            self.commit_b
        };
        if word_is_empty(&commitment) {
            return Err(ArenaError::NoCommitment);
        }
        let existing: [u64; 4] = if is_a {
            self.reveal_a
        } else {
            self.reveal_b
        };
        if !word_is_empty(&existing) {
            return Err(ArenaError::AlreadyRevealed);
        }

        let hash = rpo_hash3(encoded_move, nonce1, nonce2);
        if !(hash[0] == commitment[0] && hash[1] == commitment[1] && hash[2] == commitment[2]
            && hash[3] == commitment[3]) {
            return Err(ArenaError::CommitmentMismatch);
        }
        assert(rpo_digest3(encoded_move, nonce1, nonce2) =~= commitment@);

        if !(MOVE_MIN as u64 <= encoded_move && encoded_move <= MOVE_MAX as u64) {
            return Err(ArenaError::MoveOutOfRange);
        }
        let action = crate::codec::decode_move(encoded_move as u32);
        let my_team: [u8; 3] = if is_a {
            self.team_a
        } else {
            self.team_b
        };
        let idx = match find_team_slot(&my_team, action.champion_id) {
            Some(i) => i,
            None => {
                return Err(ArenaError::ChampionNotOnTeam);
            },
        };
        let mine_ko = if is_a {
            self.champs_a[idx].is_ko
        } else {
            self.champs_b[idx].is_ko
        };
        if mine_ko {
            return Err(ArenaError::ChampionKnockedOut);
        }

        let my_reveal: [u64; 4] = [encoded_move, nonce1, nonce2, 0];
        let other_empty = if is_a {
            word_is_empty(&self.reveal_b)
        } else {
            word_is_empty(&self.reveal_a)
        };
        if other_empty {
            if is_a {
                self.reveal_a = my_reveal;
            } else {
                self.reveal_b = my_reveal;
            }
            assert(self@ =~= spec_submit_reveal(
                old(self)@,
                player,
                encoded_move,
                nonce1,
                nonce2,
                current_block as int,
            ).0);
            return Ok(Vec::new());
        }

        // Both reveals of the round are now known: resolve it.
        assert(reveal_wf(
            my_reveal@,
            if is_a {
                old(self)@.team_a
            } else {
                old(self)@.team_b
            },
            if is_a {
                old(self)@.champs_a
            } else {
                old(self)@.champs_b
            },
        ));
        let r = self.resolve_round(is_a, my_reveal, current_block);
        proof {
            let s1 = (if is_a {
                MatchStateView { reveal_a: my_reveal@, ..old(self)@ }
            } else {
                MatchStateView { reveal_b: my_reveal@, ..old(self)@ }
            });
            assert(!spec_word_empty(s1.reveal_a) && !spec_word_empty(s1.reveal_b));
        }
        r
    }

    /// Resolve the round whose second reveal is `my_reveal` (player A's when
    /// `my_is_a`). On success the state advances per [`spec_resolve_round`];
    /// on a capacity error nothing changes, the reveal included.
    #[verifier::rlimit(100)]
    #[verifier::spinoff_prover]
    fn resolve_round(&mut self, my_is_a: bool, my_reveal: [u64; 4], current_block: u64) -> (r:
        Result<Vec<Payout>, ArenaError>)
        requires
            match_wf(old(self)@),
            old(self)@.phase == Phase::Combat,
            reveal_wf(
                my_reveal@,
                if my_is_a {
                    old(self)@.team_a
                } else {
                    old(self)@.team_b
                },
                if my_is_a {
                    old(self)@.champs_a
                } else {
                    old(self)@.champs_b
                },
            ),
            !spec_word_empty(
                if my_is_a {
                    old(self)@.reveal_b
                } else {
                    old(self)@.reveal_a
                },
            ),
        ensures
            match_wf(final(self)@),
            ({
                let s1 = (if my_is_a {
                    MatchStateView { reveal_a: my_reveal@, ..old(self)@ }
                } else {
                    MatchStateView { reveal_b: my_reveal@, ..old(self)@ }
                });
                let (s2, outcome) = spec_resolve_round(s1, current_block as int);
                match r {
                    Ok(v) => outcome is Ok && v@ == outcome.unwrap() && final(self)@ == s2,
                    Err(e) => outcome == Err::<Seq<Payout>, ArenaError>(e) && final(self)@ == old(
                        self,
                    )@,
                }
            }),
    {
        let is_a = my_is_a;
        let ghost s1 = (if is_a {
            MatchStateView { reveal_a: my_reveal@, ..old(self)@ }
        } else {
            MatchStateView { reveal_b: my_reveal@, ..old(self)@ }
        });
        let rev_a: [u64; 4] = if is_a {
            my_reveal
        } else {
            self.reveal_a
        };
        let rev_b: [u64; 4] = if is_a {
            self.reveal_b
        } else {
            my_reveal
        };
        assert(MOVE_MIN as u64 <= rev_a[0] && rev_a[0] <= MOVE_MAX as u64);
        assert(MOVE_MIN as u64 <= rev_b[0] && rev_b[0] <= MOVE_MAX as u64);
        let action_a = crate::codec::decode_move(rev_a[0] as u32);
        let action_b = crate::codec::decode_move(rev_b[0] as u32);
        let ia = match find_team_slot(&self.team_a, action_a.champion_id) {
            Some(i) => i,
            None => {
                proof {
                    assert(false);
                }
                return Err(ArenaError::ChampionNotOnTeam);
            },
        };
        let ib = match find_team_slot(&self.team_b, action_b.champion_id) {
            Some(i) => i,
            None => {
                proof {
                    assert(false);
                }
                return Err(ArenaError::ChampionNotOnTeam);
            },
        };
        let sa = self.champs_a[ia];
        let sb = self.champs_b[ib];
        proof {
            assert(spec_decode_move(s1.reveal_a[0] as int) == action_a);
            assert(spec_decode_move(s1.reveal_b[0] as int) == action_b);
            assert(spec_team_index(s1.team_a, action_a.champion_id) == ia as int);
            assert(spec_team_index(s1.team_b, action_b.champion_id) == ib as int);
            assert(s1.champs_a[ia as int] == sa@);
            assert(s1.champs_b[ib as int] == sb@);
        }
        let count_a = crate::combat::count_active_buffs(&sa);
        let count_b = crate::combat::count_active_buffs(&sb);
        if (count_a as usize) > MAX_BUFFS - 2 || (count_b as usize) > MAX_BUFFS - 2 {
            assert(spec_resolve_round(s1, current_block as int).1
                == Err::<Seq<Payout>, ArenaError>(ArenaError::BuffCapacity));
            return Err(ArenaError::BuffCapacity);
        }
        proof {
            lemma_resolve_turn_fits(sa@, sb@, action_a, action_b);
        }
        let tr = resolve_turn(&sa, &sb, &action_a, &action_b);

        if is_a {
            self.reveal_a = my_reveal;
        } else {
            self.reveal_b = my_reveal;
        }
        self.champs_a[ia] = tr.state_a;
        self.champs_b[ib] = tr.state_b;
        proof {
            assert(self@.champs_a =~= s1.champs_a.update(
                ia as int,
                spec_resolve_turn(sa@, sb@, action_a, action_b).unwrap().0,
            ));
            assert(self@.champs_b =~= s1.champs_b.update(
                ib as int,
                spec_resolve_turn(sa@, sb@, action_a, action_b).unwrap().1,
            ));
        }
        let a_elim = is_team_eliminated(&self.champs_a);
        let b_elim = is_team_eliminated(&self.champs_b);
        if a_elim || b_elim {
            let w = if a_elim && b_elim {
                Winner::Draw
            } else if b_elim {
                Winner::PlayerA
            } else {
                Winner::PlayerB
            };
            self.winner = w;
            self.phase = Phase::Resolved;
            let total = self.stake_a + self.stake_b;
            let mut payouts: Vec<Payout> = Vec::new();
            if w == Winner::PlayerA {
                payouts.push(
                    Payout { recipient: self.player_a, amount: total, payout_id: self.round },
                );
            } else if w == Winner::PlayerB {
                payouts.push(
                    Payout { recipient: self.player_b, amount: total, payout_id: self.round },
                );
            } else {
                payouts.push(
                    Payout {
                        recipient: self.player_a,
                        amount: self.stake_a,
                        payout_id: self.round,
                    },
                );
                let second_id = sat_add(self.round, 1);
                payouts.push(
                    Payout {
                        recipient: self.player_b,
                        amount: self.stake_b,
                        payout_id: second_id,
                    },
                );
            }
            proof {
                let (s2, outcome) = spec_resolve_round(s1, current_block as int);
                assert(self@ =~= s2);
                assert(payouts@ =~= outcome.unwrap());
            }
            Ok(payouts)
        } else {
            self.round = sat_add(self.round, 1);
            self.commit_a = [0, 0, 0, 0];
            self.commit_b = [0, 0, 0, 0];
            self.reveal_a = [0, 0, 0, 0];
            self.reveal_b = [0, 0, 0, 0];
            self.timeout_height = sat_add(current_block, TIMEOUT_BLOCKS);
            proof {
                let (s2, outcome) = spec_resolve_round(s1, current_block as int);
                assert(self@.commit_a =~= spec_zero_word());
                assert(self@.commit_b =~= spec_zero_word());
                assert(self@.reveal_a =~= spec_zero_word());
                assert(self@.reveal_b =~= spec_zero_word());
                assert(self@ =~= s2);
                assert(Seq::<Payout>::empty() =~= outcome.unwrap());
            }
            Ok(Vec::new())
        }
    }

    /// Close an abandoned match after its deadline. See
    /// [`spec_claim_timeout`]; the returned payouts must be issued by the
    /// caller. On an error the state is unchanged.
    pub fn claim_timeout(&mut self, player: PlayerId, current_block: u64) -> (r: Result<
        Vec<Payout>,
        ArenaError,
    >)
        requires
            match_wf(old(self)@),
        ensures
            match_wf(final(self)@),
            final(self)@ == spec_claim_timeout(old(self)@, player, current_block as int).0,
            ({
                let outcome = spec_claim_timeout(old(self)@, player, current_block as int).1;
                match r {
                    Ok(v) => outcome is Ok && v@ == outcome.unwrap(),
                    Err(e) => outcome == Err::<Seq<Payout>, ArenaError>(e),
                }
            }),
    {
        let active = self.phase == Phase::PlayerAJoined || self.phase == Phase::BothJoined
            || self.phase == Phase::Combat;
        if !active {
            return Err(ArenaError::MatchNotActive);
        }
        if current_block <= self.timeout_height {
            return Err(ArenaError::TimeoutNotReached);
        }
        let is_a = player == self.player_a;
        let is_b = player == self.player_b;
        let base: u64 = TIMEOUT_PAYOUT_BASE + match self.phase {
            Phase::PlayerAJoined => 1,
            Phase::BothJoined => 2,
            _ => 3,
        };
        match self.phase {
            Phase::PlayerAJoined => {
                if !is_a {
                    return Err(ArenaError::NotAPlayer);
                }
                self.phase = Phase::Resolved;
                let mut payouts: Vec<Payout> = Vec::new();
                payouts.push(
                    Payout { recipient: self.player_a, amount: self.stake_a, payout_id: base },
                );
                proof {
                    assert(self@ =~= spec_claim_timeout(old(self)@, player, current_block as int).0);
                    assert(payouts@ =~= spec_claim_timeout(
                        old(self)@,
                        player,
                        current_block as int,
                    ).1.unwrap());
                }
                Ok(payouts)
            },
            Phase::BothJoined => {
                if !is_a && !is_b {
                    return Err(ArenaError::NotAPlayer);
                }
                self.phase = Phase::Resolved;
                let mut payouts: Vec<Payout> = Vec::new();
                payouts.push(
                    Payout { recipient: self.player_a, amount: self.stake_a, payout_id: base },
                );
                payouts.push(
                    Payout { recipient: self.player_b, amount: self.stake_b, payout_id: base + 1 },
                );
                proof {
                    assert(self@ =~= spec_claim_timeout(old(self)@, player, current_block as int).0);
                    assert(payouts@ =~= spec_claim_timeout(
                        old(self)@,
                        player,
                        current_block as int,
                    ).1.unwrap());
                }
                Ok(payouts)
            },
            _ => {
                if !is_a && !is_b {
                    return Err(ArenaError::NotAPlayer);
                }
                let a_prog: u64 = if !word_is_empty(&self.reveal_a) {
                    2
                } else if !word_is_empty(&self.commit_a) {
                    1
                } else {
                    0
                };
                let b_prog: u64 = if !word_is_empty(&self.reveal_b) {
                    2
                } else if !word_is_empty(&self.commit_b) {
                    1
                } else {
                    0
                };
                self.phase = Phase::Resolved;
                let total = self.stake_a + self.stake_b;
                let mut payouts: Vec<Payout> = Vec::new();
                if a_prog > b_prog {
                    self.winner = Winner::PlayerA;
                    payouts.push(
                        Payout { recipient: self.player_a, amount: total, payout_id: base },
                    );
                } else if b_prog > a_prog {
                    self.winner = Winner::PlayerB;
                    payouts.push(
                        Payout { recipient: self.player_b, amount: total, payout_id: base },
                    );
                } else {
                    self.winner = Winner::Draw;
                    payouts.push(
                        Payout { recipient: self.player_a, amount: self.stake_a, payout_id: base },
                    );
                    payouts.push(
                        Payout {
                            recipient: self.player_b,
                            amount: self.stake_b,
                            payout_id: base + 1,
                        },
                    );
                }
                proof {
                    assert(self@ =~= spec_claim_timeout(old(self)@, player, current_block as int).0);
                    assert(payouts@ =~= spec_claim_timeout(
                        old(self)@,
                        player,
                        current_block as int,
                    ).1.unwrap());
                }
                Ok(payouts)
            },
        }
    }
}

/// Index of a champion id in a team of three.
fn find_team_slot(team: &[u8; 3], id: u8) -> (r: Option<usize>)
    ensures
        match r {
            Some(i) => 0 <= i < 3 && spec_team_index(team@, id) == i as int,
            None => spec_team_index(team@, id) == -1,
        },
{
    if team[0] == id {
        Some(0)
    } else if team[1] == id {
        Some(1)
    } else if team[2] == id {
        Some(2)
    } else {
        None
    }
}

} // verus!
