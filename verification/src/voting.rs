//! One round of the chat vote: reading votes out of chat messages, counting
//! them, choosing the event, and the meta events that pause the vote or
//! shorten it.

use crate::game::events::ChaosEvents;
use crate::random::random_in_range;
use crate::settings::event_settings::EventSettings;
use vstd::prelude::*;

verus! {

/// The number of options a vote offers.
pub const OPTION_COUNT: usize = 4;

/// The option a chat message votes for: a message that is exactly one
/// character, a digit from 1 to 4, votes for that option; any other message
/// is no vote.
pub open spec fn vote_of(text: Seq<char>) -> Option<u8> {
    if text.len() != 1 {
        None
    } else if text[0] == '1' {
        Some(1u8)
    } else if text[0] == '2' {
        Some(2u8)
    } else if text[0] == '3' {
        Some(3u8)
    } else if text[0] == '4' {
        Some(4u8)
    } else {
        None
    }
}

/// The option that `text` votes for, if it is a vote.
pub fn parse_vote(text: &str) -> (vote: Option<u8>)
    ensures
        vote == vote_of(text@),
{
    if text.unicode_len() != 1 {
        return None;
    }
    let c = text.get_char(0);
    if c == '1' {
        Some(1)
    } else if c == '2' {
        Some(2)
    } else if c == '3' {
        Some(3)
    } else if c == '4' {
        Some(4)
    } else {
        None
    }
}

/// The votes of one round, one per voter, as (voter, option) pairs in the
/// order the voters first voted.
pub type Votes = Seq<(Seq<char>, u8)>;

/// No voter holds two entries.
pub open spec fn distinct_voters(b: Votes) -> bool {
    forall|i: int, j: int| 0 <= i < j < b.len() ==> b[i].0 != b[j].0
}

/// Every entry names one of the options.
pub open spec fn valid_choices(b: Votes) -> bool {
    forall|i: int| 0 <= i < b.len() ==> 1 <= #[trigger] b[i].1 <= OPTION_COUNT
}

/// Whether `voter` holds an entry.
pub open spec fn has_voter(b: Votes, voter: Seq<char>) -> bool {
    exists|i: int| 0 <= i < b.len() && b[i].0 == voter
}

/// The option that `voter` last voted for, if any.
pub open spec fn choice_of(b: Votes, voter: Seq<char>) -> Option<u8> {
    if has_voter(b, voter) {
        Some(b[choose|i: int| 0 <= i < b.len() && b[i].0 == voter].1)
    } else {
        None
    }
}

/// The votes after `voter` sent the chat message `text`: a vote replaces the
/// voter's earlier vote, or adds the voter at the end; a message that is no
/// vote changes nothing.
pub open spec fn votes_after(b: Votes, voter: Seq<char>, text: Seq<char>) -> Votes {
    match vote_of(text) {
        None => b,
        Some(v) => if has_voter(b, voter) {
            b.update(choose|i: int| 0 <= i < b.len() && b[i].0 == voter, (voter, v))
        } else {
            b.push((voter, v))
        },
    }
}

/// How many entries name `option`.
pub open spec fn count_votes(b: Votes, option: u8) -> nat
    decreases b.len(),
{
    if b.len() == 0 {
        0
    } else {
        count_votes(b.drop_last(), option) + if b.last().1 == option {
            1nat
        } else {
            0nat
        }
    }
}

/// The votes that chat messages cast during one round.
pub struct Ballot {
    entries: Vec<(String, u8)>,
}

impl View for Ballot {
    type V = Votes;

    closed spec fn view(&self) -> Votes {
        self.entries@.map_values(|p: (String, u8)| (p.0@, p.1))
    }
}

impl Ballot {
    #[verifier::type_invariant]
    spec fn well_formed(self) -> bool {
        distinct_voters(self@) && valid_choices(self@)
    }

    /// A ballot that nobody has voted on.
    pub fn new() -> (ballot: Ballot)
        ensures
            ballot@ == Seq::<(Seq<char>, u8)>::empty(),
    {
        let ballot = Ballot { entries: Vec::new() };
        assert(ballot@ =~= Seq::<(Seq<char>, u8)>::empty());
        ballot
    }

    /// Records the chat message `text` from `voter`.
    pub fn cast(&mut self, voter: String, text: &str)
        ensures
            final(self)@ == votes_after(old(self)@, voter@, text@),
            distinct_voters(final(self)@),
            valid_choices(final(self)@),
    {
        proof {
            use_type_invariant(&*self);
        }
        let vote = parse_vote(text);
        match vote {
            None => {},
            Some(v) => {
                let ghost before = self@;
                let mut entries: Vec<(String, u8)> = Vec::new();
                std::mem::swap(&mut entries, &mut self.entries);
                assert(entries@.map_values(|p: (String, u8)| (p.0@, p.1)) == before);
                let n = entries.len();
                let mut i: usize = 0;
                let mut found = false;
                while i < n
                    invariant_except_break
                        forall|j: int| 0 <= j < i ==> before[j].0 != voter@,
                        !found,
                    invariant
                        0 <= i <= n,
                        n == entries@.len(),
                        entries@.map_values(|p: (String, u8)| (p.0@, p.1)) == before,
                        distinct_voters(before),
                    ensures
                        found ==> i < n && before[i as int].0 == voter@,
                        !found ==> forall|j: int| 0 <= j < n ==> before[j].0 != voter@,
                    decreases n - i,
                {
                    if entries[i].0 == voter {
                        found = true;
                        break;
                    }
                    i = i + 1;
                }
                let ghost voter_view = voter@;
                if found {
                    proof {
                        assert forall|j: int| 0 <= j < before.len() && before[j].0 == voter@
                            implies j == i by {}
                        let k = choose|k: int| 0 <= k < before.len() && before[k].0 == voter@;
                        assert(k == i);
                    }
                    entries.set(i, (voter, v));
                    proof {
                        assert(entries@.map_values(|p: (String, u8)| (p.0@, p.1))
                            =~= before.update(i as int, (voter_view, v)));
                    }
                } else {
                    proof {
                        assert(!has_voter(before, voter@));
                    }
                    entries.push((voter, v));
                    proof {
                        assert(entries@.map_values(|p: (String, u8)| (p.0@, p.1))
                            =~= before.push((voter_view, v)));
                    }
                }
                self.entries = entries;
            },
        }
    }

    /// Whether nobody has voted.
    pub fn is_empty(&self) -> (empty: bool)
        ensures
            empty == (self@.len() == 0),
    {
        self.entries.len() == 0
    }

    /// How many voters have voted.
    pub fn len(&self) -> (n: usize)
        ensures
            n == self@.len(),
    {
        self.entries.len()
    }

    /// The number of votes for each option: entry `k` counts option `k + 1`.
    pub fn tally(&self) -> (counts: [usize; 4])
        ensures
            forall|k: int| 0 <= k < 4 ==> counts@[k] == count_votes(self@, (k + 1) as u8),
    {
        let mut c1: usize = 0;
        let mut c2: usize = 0;
        let mut c3: usize = 0;
        let mut c4: usize = 0;
        let n = self.entries.len();
        let mut i: usize = 0;
        while i < n
            invariant
                0 <= i <= n,
                n == self@.len(),
                c1 == count_votes(self@.take(i as int), 1),
                c2 == count_votes(self@.take(i as int), 2),
                c3 == count_votes(self@.take(i as int), 3),
                c4 == count_votes(self@.take(i as int), 4),
                c1 <= i && c2 <= i && c3 <= i && c4 <= i,
            decreases n - i,
        {
            proof {
                assert(self@.take(i + 1).drop_last() =~= self@.take(i as int));
            }
            let choice = self.entries[i].1;
            if choice == 1 {
                c1 = c1 + 1;
            } else if choice == 2 {
                c2 = c2 + 1;
            } else if choice == 3 {
                c3 = c3 + 1;
            } else if choice == 4 {
                c4 = c4 + 1;
            }
            i = i + 1;
        }
        proof {
            assert(self@.take(n as int) =~= self@);
        }
        let counts = [c1, c2, c3, c4];
        assert(counts@[0] == c1 && counts@[1] == c2 && counts@[2] == c3 && counts@[3] == c4);
        counts
    }
}

/// The option that won a round and its number of votes: the option with the
/// most votes, the lowest-numbered one among equals; `None` when nobody
/// voted. Entry `k` of `counts` counts option `k + 1`.
pub open spec fn leader(counts: Seq<usize>) -> Option<(u8, usize)> {
    let best = if counts[0] >= counts[1] && counts[0] >= counts[2] && counts[0] >= counts[3] {
        1u8
    } else if counts[1] >= counts[2] && counts[1] >= counts[3] {
        2u8
    } else if counts[2] >= counts[3] {
        3u8
    } else {
        4u8
    };
    if counts[best - 1] == 0 {
        None
    } else {
        Some((best, counts[best - 1]))
    }
}

/// The winner of a round: the option with the most votes, the
/// lowest-numbered one among equals, with its number of votes; `None` when
/// no option has a vote. Entry `k` of `counts` counts option `k + 1`.
pub fn leading_option(counts: &[usize; 4]) -> (winner: Option<(u8, usize)>)
    ensures
        winner == leader(counts@),
        winner is None <==> (forall|k: int| 0 <= k < 4 ==> counts@[k] == 0),
        winner matches Some((option, votes)) ==> {
            &&& 1 <= option <= 4
            &&& votes == counts@[option - 1]
            &&& votes > 0
            &&& forall|k: int| 0 <= k < 4 ==> counts@[k] <= votes
            &&& forall|k: int| 0 <= k < option - 1 ==> counts@[k] < votes
        },
{
    let c = counts;
    let best: u8 = if c[0] >= c[1] && c[0] >= c[2] && c[0] >= c[3] {
        1
    } else if c[1] >= c[2] && c[1] >= c[3] {
        2
    } else if c[2] >= c[3] {
        3
    } else {
        4
    };
    let votes = c[(best - 1) as usize];
    if votes == 0 {
        None
    } else {
        Some((best, votes))
    }
}

/// The event a round applies and the number of votes it won, from the
/// options offered, the vote counts, and a draw `random_index` that is used
/// only when nobody voted. Without votes the event is the offered one at
/// `random_index`; with votes it is the winning option's, reported with its
/// votes. When the offer has no event at that place the round does nothing
/// and reports no votes.
pub open spec fn round_outcome(events: Seq<ChaosEvents>, counts: Seq<usize>, random_index: int) -> (
    ChaosEvents,
    Option<usize>,
) {
    match leader(counts) {
        None => if 0 <= random_index < events.len() {
            (events[random_index], None)
        } else {
            (ChaosEvents::Nothing, None)
        },
        Some((option, votes)) => if option - 1 < events.len() {
            (events[option - 1], Some(votes))
        } else {
            (ChaosEvents::Nothing, None)
        },
    }
}

/// The event a round applies, given the draw that is used when nobody voted.
pub fn select_event(events: &Vec<ChaosEvents>, counts: &[usize; 4], random_index: usize) -> (outcome: (
    ChaosEvents,
    Option<usize>,
))
    ensures
        outcome == round_outcome(events@, counts@, random_index as int),
{
    match leading_option(counts) {
        None => {
            if random_index < events.len() {
                (events[random_index], None)
            } else {
                (ChaosEvents::Nothing, None)
            }
        },
        Some((option, votes)) => {
            let index = (option - 1) as usize;
            if index < events.len() {
                (events[index], Some(votes))
            } else {
                (ChaosEvents::Nothing, None)
            }
        },
    }
}

/// The number of options among which a round picks at random when nobody
/// voted: the three random events, never the `RandomEvent` option.
pub const UNVOTED_CHOICES: u64 = 3;

/// Closes the round's vote: the winning option's event and its votes, or,
/// when nobody voted, a random one of the first three events offered.
pub fn choose_round_event(events: &Vec<ChaosEvents>, ballot: &Ballot) -> (outcome: (
    ChaosEvents,
    Option<usize>,
))
    ensures
        ballot@.len() > 0 ==> outcome == round_outcome(
            events@,
            tally_of(ballot@),
            0,
        ),
        ballot@.len() == 0 ==> outcome.1 is None,
        ballot@.len() == 0 ==> (outcome.0 == ChaosEvents::Nothing || exists|i: int|
            0 <= i < 3 && i < events@.len() && events@[i] == outcome.0),
        ballot@.len() == 0 && events@.len() >= 3 ==> exists|i: int|
            0 <= i < 3 && events@[i] == outcome.0,
{
    let counts = ballot.tally();
    proof {
        assert(counts@ =~= tally_of(ballot@));
        use_type_invariant(ballot);
        lemma_counts_cover_voters(ballot@);
    }
    if ballot.is_empty() {
        let draw = random_in_range(0, UNVOTED_CHOICES);
        let outcome = select_event(events, &counts, draw as usize);
        proof {
            if (draw as int) < events@.len() {
                assert(events@[draw as int] == outcome.0);
            }
        }
        outcome
    } else {
        select_event(events, &counts, 0)
    }
}

/// The vote counts of `b`: entry `k` counts option `k + 1`.
pub open spec fn tally_of(b: Votes) -> Seq<usize> {
    seq![
        count_votes(b, 1) as usize,
        count_votes(b, 2) as usize,
        count_votes(b, 3) as usize,
        count_votes(b, 4) as usize,
    ]
}

/// Every voter is counted exactly once: the counts of the four options add up
/// to the number of voters.
pub proof fn lemma_counts_cover_voters(b: Votes)
    requires
        valid_choices(b),
    ensures
        count_votes(b, 1) + count_votes(b, 2) + count_votes(b, 3) + count_votes(b, 4) == b.len(),
    decreases b.len(),
{
    if b.len() > 0 {
        assert(valid_choices(b.drop_last())) by {
            assert forall|i: int| 0 <= i < b.drop_last().len() implies 1 <= #[trigger] b.drop_last()[i].1 <= OPTION_COUNT by {
                assert(b.drop_last()[i] == b[i]);
            }
        }
        lemma_counts_cover_voters(b.drop_last());
        assert(1 <= b[b.len() - 1].1 <= OPTION_COUNT);
    }
}

/// A voter's latest vote is the one that counts: a vote from `voter` makes
/// the chosen option that voter's choice and leaves every other voter's
/// choice as it was, keeping one entry per voter; a message that is no vote
/// changes nothing.
pub proof fn lemma_latest_vote_counts(b: Votes, voter: Seq<char>, text: Seq<char>, other: Seq<char>)
    requires
        distinct_voters(b),
        other != voter,
    ensures
        vote_of(text) is None ==> votes_after(b, voter, text) == b,
        vote_of(text) matches Some(v) ==> choice_of(votes_after(b, voter, text), voter) == Some(v),
        choice_of(votes_after(b, voter, text), other) == choice_of(b, other),
        distinct_voters(votes_after(b, voter, text)),
        votes_after(b, voter, text).len() == b.len() + if vote_of(text) is Some && !has_voter(b, voter) {
            1int
        } else {
            0int
        },
{
    let after = votes_after(b, voter, text);
    match vote_of(text) {
        None => {},
        Some(v) => {
            if has_voter(b, voter) {
                let i = choose|i: int| 0 <= i < b.len() && b[i].0 == voter;
                assert(after[i] == (voter, v));
                assert(has_voter(after, voter));
                let k = choose|k: int| 0 <= k < after.len() && after[k].0 == voter;
                assert(k == i);
                assert(distinct_voters(after));
                if has_voter(b, other) {
                    let j = choose|j: int| 0 <= j < b.len() && b[j].0 == other;
                    assert(after[j] == b[j]);
                    assert(has_voter(after, other));
                    let m = choose|m: int| 0 <= m < after.len() && after[m].0 == other;
                    assert(m == j);
                } else {
                    assert(!has_voter(after, other));
                }
            } else {
                let n = b.len() as int;
                assert(after[n] == (voter, v));
                assert(has_voter(after, voter));
                let k = choose|k: int| 0 <= k < after.len() && after[k].0 == voter;
                assert(k == n);
                assert(distinct_voters(after));
                if has_voter(b, other) {
                    let j = choose|j: int| 0 <= j < b.len() && b[j].0 == other;
                    assert(after[j] == b[j]);
                    assert(has_voter(after, other));
                    let m = choose|m: int| 0 <= m < after.len() && after[m].0 == other;
                    assert(m == j);
                } else {
                    assert(!has_voter(after, other));
                }
            }
        },
    }
}

proof fn lemma_count_update(b: Votes, i: int, entry: (Seq<char>, u8), option: u8)
    requires
        0 <= i < b.len(),
    ensures
        count_votes(b.update(i, entry), option) + (if b[i].1 == option {
            1int
        } else {
            0int
        }) == count_votes(b, option) + (if entry.1 == option {
            1int
        } else {
            0int
        }),
    decreases b.len(),
{
    let u = b.update(i, entry);
    if i == b.len() - 1 {
        assert(u.drop_last() =~= b.drop_last());
    } else {
        assert(u.drop_last() =~= b.drop_last().update(i, entry));
        lemma_count_update(b.drop_last(), i, entry, option);
    }
}

/// A vote moves at most one count: the option voted for gains one, and the
/// option the voter chose before, if any, loses one; every other count stays.
pub proof fn lemma_vote_moves_one_count(b: Votes, voter: Seq<char>, text: Seq<char>, option: u8)
    requires
        distinct_voters(b),
        vote_of(text) is Some,
    ensures
        count_votes(votes_after(b, voter, text), option) + (if choice_of(b, voter) == Some(option) {
            1int
        } else {
            0int
        }) == count_votes(b, option) + (if vote_of(text) == Some(option) {
            1int
        } else {
            0int
        }),
{
    let v = vote_of(text)->0;
    let after = votes_after(b, voter, text);
    if has_voter(b, voter) {
        let i = choose|i: int| 0 <= i < b.len() && b[i].0 == voter;
        lemma_count_update(b, i, (voter, v), option);
    } else {
        assert(after.drop_last() =~= b);
    }
}

/// How a round applies the event it chose.
#[derive(Clone, Copy, PartialEq, Eq, Structural, Debug)]
pub enum RoundStep {
    /// Announce the event, then apply it.
    AnnounceThenApply,
    /// Apply the event first (it crashes the game for a while), then
    /// announce it.
    CrashThenAnnounce,
    /// Apply the event (it closes the game) and leave the round loop, so that
    /// no vote starts on a game that is gone.
    CrashThenStop,
}

/// How a round applies `event`: crash events before their announcement, and
/// a real crash ends the rounds on this game.
pub open spec fn round_step_spec(event: ChaosEvents) -> RoundStep {
    match event {
        ChaosEvents::FakeCrash => RoundStep::CrashThenAnnounce,
        ChaosEvents::RealCrash => RoundStep::CrashThenStop,
        _ => RoundStep::AnnounceThenApply,
    }
}

/// How the round applies `event`.
pub fn round_step(event: ChaosEvents) -> (step: RoundStep)
    ensures
        step == round_step_spec(event),
        (step == RoundStep::CrashThenStop) == (event == ChaosEvents::RealCrash),
        (step == RoundStep::CrashThenAnnounce) == (event == ChaosEvents::FakeCrash),
        (step == RoundStep::AnnounceThenApply) == (event != ChaosEvents::RealCrash && event
            != ChaosEvents::FakeCrash),
{
    match event {
        ChaosEvents::FakeCrash => RoundStep::CrashThenAnnounce,
        ChaosEvents::RealCrash => RoundStep::CrashThenStop,
        _ => RoundStep::AnnounceThenApply,
    }
}

/// Only crash events run before their announcement, and only a real crash
/// ends the rounds: every other event is announced, then applied.
pub proof fn lemma_only_crashes_jump_the_announcement(event: ChaosEvents)
    ensures
        (round_step_spec(event) == RoundStep::CrashThenStop) == (event == ChaosEvents::RealCrash),
        (round_step_spec(event) == RoundStep::CrashThenAnnounce) == (event == ChaosEvents::FakeCrash),
        (round_step_spec(event) == RoundStep::AnnounceThenApply) == (event != ChaosEvents::RealCrash
            && event != ChaosEvents::FakeCrash),
{
}

/// The option with the most votes runs: when option `k` has votes, none of
/// the options has more, and every lower-numbered option has fewer, the
/// round applies the `k`-th offered event and reports its votes, whatever
/// the draw for the unvoted case was.
pub proof fn lemma_most_voted_option_runs(
    events: Seq<ChaosEvents>,
    counts: Seq<usize>,
    random_index: int,
    k: int,
)
    requires
        counts.len() == 4,
        1 <= k <= 4,
        counts[k - 1] > 0,
        forall|j: int| 0 <= j < 4 ==> #[trigger] counts[j] <= counts[k - 1],
        forall|j: int| 0 <= j < k - 1 ==> #[trigger] counts[j] < counts[k - 1],
    ensures
        k - 1 < events.len() ==> round_outcome(events, counts, random_index) == (
            events[k - 1],
            Some(counts[k - 1]),
        ),
        k - 1 >= events.len() ==> round_outcome(events, counts, random_index) == (
            ChaosEvents::Nothing,
            None::<usize>,
        ),
{
    assert(counts[0] <= counts[k - 1] && counts[1] <= counts[k - 1] && counts[2] <= counts[k - 1]
        && counts[3] <= counts[k - 1]);
    if k >= 2 {
        assert(counts[0] < counts[k - 1]);
    }
    if k >= 3 {
        assert(counts[1] < counts[k - 1]);
    }
    if k >= 4 {
        assert(counts[2] < counts[k - 1]);
    }
}

/// Without votes, the round applies the offered event at the draw, and
/// reports no votes; a draw past the offer applies nothing.
pub proof fn lemma_unvoted_round_uses_the_draw(
    events: Seq<ChaosEvents>,
    counts: Seq<usize>,
    random_index: int,
)
    requires
        counts.len() == 4,
        forall|j: int| 0 <= j < 4 ==> counts[j] == 0,
    ensures
        0 <= random_index < events.len() ==> round_outcome(events, counts, random_index) == (
            events[random_index],
            None::<usize>,
        ),
        !(0 <= random_index < events.len()) ==> round_outcome(events, counts, random_index) == (
            ChaosEvents::Nothing,
            None::<usize>,
        ),
{
    assert(counts[0] == 0 && counts[1] == 0 && counts[2] == 0 && counts[3] == 0);
}

} // verus!
