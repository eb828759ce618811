//! The catalogue of chaos events that the chat votes on.

use crate::game::bully::GameData;
use crate::game::mods::ammo::{all_ammo_writes, give_all_ammo, remove_all_ammo, FULL_AMMO_BITS, NO_AMMO_BITS};
use crate::game::mods::health::{heal, no_health, suicide, ONE_HEALTH_BITS, ZERO_HEALTH_BITS};
use crate::game::mods::location::{dorms, hell_tp, teleport_dorms, HELL_Z_BITS};
use crate::game::mods::money::{give_max_money, remove_money, MAX_MONEY};
use crate::game::mods::trouble_meter::remove_trouble;
use crate::memory::coordinates_vector::{coordinate_writes, CoordinateBits};
use crate::memory::game_offsets::{PLAYER_HEALTH_OFFSET, PLAYER_MONEY_OFFSET, PLAYER_WANTED_LEVEL_OFFSET};
use crate::memory::memory::{player_write, GameValue, MemoryField, MemoryWrite};
use crate::random::{choose_item, random_in_range, thread_rng};
use vstd::prelude::*;

verus! {

/// An effect that the mod can apply to the game.
#[derive(Clone, Copy, PartialEq, Eq, Structural, Debug)]
pub enum ChaosEvents {
    /// Does nothing (skips the vote).
    Nothing,
    /// Does nothing for one minute.
    Nothing1Min,
    /// Runs another event, picked at random.
    RandomEvent,
    /// Sets the player's money to zero.
    RemoveMoney,
    /// Gives the player one million dollars.
    MaxMoney,
    /// Keeps the player's health at its maximum for 30 seconds.
    Invincibility,
    /// Sets the player's health to its maximum.
    Heal,
    /// Sets the player's health to one point.
    NoHealth,
    /// Sets the player's health to zero.
    Suicide,
    /// Holds the trouble meter at its maximum for 30 seconds.
    MostWanted,
    /// Sets the trouble meter to the player's health for 30 seconds.
    WantedHealth,
    /// Empties the trouble meter.
    RemoveWanted,
    /// Removes all ammunition.
    RemoveAllAmmo,
    /// Gives maximum ammunition for every weapon.
    GiveAllAmmo,
    /// Teleports the player back to where they stood whenever they move away (10 to 18 seconds).
    Sisyphus,
    /// Teleports the player back to where they stood, with a growing delay (10 to 18 seconds).
    SonarSisyphus,
    /// Doubles the distance the player moves.
    Speed,
    /// Turns each jump into a huge vertical leap (30 seconds).
    MaxJump,
    /// Pins the player to the ground level they had before jumping (30 seconds).
    NoJumping,
    /// Stops the player from moving (10 seconds).
    Freeze,
    /// Teleports the player back to the dorms.
    HomeSweetHome,
    /// Teleports the player to a random place on the map.
    RandomTp,
    /// Teleports the player to a random place, then back after five seconds.
    FakeRandomTp,
    /// Teleports the player into the sky.
    SkyTp,
    /// Teleports the player into the sky and restores them before they land.
    FakeSkyTp,
    /// Teleports the player below the ground.
    HellTp,
    /// Makes the player rise instead of fall (for a few seconds).
    ReverseGravity,
    /// Makes the player bounce (30 seconds).
    Phoon,
    /// Suspends the game for a few seconds.
    FakeCrash,
    /// Closes the game.
    RealCrash,
    /// Minimizes the game window.
    MinimizeGame,
}

/// The name under which an event is announced in the chat.
pub open spec fn event_name(e: ChaosEvents) -> Seq<char> {
    match e {
        ChaosEvents::Nothing => "Nothing ever happens"@,
        ChaosEvents::Nothing1Min => "Nothing for 1 minute"@,
        ChaosEvents::RandomEvent => "Random event"@,
        ChaosEvents::RemoveMoney => "Remove all money"@,
        ChaosEvents::MaxMoney => "Max money"@,
        ChaosEvents::Invincibility => "Invincibility (30 seconds)"@,
        ChaosEvents::Heal => "Heal"@,
        ChaosEvents::NoHealth => "I need a doctor (1hp)"@,
        ChaosEvents::Suicide => "You serve zero purpose"@,
        ChaosEvents::MostWanted => "Most wanted (30 seconds)"@,
        ChaosEvents::WantedHealth => "Health is trouble (30 seconds)"@,
        ChaosEvents::RemoveWanted => "Remove trouble"@,
        ChaosEvents::RemoveAllAmmo => "Remove all ammo"@,
        ChaosEvents::GiveAllAmmo => "Give all ammo"@,
        ChaosEvents::Sisyphus => "Sisyphus (10-18 seconds)"@,
        ChaosEvents::SonarSisyphus => "Sonar Sisyphus (10-18 seconds)"@,
        ChaosEvents::Speed => "Supa Sprinter (10-15 seconds)"@,
        ChaosEvents::MaxJump => "Max jump (30 seconds)"@,
        ChaosEvents::NoJumping => "No jumping (30 seconds)"@,
        ChaosEvents::Freeze => "Freeze (10 seconds)"@,
        ChaosEvents::HomeSweetHome => "Home Sweet Home"@,
        ChaosEvents::RandomTp => "Random TP"@,
        ChaosEvents::FakeRandomTp => "Fake random TP"@,
        ChaosEvents::SkyTp => "Sky TP (Suicide)"@,
        ChaosEvents::FakeSkyTp => "Fake Sky TP"@,
        ChaosEvents::HellTp => "Mole POV (Suicide)"@,
        ChaosEvents::ReverseGravity => "Reverse gravity (10 seconds)"@,
        ChaosEvents::Phoon => "Phoon (30 seconds)"@,
        ChaosEvents::FakeCrash => "Fake crash"@,
        ChaosEvents::RealCrash => "Real crash"@,
        ChaosEvents::MinimizeGame => "Minimize game"@,
    }
}

/// Every event, in declaration order.
pub open spec fn all_events() -> Seq<ChaosEvents> {
    seq![
        ChaosEvents::Nothing,
        ChaosEvents::Nothing1Min,
        ChaosEvents::RandomEvent,
        ChaosEvents::RemoveMoney,
        ChaosEvents::MaxMoney,
        ChaosEvents::Invincibility,
        ChaosEvents::Heal,
        ChaosEvents::NoHealth,
        ChaosEvents::Suicide,
        ChaosEvents::MostWanted,
        ChaosEvents::WantedHealth,
        ChaosEvents::RemoveWanted,
        ChaosEvents::RemoveAllAmmo,
        ChaosEvents::GiveAllAmmo,
        ChaosEvents::Sisyphus,
        ChaosEvents::SonarSisyphus,
        ChaosEvents::Speed,
        ChaosEvents::MaxJump,
        ChaosEvents::NoJumping,
        ChaosEvents::Freeze,
        ChaosEvents::HomeSweetHome,
        ChaosEvents::RandomTp,
        ChaosEvents::FakeRandomTp,
        ChaosEvents::SkyTp,
        ChaosEvents::FakeSkyTp,
        ChaosEvents::HellTp,
        ChaosEvents::ReverseGravity,
        ChaosEvents::Phoon,
        ChaosEvents::FakeCrash,
        ChaosEvents::RealCrash,
        ChaosEvents::MinimizeGame
    ]
}

impl ChaosEvents {
    /// The name under which the event is announced in the chat.
    pub fn as_str(&self) -> (name: &'static str)
        ensures
            name@ == event_name(*self),
    {
        match self {
            ChaosEvents::Nothing => "Nothing ever happens",
            ChaosEvents::Nothing1Min => "Nothing for 1 minute",
            ChaosEvents::RandomEvent => "Random event",
            ChaosEvents::RemoveMoney => "Remove all money",
            ChaosEvents::MaxMoney => "Max money",
            ChaosEvents::Invincibility => "Invincibility (30 seconds)",
            ChaosEvents::Heal => "Heal",
            ChaosEvents::NoHealth => "I need a doctor (1hp)",
            ChaosEvents::Suicide => "You serve zero purpose",
            ChaosEvents::MostWanted => "Most wanted (30 seconds)",
            ChaosEvents::WantedHealth => "Health is trouble (30 seconds)",
            ChaosEvents::RemoveWanted => "Remove trouble",
            ChaosEvents::RemoveAllAmmo => "Remove all ammo",
            ChaosEvents::GiveAllAmmo => "Give all ammo",
            ChaosEvents::Sisyphus => "Sisyphus (10-18 seconds)",
            ChaosEvents::SonarSisyphus => "Sonar Sisyphus (10-18 seconds)",
            ChaosEvents::Speed => "Supa Sprinter (10-15 seconds)",
            ChaosEvents::MaxJump => "Max jump (30 seconds)",
            ChaosEvents::NoJumping => "No jumping (30 seconds)",
            ChaosEvents::Freeze => "Freeze (10 seconds)",
            ChaosEvents::HomeSweetHome => "Home Sweet Home",
            ChaosEvents::RandomTp => "Random TP",
            ChaosEvents::FakeRandomTp => "Fake random TP",
            ChaosEvents::SkyTp => "Sky TP (Suicide)",
            ChaosEvents::FakeSkyTp => "Fake Sky TP",
            ChaosEvents::HellTp => "Mole POV (Suicide)",
            ChaosEvents::ReverseGravity => "Reverse gravity (10 seconds)",
            ChaosEvents::Phoon => "Phoon (30 seconds)",
            ChaosEvents::FakeCrash => "Fake crash",
            ChaosEvents::RealCrash => "Real crash",
            ChaosEvents::MinimizeGame => "Minimize game",
        }
    }
}

impl ChaosEvents {
    /// Every event, in declaration order.
    pub fn all() -> (events: Vec<ChaosEvents>)
        ensures
            events@ == all_events(),
    {
        let mut events: Vec<ChaosEvents> = Vec::new();
        events.push(ChaosEvents::Nothing);
        events.push(ChaosEvents::Nothing1Min);
        events.push(ChaosEvents::RandomEvent);
        events.push(ChaosEvents::RemoveMoney);
        events.push(ChaosEvents::MaxMoney);
        events.push(ChaosEvents::Invincibility);
        events.push(ChaosEvents::Heal);
        events.push(ChaosEvents::NoHealth);
        events.push(ChaosEvents::Suicide);
        events.push(ChaosEvents::MostWanted);
        events.push(ChaosEvents::WantedHealth);
        events.push(ChaosEvents::RemoveWanted);
        events.push(ChaosEvents::RemoveAllAmmo);
        events.push(ChaosEvents::GiveAllAmmo);
        events.push(ChaosEvents::Sisyphus);
        events.push(ChaosEvents::SonarSisyphus);
        events.push(ChaosEvents::Speed);
        events.push(ChaosEvents::MaxJump);
        events.push(ChaosEvents::NoJumping);
        events.push(ChaosEvents::Freeze);
        events.push(ChaosEvents::HomeSweetHome);
        events.push(ChaosEvents::RandomTp);
        events.push(ChaosEvents::FakeRandomTp);
        events.push(ChaosEvents::SkyTp);
        events.push(ChaosEvents::FakeSkyTp);
        events.push(ChaosEvents::HellTp);
        events.push(ChaosEvents::ReverseGravity);
        events.push(ChaosEvents::Phoon);
        events.push(ChaosEvents::FakeCrash);
        events.push(ChaosEvents::RealCrash);
        events.push(ChaosEvents::MinimizeGame);
        assert(events@ =~= all_events());
        events
    }

    /// The events that a vote can offer besides `RandomEvent`: every event
    /// but `RandomEvent`, in declaration order.
    pub fn selectable() -> (events: Vec<ChaosEvents>)
        ensures
            events@ == selectable_events(),
    {
        let all = ChaosEvents::all();
        without(&all, ChaosEvents::RandomEvent)
    }

    /// A random event out of every event there is.
    pub fn rand() -> (event: ChaosEvents)
        ensures
            all_events().contains(event),
    {
        let all = ChaosEvents::all();
        let mut rng = thread_rng();
        let event = match choose_item(&all, &mut rng) {
            Some(e) => e,
            None => ChaosEvents::Nothing,
        };
        proof {
            lemma_all_events_complete(event);
        }
        event
    }

    /// A random event out of `events`, which must not be empty.
    pub fn rand_vec(events: &Vec<ChaosEvents>) -> (event: ChaosEvents)
        requires
            events@.len() > 0,
        ensures
            events@.contains(event),
    {
        let mut rng = thread_rng();
        choose_item(events, &mut rng).unwrap()
    }

    /// The event that `RandomEvent` runs in its place: a random event other
    /// than `RandomEvent` itself.
    pub fn random_substitute() -> (event: ChaosEvents)
        ensures
            event != ChaosEvents::RandomEvent,
            selectable_events().contains(event),
            exists|d: int| 0 <= d < SELECTABLE_COUNT && event == #[trigger] selectable_events()[d],
    {
        let d = random_in_range(0, SELECTABLE_COUNT) as usize;
        let event = ChaosEvents::substitute_from_draw(d);
        assert(event == selectable_events()[d as int]);
        event
    }

    /// The event that `RandomEvent` runs for the draw `d`: the selectable
    /// event at `d`.
    pub fn substitute_from_draw(d: usize) -> (event: ChaosEvents)
        requires
            d < SELECTABLE_COUNT,
        ensures
            event == selectable_events()[d as int],
            event != ChaosEvents::RandomEvent,
            selectable_events().contains(event),
    {
        proof {
            lemma_selectable_events_distinct();
            lemma_selectable_events_members();
        }
        let events = ChaosEvents::selectable();
        let event = events[d];
        assert(selectable_events().contains(event));
        event
    }

    /// The four options of one vote: three different random events other
    /// than `RandomEvent`, then `RandomEvent`. Each event is drawn from the
    /// events not drawn yet.
    pub fn get_events() -> (events: Vec<ChaosEvents>)
        ensures
            valid_ballot_options(events@),
            exists|d0: int, d1: int, d2: int|
                0 <= d0 < SELECTABLE_COUNT && 0 <= d1 < SELECTABLE_COUNT - 1 && 0 <= d2
                    < SELECTABLE_COUNT - 2 && events@ == #[trigger] options_from_draws_spec(d0, d1, d2),
    {
        let d0 = random_in_range(0, SELECTABLE_COUNT) as usize;
        let d1 = random_in_range(0, SELECTABLE_COUNT - 1) as usize;
        let d2 = random_in_range(0, SELECTABLE_COUNT - 2) as usize;
        let events = ChaosEvents::options_from_draws(d0, d1, d2);
        assert(events@ == options_from_draws_spec(d0 as int, d1 as int, d2 as int));
        events
    }

    /// The four options of a vote for the draws `d0`, `d1` and `d2`: the
    /// selectable event at `d0`; the event at `d1` among those left; the event
    /// at `d2` among those then left; then `RandomEvent`.
    pub fn options_from_draws(d0: usize, d1: usize, d2: usize) -> (events: Vec<ChaosEvents>)
        requires
            d0 < SELECTABLE_COUNT,
            d1 < SELECTABLE_COUNT - 1,
            d2 < SELECTABLE_COUNT - 2,
        ensures
            events@ == options_from_draws_spec(d0 as int, d1 as int, d2 as int),
            valid_ballot_options(events@),
    {
        broadcast use vstd::seq_lib::group_filter_ensures;
        broadcast use vstd::seq::Seq::lemma_filter_contains_rev;

        proof {
            lemma_selectable_events_distinct();
            lemma_selectable_events_members();
        }
        let pool0 = ChaosEvents::selectable();
        let e0 = pool0[d0];
        proof {
            assert(pool0@.contains(e0));
            lemma_filter_out_distinct(pool0@, e0);
        }
        let pool1 = without(&pool0, e0);
        let e1 = pool1[d1];
        proof {
            assert(pool1@.contains(e1));
            lemma_filter_out_distinct(pool1@, e1);
            pool0@.lemma_filter_pred(other_than(e0), d1 as int);
        }
        let pool2 = without(&pool1, e1);
        let e2 = pool2[d2];
        proof {
            assert(pool2@.contains(e2));
            pool1@.lemma_filter_pred(other_than(e1), d2 as int);
            assert(pool1@.contains(e2));
        }
        let mut events: Vec<ChaosEvents> = Vec::new();
        events.push(e0);
        events.push(e1);
        events.push(e2);
        events.push(ChaosEvents::RandomEvent);
        assert(events@ =~= options_from_draws_spec(d0 as int, d1 as int, d2 as int));
        events
    }
}

/// The number of events a vote draws from.
pub const SELECTABLE_COUNT: u64 = 30;

/// The options of a vote for the draws `d0`, `d1` and `d2`: the event at
/// `d0` among the selectable events, the event at `d1` among those left
/// without it, the event at `d2` among those left without both, then
/// `RandomEvent`.
pub open spec fn options_from_draws_spec(d0: int, d1: int, d2: int) -> Seq<ChaosEvents> {
    let pool0 = selectable_events();
    let e0 = pool0[d0];
    let pool1 = pool0.filter(other_than(e0));
    let e1 = pool1[d1];
    let pool2 = pool1.filter(other_than(e1));
    let e2 = pool2[d2];
    seq![e0, e1, e2, ChaosEvents::RandomEvent]
}

/// The selectable events: thirty, each once.
pub proof fn lemma_selectable_events_distinct()
    ensures
        selectable_events().no_duplicates(),
        selectable_events().len() == SELECTABLE_COUNT,
{
    lemma_all_events_distinct();
    assert(all_events()[2] == ChaosEvents::RandomEvent);
    lemma_filter_out_distinct(all_events(), ChaosEvents::RandomEvent);
}

/// Every event but `RandomEvent`, in declaration order.
pub open spec fn selectable_events() -> Seq<ChaosEvents> {
    all_events().filter(other_than(ChaosEvents::RandomEvent))
}

/// What a vote offers: four options, the first three different events other
/// than `RandomEvent`, the last `RandomEvent`.
pub open spec fn valid_ballot_options(events: Seq<ChaosEvents>) -> bool {
    &&& events.len() == 4
    &&& events[3] == ChaosEvents::RandomEvent
    &&& forall|i: int| 0 <= i < 3 ==> events[i] != ChaosEvents::RandomEvent
    &&& forall|i: int, j: int| 0 <= i < j < 3 ==> events[i] != events[j]
}

/// `all_events` lists every event there is.
pub proof fn lemma_all_events_complete(e: ChaosEvents)
    ensures
        all_events().contains(e),
{
    let s = all_events();
    match e {
        ChaosEvents::Nothing => assert(s[0] == e),
        ChaosEvents::Nothing1Min => assert(s[1] == e),
        ChaosEvents::RandomEvent => assert(s[2] == e),
        ChaosEvents::RemoveMoney => assert(s[3] == e),
        ChaosEvents::MaxMoney => assert(s[4] == e),
        ChaosEvents::Invincibility => assert(s[5] == e),
        ChaosEvents::Heal => assert(s[6] == e),
        ChaosEvents::NoHealth => assert(s[7] == e),
        ChaosEvents::Suicide => assert(s[8] == e),
        ChaosEvents::MostWanted => assert(s[9] == e),
        ChaosEvents::WantedHealth => assert(s[10] == e),
        ChaosEvents::RemoveWanted => assert(s[11] == e),
        ChaosEvents::RemoveAllAmmo => assert(s[12] == e),
        ChaosEvents::GiveAllAmmo => assert(s[13] == e),
        ChaosEvents::Sisyphus => assert(s[14] == e),
        ChaosEvents::SonarSisyphus => assert(s[15] == e),
        ChaosEvents::Speed => assert(s[16] == e),
        ChaosEvents::MaxJump => assert(s[17] == e),
        ChaosEvents::NoJumping => assert(s[18] == e),
        ChaosEvents::Freeze => assert(s[19] == e),
        ChaosEvents::HomeSweetHome => assert(s[20] == e),
        ChaosEvents::RandomTp => assert(s[21] == e),
        ChaosEvents::FakeRandomTp => assert(s[22] == e),
        ChaosEvents::SkyTp => assert(s[23] == e),
        ChaosEvents::FakeSkyTp => assert(s[24] == e),
        ChaosEvents::HellTp => assert(s[25] == e),
        ChaosEvents::ReverseGravity => assert(s[26] == e),
        ChaosEvents::Phoon => assert(s[27] == e),
        ChaosEvents::FakeCrash => assert(s[28] == e),
        ChaosEvents::RealCrash => assert(s[29] == e),
        ChaosEvents::MinimizeGame => assert(s[30] == e),
    }
}

/// `selectable_events` holds exactly the events other than `RandomEvent`.
pub proof fn lemma_selectable_events_members()
    ensures
        forall|e: ChaosEvents| #[trigger] selectable_events().contains(e) <==> e != ChaosEvents::RandomEvent,
{
    broadcast use vstd::seq_lib::group_filter_ensures;
    broadcast use vstd::seq::Seq::lemma_filter_contains_rev;

    let pred = other_than(ChaosEvents::RandomEvent);
    assert forall|e: ChaosEvents| #[trigger] selectable_events().contains(e) <==> e != ChaosEvents::RandomEvent by {
        if selectable_events().contains(e) {
            let i = choose|i: int| 0 <= i < selectable_events().len() && selectable_events()[i] == e;
            all_events().lemma_filter_pred(pred, i);
        }
        if e != ChaosEvents::RandomEvent {
            lemma_all_events_complete(e);
            let i = choose|i: int| 0 <= i < all_events().len() && all_events()[i] == e;
            all_events().lemma_filter_contains(pred, i);
        }
    }
}

/// Holds of every event but `removed`.
pub open spec fn other_than(removed: ChaosEvents) -> spec_fn(ChaosEvents) -> bool {
    |e: ChaosEvents| e != removed
}

/// `pool` with every occurrence of `removed` taken out, the rest in order.
fn without(pool: &Vec<ChaosEvents>, removed: ChaosEvents) -> (rest: Vec<ChaosEvents>)
    ensures
        rest@ == pool@.filter(other_than(removed)),
        forall|e: ChaosEvents| rest@.contains(e) <==> (pool@.contains(e) && e != removed),
{
    broadcast use vstd::seq_lib::group_filter_ensures;
    broadcast use vstd::seq::Seq::lemma_filter_contains_rev;

    let ghost pred = other_than(removed);
    let mut rest: Vec<ChaosEvents> = Vec::new();
    let mut i: usize = 0;
    while i < pool.len()
        invariant
            0 <= i <= pool@.len(),
            rest@ == pool@.take(i as int).filter(other_than(removed)),
        decreases pool@.len() - i,
    {
        proof {
            pool@.take(i as int).lemma_filter_push(pool@[i as int], other_than(removed));
            assert(pool@.take(i as int).push(pool@[i as int]) =~= pool@.take(i + 1));
        }
        let item = pool[i];
        if item != removed {
            rest.push(item);
        }
        assert(rest@ == pool@.take(i + 1).filter(other_than(removed)));
        i = i + 1;
    }
    proof {
        assert(pool@.take(pool@.len() as int) =~= pool@);
        assert forall|e: ChaosEvents| rest@.contains(e) <==> (pool@.contains(e) && e != removed) by {
            if rest@.contains(e) {
                let k = choose|k: int| 0 <= k < rest@.len() && rest@[k] == e;
                pool@.lemma_filter_pred(pred, k);
            }
            if pool@.contains(e) && e != removed {
                let k = choose|k: int| 0 <= k < pool@.len() && pool@[k] == e;
                pool@.lemma_filter_contains(pred, k);
            }
        }
    }
    rest
}

/// The writes that an event consists of, for the events that are nothing but
/// a fixed set of writes into the game's memory; `None` for the others.
pub open spec fn instant_writes_spec(e: ChaosEvents, data: GameData) -> Option<Seq<MemoryWrite>> {
    match e {
        ChaosEvents::RemoveMoney => Some(
            seq![player_write(data.player_offset, PLAYER_MONEY_OFFSET, GameValue::Int(0))],
        ),
        ChaosEvents::MaxMoney => Some(
            seq![player_write(data.player_offset, PLAYER_MONEY_OFFSET, GameValue::Int(MAX_MONEY))],
        ),
        ChaosEvents::NoHealth => Some(
            seq![player_write(data.player_offset, PLAYER_HEALTH_OFFSET, GameValue::Float(ONE_HEALTH_BITS))],
        ),
        ChaosEvents::Suicide => Some(
            seq![player_write(data.player_offset, PLAYER_HEALTH_OFFSET, GameValue::Float(ZERO_HEALTH_BITS))],
        ),
        ChaosEvents::RemoveWanted => Some(
            seq![player_write(data.player_offset, PLAYER_WANTED_LEVEL_OFFSET, GameValue::Int(0))],
        ),
        ChaosEvents::RemoveAllAmmo => Some(all_ammo_writes(data.player_offset, NO_AMMO_BITS)),
        ChaosEvents::GiveAllAmmo => Some(all_ammo_writes(data.player_offset, FULL_AMMO_BITS)),
        ChaosEvents::HomeSweetHome => Some(coordinate_writes(data, dorms())),
        _ => None,
    }
}

impl ChaosEvents {
    /// The writes that the event consists of, when it is nothing but a fixed
    /// set of writes into the game's memory; `None` for events that read the
    /// game, wait, draw at random, or act on the game's process or window.
    pub fn instant_writes(&self, data: &GameData) -> (writes: Option<Vec<MemoryWrite>>)
        ensures
            match writes {
                Some(w) => instant_writes_spec(*self, *data) == Some(w@),
                None => instant_writes_spec(*self, *data) is None,
            },
    {
        let mut single: Vec<MemoryWrite> = Vec::new();
        match self {
            ChaosEvents::RemoveMoney => {
                single.push(remove_money(data));
            },
            ChaosEvents::MaxMoney => {
                single.push(give_max_money(data));
            },
            ChaosEvents::NoHealth => {
                single.push(no_health(data));
            },
            ChaosEvents::Suicide => {
                single.push(suicide(data));
            },
            ChaosEvents::RemoveWanted => {
                single.push(remove_trouble(data));
            },
            ChaosEvents::RemoveAllAmmo => {
                return Some(remove_all_ammo(data));
            },
            ChaosEvents::GiveAllAmmo => {
                return Some(give_all_ammo(data));
            },
            ChaosEvents::HomeSweetHome => {
                return Some(teleport_dorms(data));
            },
            _ => {
                return None;
            },
        }
        assert(instant_writes_spec(*self, *data) == Some(single@));
        Some(single)
    }
}

/// The position of an event in declaration order.
pub open spec fn event_index(e: ChaosEvents) -> int {
    match e {
        ChaosEvents::Nothing => 0,
        ChaosEvents::Nothing1Min => 1,
        ChaosEvents::RandomEvent => 2,
        ChaosEvents::RemoveMoney => 3,
        ChaosEvents::MaxMoney => 4,
        ChaosEvents::Invincibility => 5,
        ChaosEvents::Heal => 6,
        ChaosEvents::NoHealth => 7,
        ChaosEvents::Suicide => 8,
        ChaosEvents::MostWanted => 9,
        ChaosEvents::WantedHealth => 10,
        ChaosEvents::RemoveWanted => 11,
        ChaosEvents::RemoveAllAmmo => 12,
        ChaosEvents::GiveAllAmmo => 13,
        ChaosEvents::Sisyphus => 14,
        ChaosEvents::SonarSisyphus => 15,
        ChaosEvents::Speed => 16,
        ChaosEvents::MaxJump => 17,
        ChaosEvents::NoJumping => 18,
        ChaosEvents::Freeze => 19,
        ChaosEvents::HomeSweetHome => 20,
        ChaosEvents::RandomTp => 21,
        ChaosEvents::FakeRandomTp => 22,
        ChaosEvents::SkyTp => 23,
        ChaosEvents::FakeSkyTp => 24,
        ChaosEvents::HellTp => 25,
        ChaosEvents::ReverseGravity => 26,
        ChaosEvents::Phoon => 27,
        ChaosEvents::FakeCrash => 28,
        ChaosEvents::RealCrash => 29,
        ChaosEvents::MinimizeGame => 30,
    }
}

/// `all_events` holds each event once.
pub proof fn lemma_all_events_distinct()
    ensures
        all_events().no_duplicates(),
        all_events().len() == 31,
        forall|i: int| 0 <= i < 31 ==> event_index(#[trigger] all_events()[i]) == i,
{
    let s = all_events();
    assert(event_index(s[0]) == 0);
    assert(event_index(s[1]) == 1);
    assert(event_index(s[2]) == 2);
    assert(event_index(s[3]) == 3);
    assert(event_index(s[4]) == 4);
    assert(event_index(s[5]) == 5);
    assert(event_index(s[6]) == 6);
    assert(event_index(s[7]) == 7);
    assert(event_index(s[8]) == 8);
    assert(event_index(s[9]) == 9);
    assert(event_index(s[10]) == 10);
    assert(event_index(s[11]) == 11);
    assert(event_index(s[12]) == 12);
    assert(event_index(s[13]) == 13);
    assert(event_index(s[14]) == 14);
    assert(event_index(s[15]) == 15);
    assert(event_index(s[16]) == 16);
    assert(event_index(s[17]) == 17);
    assert(event_index(s[18]) == 18);
    assert(event_index(s[19]) == 19);
    assert(event_index(s[20]) == 20);
    assert(event_index(s[21]) == 21);
    assert(event_index(s[22]) == 22);
    assert(event_index(s[23]) == 23);
    assert(event_index(s[24]) == 24);
    assert(event_index(s[25]) == 25);
    assert(event_index(s[26]) == 26);
    assert(event_index(s[27]) == 27);
    assert(event_index(s[28]) == 28);
    assert(event_index(s[29]) == 29);
    assert(event_index(s[30]) == 30);
    assert forall|i: int| 0 <= i < 31 implies event_index(#[trigger] s[i]) == i by {
        if i == 0 {}
    }
    assert forall|i: int, j: int| 0 <= i < s.len() && 0 <= j < s.len() && i != j implies s[i] != s[j] by {
        assert(event_index(s[i]) == i);
        assert(event_index(s[j]) == j);
    }
}

/// Taking every occurrence of `e` out of a sequence without duplicates
/// leaves a sequence without duplicates, one shorter when `e` was in it.
pub proof fn lemma_filter_out_distinct(s: Seq<ChaosEvents>, e: ChaosEvents)
    requires
        s.no_duplicates(),
    ensures
        s.filter(other_than(e)).no_duplicates(),
        s.filter(other_than(e)).len() == s.len() - if s.contains(e) {
            1int
        } else {
            0int
        },
    decreases s.len(),
{
    broadcast use vstd::seq_lib::group_filter_ensures;
    broadcast use vstd::seq::Seq::lemma_filter_contains_rev;

    if s.len() > 0 {
        let rest = s.drop_last();
        let last = s.last();
        assert(rest.no_duplicates());
        lemma_filter_out_distinct(rest, e);
        assert(s =~= rest.push(last));
        rest.lemma_filter_push(last, other_than(e));
        let f = rest.filter(other_than(e));
        assert(!rest.contains(last)) by {
            if rest.contains(last) {
                let k = choose|k: int| 0 <= k < rest.len() && rest[k] == last;
                assert(s[k] == s[s.len() - 1]);
            }
        }
        if last == e {
            assert(s.contains(e) && !rest.contains(e));
        } else {
            assert(!f.contains(last));
            assert(f.push(last).no_duplicates()) by {
                assert forall|i: int, j: int| 0 <= i < f.push(last).len() && 0 <= j < f.push(last).len()
                    && i != j implies f.push(last)[i] != f.push(last)[j] by {
                    if i < f.len() && j < f.len() {
                    } else if i == f.len() {
                        assert(f.contains(f[j]));
                    } else {
                        assert(f.contains(f[i]));
                    }
                }
            }
            assert(s.contains(e) == rest.contains(e)) by {
                if s.contains(e) {
                    let k = choose|k: int| 0 <= k < s.len() && s[k] == e;
                    assert(k < rest.len());
                    assert(rest[k] == e);
                }
                if rest.contains(e) {
                    let k = choose|k: int| 0 <= k < rest.len() && rest[k] == e;
                    assert(s[k] == e);
                }
            }
        }
    }
}

/// The writes that an event consists of once the game has been read: for
/// `Heal`, the maximum health that was settled on (`max_health`, a bit
/// pattern); for `HellTp`, the player's position (`position`). The other
/// events make the writes of `instant_writes_spec`, and those that are
/// not made of writes alone give `None`.
pub open spec fn writes_given_reads_spec(
    e: ChaosEvents,
    data: GameData,
    max_health: u32,
    position: CoordinateBits,
) -> Option<Seq<MemoryWrite>> {
    match e {
        ChaosEvents::Heal => Some(
            seq![player_write(data.player_offset, PLAYER_HEALTH_OFFSET, GameValue::Float(max_health))],
        ),
        ChaosEvents::HellTp => Some(
            coordinate_writes(data, CoordinateBits { z: HELL_Z_BITS, ..position }),
        ),
        _ => instant_writes_spec(e, data),
    }
}

impl ChaosEvents {
    /// The writes that the event consists of, given what was read of the
    /// game: the maximum health for `Heal`, the position for `HellTp`
    /// (either is ignored for the other events). `None` for events that
    /// compute with floats, wait, draw at random, or act on the game's
    /// process or window.
    pub fn writes_given_reads(&self, data: &GameData, max_health: u32, position: CoordinateBits) -> (writes:
        Option<Vec<MemoryWrite>>)
        ensures
            match writes {
                Some(w) => writes_given_reads_spec(*self, *data, max_health, position) == Some(w@),
                None => writes_given_reads_spec(*self, *data, max_health, position) is None,
            },
    {
        match self {
            ChaosEvents::Heal => {
                let mut single: Vec<MemoryWrite> = Vec::new();
                single.push(heal(data, max_health));
                assert(single@ =~= seq![
                    player_write(data.player_offset, PLAYER_HEALTH_OFFSET, GameValue::Float(max_health)),
                ]);
                Some(single)
            },
            ChaosEvents::HellTp => Some(hell_tp(data, position)),
            _ => self.instant_writes(data),
        }
    }
}

/// Every event other than `RandomEvent` can stand in for it, each for
/// exactly one draw: the draws name the thirty selectable events one to one.
pub proof fn lemma_every_event_can_substitute(e: ChaosEvents)
    ensures
        e != ChaosEvents::RandomEvent ==> exists|d: int|
            0 <= d < SELECTABLE_COUNT && #[trigger] selectable_events()[d] == e,
        forall|d1: int, d2: int|
            0 <= d1 < SELECTABLE_COUNT && 0 <= d2 < SELECTABLE_COUNT && d1 != d2
                ==> #[trigger] selectable_events()[d1] != #[trigger] selectable_events()[d2],
        forall|d: int| 0 <= d < SELECTABLE_COUNT ==> #[trigger] selectable_events()[d] != ChaosEvents::RandomEvent,
{
    lemma_selectable_events_distinct();
    lemma_selectable_events_members();
    assert forall|d: int| 0 <= d < SELECTABLE_COUNT implies #[trigger] selectable_events()[d]
        != ChaosEvents::RandomEvent by {
        assert(selectable_events().contains(selectable_events()[d]));
    }
    if e != ChaosEvents::RandomEvent {
        assert(selectable_events().contains(e));
    }
}

/// What each event that is nothing but writes puts into the game: the
/// money, health, trouble and ammunition fields of the player record get
/// the event's value, and the teleports write the three coordinates. Full
/// ammunition is nine hundred ninety-nine rounds, none is zero; healing
/// writes the maximum health that was read; hell keeps x and y.
pub proof fn lemma_event_writes(data: GameData, max_health: u32, position: CoordinateBits)
    ensures
        instant_writes_spec(ChaosEvents::RemoveMoney, data) == Some(
            seq![MemoryWrite { field: MemoryField { pointer_address: data.player_offset, field_offset: 0x1CA0 }, value: GameValue::Int(0) }],
        ),
        instant_writes_spec(ChaosEvents::MaxMoney, data) == Some(
            seq![MemoryWrite { field: MemoryField { pointer_address: data.player_offset, field_offset: 0x1CA0 }, value: GameValue::Int(100000000) }],
        ),
        instant_writes_spec(ChaosEvents::NoHealth, data) == Some(
            seq![MemoryWrite { field: MemoryField { pointer_address: data.player_offset, field_offset: 0x1CB8 }, value: GameValue::Float(0x3F800000) }],
        ),
        instant_writes_spec(ChaosEvents::Suicide, data) == Some(
            seq![MemoryWrite { field: MemoryField { pointer_address: data.player_offset, field_offset: 0x1CB8 }, value: GameValue::Float(0) }],
        ),
        instant_writes_spec(ChaosEvents::RemoveWanted, data) == Some(
            seq![MemoryWrite { field: MemoryField { pointer_address: data.player_offset, field_offset: 0x1D40 }, value: GameValue::Int(0) }],
        ),
        instant_writes_spec(ChaosEvents::GiveAllAmmo, data) == Some(ammo_writes_with(data, 0x4479C000)),
        instant_writes_spec(ChaosEvents::RemoveAllAmmo, data) == Some(ammo_writes_with(data, 0)),
        instant_writes_spec(ChaosEvents::HomeSweetHome, data) == Some(
            position_writes_with(data, 0x438787C7, 0xC2E62C60, 0x4132F41D),
        ),
        writes_given_reads_spec(ChaosEvents::Heal, data, max_health, position) == Some(
            seq![MemoryWrite { field: MemoryField { pointer_address: data.player_offset, field_offset: 0x1CB8 }, value: GameValue::Float(max_health) }],
        ),
        writes_given_reads_spec(ChaosEvents::HellTp, data, max_health, position) == Some(
            position_writes_with(data, position.x, position.y, 0xC2480000),
        ),
        forall|e: ChaosEvents|
            e != ChaosEvents::Heal && e != ChaosEvents::HellTp ==> #[trigger] writes_given_reads_spec(
                e,
                data,
                max_health,
                position,
            ) == instant_writes_spec(e, data),
{
    assert(instant_writes_spec(ChaosEvents::GiveAllAmmo, data)->0 =~= ammo_writes_with(data, 0x4479C000));
    assert(instant_writes_spec(ChaosEvents::RemoveAllAmmo, data)->0 =~= ammo_writes_with(data, 0));
    assert(instant_writes_spec(ChaosEvents::HomeSweetHome, data)->0 =~= position_writes_with(
        data,
        0x438787C7,
        0xC2E62C60,
        0x4132F41D,
    ));
    assert(writes_given_reads_spec(ChaosEvents::HellTp, data, max_health, position)->0
        =~= position_writes_with(data, position.x, position.y, 0xC2480000));
}

/// The five ammunition fields (eggs, stink bombs, spud gun, rocket
/// launcher, firecrackers), each set to the float with bit pattern `bits`.
pub open spec fn ammo_writes_with(data: GameData, bits: u32) -> Seq<MemoryWrite> {
    seq![
        MemoryWrite { field: MemoryField { pointer_address: data.player_offset, field_offset: 0x378F8 }, value: GameValue::Float(bits) },
        MemoryWrite { field: MemoryField { pointer_address: data.player_offset, field_offset: 0x37A10 }, value: GameValue::Float(bits) },
        MemoryWrite { field: MemoryField { pointer_address: data.player_offset, field_offset: 0x379C0 }, value: GameValue::Float(bits) },
        MemoryWrite { field: MemoryField { pointer_address: data.player_offset, field_offset: 0x37970 }, value: GameValue::Float(bits) },
        MemoryWrite { field: MemoryField { pointer_address: data.player_offset, field_offset: 0x37A8 }, value: GameValue::Float(bits) },
    ]
}

/// The three coordinate fields of the position record (at 0x30, 0x34 and
/// 0x38), set to the floats with bit patterns `x`, `y` and `z`.
pub open spec fn position_writes_with(data: GameData, x: u32, y: u32, z: u32) -> Seq<MemoryWrite> {
    seq![
        MemoryWrite { field: MemoryField { pointer_address: data.player_coordinates_offset, field_offset: 0x30 }, value: GameValue::Float(x) },
        MemoryWrite { field: MemoryField { pointer_address: data.player_coordinates_offset, field_offset: 0x34 }, value: GameValue::Float(y) },
        MemoryWrite { field: MemoryField { pointer_address: data.player_coordinates_offset, field_offset: 0x38 }, value: GameValue::Float(z) },
    ]
}

} // verus!
