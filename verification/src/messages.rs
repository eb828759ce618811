//! What the mod says in the chat.

use crate::game::events::{event_name, ChaosEvents};
use vstd::prelude::*;
use vstd::string::StringExecFns;

verus! {

/// The decimal digit for `d`, which is below ten.
pub open spec fn digit_char(d: nat) -> char {
    if d == 0 {
        '0'
    } else if d == 1 {
        '1'
    } else if d == 2 {
        '2'
    } else if d == 3 {
        '3'
    } else if d == 4 {
        '4'
    } else if d == 5 {
        '5'
    } else if d == 6 {
        '6'
    } else if d == 7 {
        '7'
    } else if d == 8 {
        '8'
    } else {
        '9'
    }
}

/// The decimal notation of `n`, without leading zeros.
pub open spec fn decimal(n: nat) -> Seq<char>
    decreases n,
{
    if n < 10 {
        seq![digit_char(n)]
    } else {
        decimal(n / 10).push(digit_char(n % 10))
    }
}

fn digit_str(d: usize) -> (s: &'static str)
    requires
        d < 10,
    ensures
        s@ == seq![digit_char(d as nat)],
{
    if d == 0 {
        proof {
            reveal_strlit("0");
        }
        "0"
    } else if d == 1 {
        proof {
            reveal_strlit("1");
        }
        "1"
    } else if d == 2 {
        proof {
            reveal_strlit("2");
        }
        "2"
    } else if d == 3 {
        proof {
            reveal_strlit("3");
        }
        "3"
    } else if d == 4 {
        proof {
            reveal_strlit("4");
        }
        "4"
    } else if d == 5 {
        proof {
            reveal_strlit("5");
        }
        "5"
    } else if d == 6 {
        proof {
            reveal_strlit("6");
        }
        "6"
    } else if d == 7 {
        proof {
            reveal_strlit("7");
        }
        "7"
    } else if d == 8 {
        proof {
            reveal_strlit("8");
        }
        "8"
    } else {
        proof {
            reveal_strlit("9");
        }
        "9"
    }
}

/// The decimal notation of `n`.
pub fn decimal_string(n: usize) -> (s: String)
    ensures
        s@ == decimal(n as nat),
    decreases n,
{
    if n < 10 {
        String::from_str(digit_str(n))
    } else {
        let mut s = decimal_string(n / 10);
        s.append(digit_str(n % 10));
        s
    }
}

/// How the option at `index` (counted from zero) is announced: its number,
/// counted from one, then the event's name.
pub fn option_announcement(index: usize, event: ChaosEvents) -> (line: String)
    requires
        index < usize::MAX,
    ensures
        line@ == decimal((index + 1) as nat) + ". "@ + event_name(event),
{
    let mut line = decimal_string(index + 1);
    line.append(". ");
    line.append(event.as_str());
    line
}

/// How the event that a round applies is announced, with its votes when it
/// won a vote.
pub fn chosen_event_message(event: ChaosEvents, votes: Option<usize>) -> (line: String)
    ensures
        line@ == match votes {
            Some(n) => "Chosen event: "@ + event_name(event) + " ("@ + decimal(n as nat) + " votes)"@,
            None => "Chosen event: "@ + event_name(event),
        },
{
    let mut line = String::from_str("Chosen event: ");
    line.append(event.as_str());
    match votes {
        Some(n) => {
            line.append(" (");
            let count = decimal_string(n);
            line.append(count.as_str());
            line.append(" votes)");
        },
        None => {},
    }
    line
}

/// How the event that `RandomEvent` ran is announced.
pub fn random_event_message(event: ChaosEvents) -> (line: String)
    ensures
        line@ == "Random event: "@ + event_name(event),
{
    let mut line = String::from_str("Random event: ");
    line.append(event.as_str());
    line
}

/// The greeting once the mod has joined the chat, with the number of events
/// it knows and its version.
pub fn connected_message(event_count: usize, version: &str) -> (line: String)
    ensures
        line@ == "[Bully Chaos Mod] Successfully connected. Enabled events: "@ + decimal(
            event_count as nat,
        ) + ", version: "@ + version@,
{
    let mut line = String::from_str("[Bully Chaos Mod] Successfully connected. Enabled events: ");
    let count = decimal_string(event_count);
    line.append(count.as_str());
    line.append(", version: ");
    line.append(version);
    line
}

/// Said when voting pauses for a minute.
pub const VOTING_PAUSED: &'static str = "Voting disabled for 1 minute (meta).";

/// Said when a vote opens.
pub const VOTING_STARTED: &'static str = "Chaos voting started...";

/// Said when "more chaos" starts.
pub const MORE_CHAOS_ENABLED: &'static str = "More chaos enabled for 1 minute (meta).";

/// Said when "more chaos" ends.
pub const MORE_CHAOS_DISABLED: &'static str = "More chaos disabled.";

/// Said when the game has closed.
pub const GAME_CLOSED: &'static str = "Bully game handle closed, voting paused.";

} // verus!
