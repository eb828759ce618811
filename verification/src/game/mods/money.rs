//! Events on the player's money, counted in cents.

use crate::game::bully::GameData;
use crate::memory::game_offsets::PLAYER_MONEY_OFFSET;
use crate::memory::memory::{player_write, GameValue, MemoryField, MemoryWrite};
use crate::random::random_in_range;
use vstd::prelude::*;

verus! {

/// The money after "check bounced": 25 dollars.
pub const BOUNCED_MONEY: i32 = 2500;

/// The money that "max money" gives: one million dollars.
pub const MAX_MONEY: i32 = 100000000;

/// The smallest and the largest spare change, in cents: one cent and ten
/// dollars.
pub const SPARE_CHANGE_MIN: i32 = 1;
pub const SPARE_CHANGE_MAX: i32 = 1000;

/// Sets the player's money to `money` cents.
pub fn update_money(data: &GameData, money: i32) -> (w: MemoryWrite)
    ensures
        w == player_write(data.player_offset, PLAYER_MONEY_OFFSET, GameValue::Int(money)),
{
    MemoryWrite {
        field: MemoryField { pointer_address: data.player_offset, field_offset: PLAYER_MONEY_OFFSET },
        value: GameValue::Int(money),
    }
}

/// Where the player's money is read from.
pub fn get_money(data: &GameData) -> (f: MemoryField)
    ensures
        f == (MemoryField { pointer_address: data.player_offset, field_offset: PLAYER_MONEY_OFFSET }),
{
    MemoryField { pointer_address: data.player_offset, field_offset: PLAYER_MONEY_OFFSET }
}

/// Takes all the player's money.
pub fn remove_money(data: &GameData) -> (w: MemoryWrite)
    ensures
        w == player_write(data.player_offset, PLAYER_MONEY_OFFSET, GameValue::Int(0)),
{
    update_money(data, 0)
}

/// Sets the player's money to 25 dollars.
pub fn check_bounced(data: &GameData) -> (w: MemoryWrite)
    ensures
        w == player_write(data.player_offset, PLAYER_MONEY_OFFSET, GameValue::Int(BOUNCED_MONEY)),
{
    update_money(data, BOUNCED_MONEY)
}

/// Gives the player one million dollars.
pub fn give_max_money(data: &GameData) -> (w: MemoryWrite)
    ensures
        w == player_write(data.player_offset, PLAYER_MONEY_OFFSET, GameValue::Int(MAX_MONEY)),
{
    update_money(data, MAX_MONEY)
}

/// Adds `change` cents to the money that was read, `current_money`; when the
/// read failed, the money becomes 25 dollars instead. The sum must fit.
pub fn spare_change_with(data: &GameData, current_money: Option<i32>, change: i32) -> (w: MemoryWrite)
    requires
        current_money matches Some(m) ==> i32::MIN <= m + change <= i32::MAX,
    ensures
        w == match current_money {
            Some(m) => player_write(
                data.player_offset,
                PLAYER_MONEY_OFFSET,
                GameValue::Int((m + change) as i32),
            ),
            None => player_write(data.player_offset, PLAYER_MONEY_OFFSET, GameValue::Int(BOUNCED_MONEY)),
        },
{
    match current_money {
        Some(m) => update_money(data, m + change),
        None => check_bounced(data),
    }
}

/// Adds a random amount from one cent to ten dollars, both included, to the
/// money that was read, `current_money`; when the read failed, the money
/// becomes 25 dollars instead. `None` when the sum would not fit in the field.
pub fn spare_change(data: &GameData, current_money: Option<i32>) -> (w: Option<MemoryWrite>)
    ensures
        current_money is None ==> w == Some(
            player_write(data.player_offset, PLAYER_MONEY_OFFSET, GameValue::Int(BOUNCED_MONEY)),
        ),
        current_money matches Some(m) ==> match w {
            Some(w) => {
                &&& w.field == (MemoryField {
                    pointer_address: data.player_offset,
                    field_offset: PLAYER_MONEY_OFFSET,
                })
                &&& w.value matches GameValue::Int(x) && m + SPARE_CHANGE_MIN <= x <= m
                    + SPARE_CHANGE_MAX
            },
            None => m + SPARE_CHANGE_MAX > i32::MAX,
        },
{
    match current_money {
        Some(m) => {
            let change = random_in_range(SPARE_CHANGE_MIN as u64, SPARE_CHANGE_MAX as u64 + 1) as i32;
            if m > i32::MAX - change {
                None
            } else {
                Some(spare_change_with(data, current_money, change))
            }
        },
        None => Some(check_bounced(data)),
    }
}

} // verus!
