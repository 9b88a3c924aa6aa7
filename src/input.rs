//! Keyboard input: key codes, heading changes and selection keys.
use vstd::prelude::*;
use crate::geometry::{opposite, Direction};
use crate::perks::SelectionKeys;

verus! {

/// Logical keys the game reacts to.
#[derive(Clone, Copy, Debug, PartialEq, Eq, Hash, Structural)]
pub enum VirtualKey {
    Up,
    Down,
    Left,
    Right,
    Space,
    Enter,
    Escape,
    W,
    A,
    S,
    D,
}

/// Mouse buttons a host may report.
#[derive(Clone, Copy, Debug, PartialEq, Eq, Hash, Structural)]
pub enum MouseButton {
    Left,
    Right,
    Middle,
}

/// The logical key of a host key code, if the game knows it.
pub open spec fn key_of(code: Seq<char>) -> Option<VirtualKey> {
    if code == "KeyW"@ {
        Some(VirtualKey::W)
    } else if code == "KeyA"@ {
        Some(VirtualKey::A)
    } else if code == "KeyS"@ {
        Some(VirtualKey::S)
    } else if code == "KeyD"@ {
        Some(VirtualKey::D)
    } else if code == "Space"@ {
        Some(VirtualKey::Space)
    } else if code == "Enter"@ {
        Some(VirtualKey::Enter)
    } else if code == "Escape"@ {
        Some(VirtualKey::Escape)
    } else {
        None
    }
}

/// Whether two strings hold the same characters.
fn same_text(a: &str, b: &str) -> (r: bool)
    ensures
        r == (a@ == b@),
{
    let n = a.unicode_len();
    if n != b.unicode_len() {
        return false;
    }
    let mut i: usize = 0;
    while i < n
        invariant
            n == a@.len(),
            n == b@.len(),
            0 <= i <= n,
            forall|j: int| 0 <= j < i ==> a@[j] == b@[j],
        decreases n - i,
    {
        if a.get_char(i) != b.get_char(i) {
            return false;
        }
        i = i + 1;
    }
    assert(a@ =~= b@);
    true
}

/// Maps a host key code (`"KeyW"`, `"Space"`, ...) to a logical key.
pub fn key_code_to_virtual(code: &str) -> (r: Option<VirtualKey>)
    ensures
        r == key_of(code@),
{
    if same_text(code, "KeyW") {
        Some(VirtualKey::W)
    } else if same_text(code, "KeyA") {
        Some(VirtualKey::A)
    } else if same_text(code, "KeyS") {
        Some(VirtualKey::S)
    } else if same_text(code, "KeyD") {
        Some(VirtualKey::D)
    } else if same_text(code, "Space") {
        Some(VirtualKey::Space)
    } else if same_text(code, "Enter") {
        Some(VirtualKey::Enter)
    } else if same_text(code, "Escape") {
        Some(VirtualKey::Escape)
    } else {
        None
    }
}

/// The heading a key asks for, if any.
pub open spec fn direction_of(key: Option<VirtualKey>) -> Option<Direction> {
    match key {
        Some(VirtualKey::W) => Some(Direction::Up),
        Some(VirtualKey::S) => Some(Direction::Down),
        Some(VirtualKey::A) => Some(Direction::Left),
        Some(VirtualKey::D) => Some(Direction::Right),
        _ => None,
    }
}

/// The heading after a key press: a requested heading is taken unless it
/// points exactly back.
pub open spec fn steered(current: Direction, key: Option<VirtualKey>) -> Direction {
    match direction_of(key) {
        Some(d) => if d == opposite(current) {
            current
        } else {
            d
        },
        None => current,
    }
}

/// Pending selection input after a key press: `A` moves the cursor to the
/// first option, `D` to the second, `Space` confirms and `Escape` cancels.
pub open spec fn recorded(keys: SelectionKeys, key: Option<VirtualKey>) -> SelectionKeys {
    match key {
        Some(VirtualKey::A) => SelectionKeys { left: true, ..keys },
        Some(VirtualKey::D) => SelectionKeys { right: true, ..keys },
        Some(VirtualKey::Space) => SelectionKeys { confirm: true, ..keys },
        Some(VirtualKey::Escape) => SelectionKeys { cancel: true, ..keys },
        _ => keys,
    }
}

/// Handles a key press while the game runs. After game over nothing
/// changes; during the selection the key is queued for the selection;
/// otherwise `W`/`A`/`S`/`D` steer, and a reversal is ignored.
pub fn handle_key_down(
    key_code: &str,
    player_direction: &mut Direction,
    game_over: bool,
    in_powerup_selection: bool,
    powerup_selection_keys: &mut SelectionKeys,
)
    ensures
        game_over ==> *final(player_direction) == *old(player_direction)
            && *final(powerup_selection_keys) == *old(powerup_selection_keys),
        !game_over && in_powerup_selection ==> *final(player_direction) == *old(player_direction)
            && *final(powerup_selection_keys) == recorded(
            *old(powerup_selection_keys),
            key_of(key_code@),
        ),
        !game_over && !in_powerup_selection ==> *final(player_direction) == steered(
            *old(player_direction),
            key_of(key_code@),
        ) && *final(powerup_selection_keys) == *old(powerup_selection_keys),
{
    if game_over {
        return;
    }
    let key = key_code_to_virtual(key_code);
    if in_powerup_selection {
        match key {
            Some(VirtualKey::A) => powerup_selection_keys.left = true,
            Some(VirtualKey::D) => powerup_selection_keys.right = true,
            Some(VirtualKey::Space) => powerup_selection_keys.confirm = true,
            Some(VirtualKey::Escape) => powerup_selection_keys.cancel = true,
            _ => {},
        }
        return;
    }
    let new_direction = match key {
        Some(VirtualKey::W) => Some(Direction::Up),
        Some(VirtualKey::S) => Some(Direction::Down),
        Some(VirtualKey::A) => Some(Direction::Left),
        Some(VirtualKey::D) => Some(Direction::Right),
        _ => None,
    };
    if let Some(direction) = new_direction {
        if !player_direction.is_opposite(&direction) {
            *player_direction = direction;
        }
    }
}

/// Whether a key press on the game-over screen restarts the game (`Space`).
pub fn handle_game_over_input(key_code: &str) -> (r: bool)
    ensures
        r == (key_code@ == "Space"@),
{
    same_text(key_code, "Space")
}

} // verus!
