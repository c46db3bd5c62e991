use vstd::prelude::*;

verus! {

// Keys are identified by number, as bevy's `KeyCode` numbers its variants in
// declaration order.

/// The `W` key.
pub const KEY_W: u32 = 32;

/// The `S` key.
pub const KEY_S: u32 = 28;

/// The `D` key.
pub const KEY_D: u32 = 13;

/// The `A` key.
pub const KEY_A: u32 = 10;

/// The space bar.
pub const KEY_SPACE: u32 = 76;

/// The left shift key.
pub const KEY_LSHIFT: u32 = 114;

/// The escape key.
pub const KEY_ESCAPE: u32 = 36;

/// The key bound to each action of the camera.
#[derive(Clone, Copy, Debug, PartialEq, Eq, Structural)]
pub struct KeysBindings {
    pub forward: u32,
    pub back: u32,
    pub right: u32,
    pub left: u32,
    pub up: u32,
    pub down: u32,
    pub toggle_grab_cursor: u32,
}

impl Default for KeysBindings {
    /// WASD to move, space and left shift to rise and sink, escape to grab or
    /// free the cursor.
    fn default() -> (b: Self)
        ensures
            b == (KeysBindings {
                forward: KEY_W,
                back: KEY_S,
                right: KEY_D,
                left: KEY_A,
                up: KEY_SPACE,
                down: KEY_LSHIFT,
                toggle_grab_cursor: KEY_ESCAPE,
            }),
    {
        KeysBindings {
            forward: KEY_W,
            back: KEY_S,
            right: KEY_D,
            left: KEY_A,
            up: KEY_SPACE,
            down: KEY_LSHIFT,
            toggle_grab_cursor: KEY_ESCAPE,
        }
    }
}

/// Where the camera is steered: each axis is -1, 0 or 1. `forward` and
/// `right` run along the camera's heading projected on the ground, `up` along
/// the world's vertical.
#[derive(Clone, Copy, Debug, PartialEq, Eq, Structural)]
pub struct Steer {
    pub forward: i8,
    pub right: i8,
    pub up: i8,
}

impl Steer {
    pub open spec fn view(&self) -> (int, int, int) {
        (self.forward as int, self.right as int, self.up as int)
    }

    /// Whether the camera is steered nowhere.
    pub fn is_zero(&self) -> (r: bool)
        ensures
            r == (self@ == (0int, 0int, 0int)),
    {
        self.forward == 0 && self.right == 0 && self.up == 0
    }
}

/// 1 if key `k` is held and counts for its action, 0 otherwise. A key that an
/// earlier action already claims (`claimed`) counts for that one only.
pub open spec fn counts(held: Seq<u32>, k: u32, claimed: bool) -> int {
    if held.contains(k) && !claimed {
        1
    } else {
        0
    }
}

/// The sum of one unit per held, bound key, over the forward, right and up
/// axes. Actions claim their key in the order forward, back, left, right, up,
/// down.
pub open spec fn steer_of(b: KeysBindings, held: Seq<u32>) -> (int, int, int) {
    let f = counts(held, b.forward, false);
    let bk = counts(held, b.back, b.back == b.forward);
    let l = counts(held, b.left, b.left == b.forward || b.left == b.back);
    let r = counts(held, b.right, b.right == b.forward || b.right == b.back || b.right == b.left);
    let u = counts(
        held,
        b.up,
        b.up == b.forward || b.up == b.back || b.up == b.left || b.up == b.right,
    );
    let d = counts(
        held,
        b.down,
        b.down == b.forward || b.down == b.back || b.down == b.left || b.down == b.right || b.down
            == b.up,
    );
    (f - bk, r - l, u - d)
}

/// Whether `k` is among the held keys.
pub fn is_held(held: &Vec<u32>, k: u32) -> (r: bool)
    ensures
        r == held@.contains(k),
{
    let mut i: usize = 0;
    while i < held.len()
        invariant
            i <= held.len(),
            forall|j: int| 0 <= j < i ==> held@[j] != k,
        decreases held.len() - i,
    {
        if held[i] == k {
            assert(held@[i as int] == k);
            return true;
        }
        i = i + 1;
    }
    false
}

fn unit(b: bool) -> (r: i8)
    ensures
        r == (if b {
            1int
        } else {
            0int
        }),
{
    if b {
        1
    } else {
        0
    }
}

/// Resolves the held keys into the direction the camera moves in. While the
/// cursor is free the camera does not move.
pub fn player_move(grabbed: bool, held: &Vec<u32>, bindings: &KeysBindings) -> (s: Steer)
    ensures
        s@ == (if grabbed {
            steer_of(*bindings, held@)
        } else {
            (0int, 0int, 0int)
        }),
        -1 <= s.forward <= 1,
        -1 <= s.right <= 1,
        -1 <= s.up <= 1,
{
    if !grabbed {
        return Steer { forward: 0, right: 0, up: 0 };
    }
    let b = *bindings;
    let f = unit(is_held(held, b.forward));
    let bk = unit(b.back != b.forward && is_held(held, b.back));
    let l = unit(b.left != b.forward && b.left != b.back && is_held(held, b.left));
    let r = unit(
        b.right != b.forward && b.right != b.back && b.right != b.left && is_held(held, b.right),
    );
    let u = unit(
        b.up != b.forward && b.up != b.back && b.up != b.left && b.up != b.right && is_held(
            held,
            b.up,
        ),
    );
    let d = unit(
        b.down != b.forward && b.down != b.back && b.down != b.left && b.down != b.right && b.down
            != b.up && is_held(held, b.down),
    );
    Steer { forward: f - bk, right: r - l, up: u - d }
}

/// With six distinct movement keys, holding each opposite pair together or
/// not at all steers the camera nowhere.
pub proof fn lemma_opposite_keys_cancel(b: KeysBindings, held: Seq<u32>)
    requires
        b.forward != b.back,
        b.forward != b.left,
        b.forward != b.right,
        b.forward != b.up,
        b.forward != b.down,
        b.back != b.left,
        b.back != b.right,
        b.back != b.up,
        b.back != b.down,
        b.left != b.right,
        b.left != b.up,
        b.left != b.down,
        b.right != b.up,
        b.right != b.down,
        b.up != b.down,
        held.contains(b.forward) == held.contains(b.back),
        held.contains(b.left) == held.contains(b.right),
        held.contains(b.up) == held.contains(b.down),
    ensures
        steer_of(b, held) == (0int, 0int, 0int),
{
}

} // verus!
