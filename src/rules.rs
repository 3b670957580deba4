use vstd::prelude::*;

verus! {

/// Addition clamped to the top of the heat range.
pub open spec fn clamp_add(a: int, b: int) -> int {
    if a + b > 255 {
        255
    } else {
        a + b
    }
}

/// Subtraction clamped to the bottom of the heat range.
pub open spec fn clamp_sub(a: int, b: int) -> int {
    if a - b < 0 {
        0
    } else {
        a - b
    }
}

/// Horizontal diffusion from a neighbour: an eighth of its heat, nothing at an edge.
pub open spec fn with_side(v: int, side: Option<u8>) -> int {
    match side {
        Some(n) => clamp_add(v, n as int / 8),
        None => v,
    }
}

/// The next heat of a cell above the source row, from the previous values below
/// it, at it and beside it, and the tick's decay and fluctuation draws.
pub open spec fn interior_rule(
    below: u8,
    current: u8,
    left: Option<u8>,
    right: Option<u8>,
    decay: u8,
    fluctuation: u8,
    raise: bool,
) -> int {
    let base = clamp_add(below as int / 2, current as int / 3);
    let spread = with_side(with_side(base, left), right);
    let decayed = clamp_sub(spread, decay as int);
    if raise {
        clamp_add(decayed, fluctuation as int)
    } else {
        clamp_sub(decayed, fluctuation as int)
    }
}

/// The next heat of a source-row cell: a fresh injection when it ignites, its
/// previous heat less the decay draw otherwise.
pub open spec fn source_rule(prev: u8, ignite: bool, fresh: u8, decay: u8) -> int {
    if ignite {
        fresh as int
    } else {
        clamp_sub(prev as int, decay as int)
    }
}

fn add_clamped(a: u8, b: u8) -> (r: u8)
    ensures
        r == clamp_add(a as int, b as int),
{
    if a as u16 + b as u16 > 255 {
        255
    } else {
        a + b
    }
}

fn sub_clamped(a: u8, b: u8) -> (r: u8)
    ensures
        r == clamp_sub(a as int, b as int),
{
    if a < b {
        0
    } else {
        a - b
    }
}

/// One cell above the source row for the next tick.
pub fn interior_heat(
    below: u8,
    current: u8,
    left: Option<u8>,
    right: Option<u8>,
    decay: u8,
    fluctuation: u8,
    raise: bool,
) -> (r: u8)
    ensures
        r == interior_rule(below, current, left, right, decay, fluctuation, raise),
{
    let mut v = add_clamped(below / 2, current / 3);
    if let Some(l) = left {
        v = add_clamped(v, l / 8);
    }
    if let Some(n) = right {
        v = add_clamped(v, n / 8);
    }
    let decayed = sub_clamped(v, decay);
    if raise {
        add_clamped(decayed, fluctuation)
    } else {
        sub_clamped(decayed, fluctuation)
    }
}

/// One source-row cell for the next tick.
pub fn source_heat(prev: u8, ignite: bool, fresh: u8, decay: u8) -> (r: u8)
    ensures
        r == source_rule(prev, ignite, fresh, decay),
{
    if ignite {
        fresh
    } else {
        sub_clamped(prev, decay)
    }
}

} // verus!
