use vstd::prelude::*;
use vstd::set_lib::lemma_map_size;
use vstd::relations::injective_on;

use std::collections::HashSet;

use crate::types::{in_field, Command, Direction, Position};

verus! {

broadcast use vstd::std_specs::hash::group_hash_axioms;

/// Where the robot stands after `k` unit steps towards `d` from `p`.
pub open spec fn after_steps(p: Position, d: Direction, k: nat) -> Position
    decreases k,
{
    if k == 0 {
        p
    } else {
        after_steps(p, d, (k - 1) as nat).shifted(d)
    }
}

/// The cells the robot occupies after each of `n` unit steps towards `d`
/// from `p`.
pub open spec fn steps_trail(p: Position, d: Direction, n: nat) -> Seq<Position> {
    Seq::new(n, |k: int| after_steps(p, d, (k + 1) as nat))
}

/// Where the robot stands once it has carried out all of `cmds` from `start`.
pub open spec fn end_position(start: Position, cmds: Seq<Command>) -> Position
    decreases cmds.len(),
{
    if cmds.len() == 0 {
        start
    } else {
        let c = cmds.last();
        after_steps(end_position(start, cmds.drop_last()), c.direction, c.step_count())
    }
}

/// The cells the robot occupies after each of its unit steps, in order.
pub open spec fn trail(start: Position, cmds: Seq<Command>) -> Seq<Position>
    decreases cmds.len(),
{
    if cmds.len() == 0 {
        Seq::empty()
    } else {
        let c = cmds.last();
        let p = end_position(start, cmds.drop_last());
        trail(start, cmds.drop_last()) + steps_trail(p, c.direction, c.step_count())
    }
}

/// The distinct cells the robot has cleaned: every cell it occupies after a
/// unit step. The start cell counts only when the robot comes back to it.
pub open spec fn cleaned_cells(start: Position, cmds: Seq<Command>) -> Set<Position> {
    trail(start, cmds).to_set()
}

/// The number that stands for a cell in the set of cleaned cells.
pub open spec fn cell_key(p: Position) -> u64 {
    ((p.x + 0x8000_0000) * 0x1_0000_0000 + (p.y + 0x8000_0000)) as u64
}

/// The numbers that stand for the cells of `s`.
pub open spec fn cell_keys(s: Set<Position>) -> Set<u64> {
    s.map(|p: Position| cell_key(p))
}

proof fn lemma_cell_key_injective(p: Position, q: Position)
    requires
        cell_key(p) == cell_key(q),
    ensures
        p == q,
{
    let a: int = p.x + 0x8000_0000;
    let b: int = p.y + 0x8000_0000;
    let c: int = q.x + 0x8000_0000;
    let d: int = q.y + 0x8000_0000;
    assert(0 <= a * 0x1_0000_0000 + b <= u64::MAX) by (nonlinear_arith)
        requires
            0 <= a < 0x1_0000_0000,
            0 <= b < 0x1_0000_0000,
    ;
    assert(0 <= c * 0x1_0000_0000 + d <= u64::MAX) by (nonlinear_arith)
        requires
            0 <= c < 0x1_0000_0000,
            0 <= d < 0x1_0000_0000,
    ;
    assert(a == c && b == d) by (nonlinear_arith)
        requires
            0 <= a < 0x1_0000_0000,
            0 <= b < 0x1_0000_0000,
            0 <= c < 0x1_0000_0000,
            0 <= d < 0x1_0000_0000,
            a * 0x1_0000_0000 + b == c * 0x1_0000_0000 + d,
    ;
}

proof fn lemma_push_to_set(s: Seq<Position>, p: Position)
    ensures
        s.push(p).to_set() == s.to_set().insert(p),
{
    assert forall|q: Position| #[trigger] s.push(p).to_set().contains(q) implies s.to_set().insert(
        p,
    ).contains(q) by {
        let k = choose|k: int| 0 <= k < s.push(p).len() && s.push(p)[k] == q;
        if k < s.len() {
            assert(s[k] == q);
        }
    }
    assert forall|q: Position| #[trigger] s.to_set().insert(p).contains(q) implies s.push(
        p,
    ).to_set().contains(q) by {
        if q == p {
            assert(s.push(p)[s.len() as int] == q);
        } else {
            let k = choose|k: int| 0 <= k < s.len() && s[k] == q;
            assert(s.push(p)[k] == q);
        }
    }
    assert(s.push(p).to_set() =~= s.to_set().insert(p));
}

proof fn lemma_stuck(p: Position, d: Direction, k: nat)
    requires
        p.shifted(d) == p,
    ensures
        after_steps(p, d, k) == p,
    decreases k,
{
    if k > 0 {
        lemma_stuck(p, d, (k - 1) as nat);
    }
}

/// A unit step that would take the robot out of the field leaves it where it
/// is, and still counts as a visit to that cell: a command whose steps all
/// push against the edge cleans exactly the cell the robot stands on.
pub proof fn lemma_clamped_steps(p: Position, d: Direction, steps: i32)
    requires
        !(in_field(p.x + d.offset().x) && in_field(p.y + d.offset().y)),
        steps >= 1,
    ensures
        p.shifted(d) == p,
        cleaned_cells(p, seq![Command { direction: d, steps: steps }]) == set![p],
{
    let cmds = seq![Command { direction: d, steps: steps }];
    assert(cmds.drop_last() =~= Seq::empty());
    assert(trail(p, cmds.drop_last()) =~= Seq::empty());
    let t = steps_trail(p, d, steps as nat);
    assert(trail(p, cmds) =~= t);
    assert forall|k: int| 0 <= k < t.len() implies t[k] == p by {
        lemma_stuck(p, d, (k + 1) as nat);
    }
    assert(t[0] == p);
    assert(t.to_set() =~= set![p]);
}

/// The number that stands for cell `p`.
fn key_of(p: Position) -> (k: u64)
    ensures
        k == cell_key(p),
{
    let hi = (p.x as i64 + 0x8000_0000) as u64;
    let lo = (p.y as i64 + 0x8000_0000) as u64;
    assert(hi * 0x1_0000_0000 + lo <= u64::MAX) by (nonlinear_arith)
        requires
            hi < 0x1_0000_0000,
            lo < 0x1_0000_0000,
    ;
    hi * 0x1_0000_0000 + lo
}

/// Walks the robot from `start` through `commands` and counts the distinct
/// cells it cleans on the way.
pub fn count_cleaned(start: Position, commands: &Vec<Command>) -> (r: u64)
    ensures
        r == cleaned_cells(start, commands@).len(),
{
    let mut position = start;
    let mut cleaned: HashSet<u64> = HashSet::new();
    let ghost mut visited: Seq<Position> = Seq::empty();
    let mut i: usize = 0;
    while i < commands.len()
        invariant
            0 <= i <= commands.len(),
            position == end_position(start, commands@.take(i as int)),
            visited == trail(start, commands@.take(i as int)),
            cleaned@ == cell_keys(visited.to_set()),
        decreases commands.len() - i,
    {
        let command = commands[i];
        let ghost base = position;
        let ghost prefix = visited;
        assert(prefix =~= prefix + steps_trail(base, command.direction, 0));
        let mut j: i32 = 0;
        while j < command.steps
            invariant
                0 <= j,
                j as int <= command.step_count(),
                position == after_steps(base, command.direction, j as nat),
                visited == prefix + steps_trail(base, command.direction, j as nat),
                cleaned@ == cell_keys(visited.to_set()),
            decreases command.steps - j,
        {
            let ghost before = position;
            position = position.shift(&command.direction);
            cleaned.insert(key_of(position));
            proof {
                assert(after_steps(base, command.direction, (j + 1) as nat) == before.shifted(
                    command.direction,
                ));
                assert(prefix + steps_trail(base, command.direction, (j + 1) as nat)
                    =~= visited.push(position));
                lemma_push_to_set(visited, position);
                visited.to_set().lemma_set_map_insert_commute(position, |p: Position| cell_key(p));
                visited = visited.push(position);
            }
            j += 1;
        }
        proof {
            let next = commands@.take(i + 1);
            assert(next.drop_last() =~= commands@.take(i as int));
            assert(next.last() == command);
        }
        i += 1;
    }
    proof {
        assert(commands@.take(commands@.len() as int) =~= commands@);
        let g = |p: Position| cell_key(p);
        assert forall|p: Position, q: Position|
            visited.to_set().contains(p) && visited.to_set().contains(q) && #[trigger] g(p)
                == #[trigger] g(q) implies p == q by {
            lemma_cell_key_injective(p, q);
        }
        assert(injective_on(g, visited.to_set()));
        lemma_map_size(visited.to_set(), cleaned@, g);
    }
    cleaned.len() as u64
}

} // verus!
