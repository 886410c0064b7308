//! The settings that move along a row of steps.

use vstd::prelude::*;

use crate::text::push_decimal;

verus! {

/// The steps of the scrollback limit, in lines.
pub open spec fn scrollback_steps() -> Seq<int> {
    seq![1_000, 5_000, 10_000, 25_000, 50_000, 100_000]
}

/// The steps of the shortest command worth a notification, in seconds.
pub open spec fn notify_steps() -> Seq<int> {
    seq![5, 10, 30, 60, 120, 300]
}

/// How far `a` and `b` lie apart.
pub open spec fn distance(a: int, b: int) -> int {
    if a >= b {
        a - b
    } else {
        b - a
    }
}

/// `i` is the first step nearest to `x`.
pub open spec fn is_nearest(steps: Seq<int>, x: int, i: int) -> bool {
    &&& 0 <= i < steps.len()
    &&& forall|j: int|
        0 <= j < steps.len() ==> distance(steps[i], x) <= distance(#[trigger] steps[j], x)
    &&& forall|j: int| 0 <= j < i ==> distance(steps[i], x) < distance(#[trigger] steps[j], x)
}

/// The neighbour of step `i` in a row of six that wraps around.
pub open spec fn neighbour(i: int, forward: bool) -> int {
    if forward {
        (i + 1) % 6
    } else {
        (i + 5) % 6
    }
}

fn apart(a: u64, b: u64) -> (r: u64)
    ensures
        r == distance(a as int, b as int),
{
    if a >= b {
        a - b
    } else {
        b - a
    }
}

fn nearest(steps: &Vec<u64>, x: u64) -> (r: usize)
    requires
        steps@.len() == 6,
    ensures
        is_nearest(steps@.map_values(|s: u64| s as int), x as int, r as int),
{
    let ghost s = steps@.map_values(|s: u64| s as int);
    let mut best: usize = 0;
    let mut i: usize = 1;
    while i < steps.len()
        invariant
            steps@.len() == 6,
            s == steps@.map_values(|s: u64| s as int),
            0 <= best < i <= 6,
            forall|j: int|
                0 <= j < i ==> distance(s[best as int], x as int) <= distance(#[trigger] s[j], x as int),
            forall|j: int|
                0 <= j < best ==> distance(s[best as int], x as int) < distance(
                    #[trigger] s[j],
                    x as int,
                ),
        decreases 6 - i,
    {
        assert(s[i as int] == steps@[i as int] && s[best as int] == steps@[best as int]);
        if apart(steps[i], x) < apart(steps[best], x) {
            best = i;
        }
        i = i + 1;
    }
    best
}

fn step(steps: &Vec<u64>, cur: u64, forward: bool) -> (r: u64)
    requires
        steps@.len() == 6,
    ensures
        ({
            let s = steps@.map_values(|s: u64| s as int);
            exists|i: int| is_nearest(s, cur as int, i) && r == #[trigger] s[neighbour(i, forward)]
        }),
{
    let ghost s = steps@.map_values(|s: u64| s as int);
    let i: usize = nearest(steps, cur);
    let j: usize = if forward {
        (i + 1) % 6
    } else {
        (i + 5) % 6
    };
    proof {
        assert(s[neighbour(i as int, forward)] == steps@[j as int]);
        assert(is_nearest(s, cur as int, i as int));
    }
    steps[j]
}

/// The step next to the one nearest to `cur`; the row wraps around.
pub open spec fn is_cycled(steps: Seq<int>, cur: int, forward: bool, r: int) -> bool {
    exists|i: int| is_nearest(steps, cur, i) && r == #[trigger] steps[neighbour(i, forward)]
}

/// The next or previous scrollback limit. A value between the steps first
/// snaps to the nearest one.
pub fn cycle_scrollback(cur: usize, forward: bool) -> (r: usize)
    ensures
        is_cycled(scrollback_steps(), cur as int, forward, r as int),
{
    let mut steps: Vec<u64> = Vec::new();
    steps.push(1_000);
    steps.push(5_000);
    steps.push(10_000);
    steps.push(25_000);
    steps.push(50_000);
    steps.push(100_000);
    assert(steps@.map_values(|s: u64| s as int) =~= scrollback_steps());
    let r: u64 = step(&steps, cur as u64, forward);
    r as usize
}

/// The next or previous notification threshold. A value between the steps
/// first snaps to the nearest one.
pub fn cycle_notify_min(cur: u64, forward: bool) -> (r: u64)
    ensures
        is_cycled(notify_steps(), cur as int, forward, r as int),
{
    let mut steps: Vec<u64> = Vec::new();
    steps.push(5);
    steps.push(10);
    steps.push(30);
    steps.push(60);
    steps.push(120);
    steps.push(300);
    assert(steps@.map_values(|s: u64| s as int) =~= notify_steps());
    step(&steps, cur, forward)
}

/// Two nearest steps are the same one.
proof fn lemma_nearest_unique(steps: Seq<int>, x: int, i: int, j: int)
    requires
        is_nearest(steps, x, i),
        is_nearest(steps, x, j),
    ensures
        i == j,
{
    if i < j {
        assert(distance(steps[j], x) < distance(steps[i], x));
    }
    if j < i {
        assert(distance(steps[i], x) < distance(steps[j], x));
    }
}

/// What the cycler returns is always one of the steps.
pub proof fn law_cycle_lands_on_a_step(steps: Seq<int>, cur: int, forward: bool, r: int)
    requires
        steps.len() == 6,
        is_cycled(steps, cur, forward, r),
    ensures
        steps.contains(r),
{
    let i = choose|i: int| is_nearest(steps, cur, i) && r == #[trigger] steps[neighbour(i, forward)];
    assert(steps[neighbour(i, forward)] == r);
}

/// From a step, one click forward and one back, in either order, return to it.
pub proof fn law_cycle_inverse(steps: Seq<int>, k: int, forward: bool, there: int, back: int)
    requires
        steps.len() == 6,
        forall|i: int, j: int| 0 <= i < j < 6 ==> steps[i] < steps[j],
        0 <= k < 6,
        is_cycled(steps, steps[k], forward, there),
        is_cycled(steps, there, !forward, back),
    ensures
        back == steps[k],
{
    lemma_step_is_nearest(steps, k);
    let i = choose|i: int|
        is_nearest(steps, steps[k], i) && there == #[trigger] steps[neighbour(i, forward)];
    lemma_nearest_unique(steps, steps[k], i, k);
    let m = neighbour(k, forward);
    lemma_step_is_nearest(steps, m);
    let other = !forward;
    let j = choose|j: int|
        is_nearest(steps, there, j) && back == #[trigger] steps[neighbour(j, other)];
    lemma_nearest_unique(steps, there, j, m);
    assert(neighbour(m, !forward) == k);
}

/// The rows of steps ascend.
pub proof fn law_steps_ascend()
    ensures
        scrollback_steps().len() == 6,
        notify_steps().len() == 6,
        forall|i: int, j: int| 0 <= i < j < 6 ==> scrollback_steps()[i] < scrollback_steps()[j],
        forall|i: int, j: int| 0 <= i < j < 6 ==> notify_steps()[i] < notify_steps()[j],
{
}

proof fn lemma_step_is_nearest(steps: Seq<int>, k: int)
    requires
        steps.len() == 6,
        forall|i: int, j: int| 0 <= i < j < 6 ==> steps[i] < steps[j],
        0 <= k < 6,
    ensures
        is_nearest(steps, steps[k], k),
{
}

/// Whole thousands are written as "Nk", every other number as it is.
pub open spec fn scrollback_text(n: int) -> Seq<char> {
    if n >= 1000 && n % 1000 == 0 {
        crate::text::decimal((n / 1000) as nat).push('k')
    } else {
        crate::text::decimal(n as nat)
    }
}

/// Writes a scrollback limit for the settings panel.
pub fn format_scrollback(n: usize) -> (r: String)
    ensures
        r@ == scrollback_text(n as int),
{
    let mut s: String = String::new();
    if n >= 1000 && n % 1000 == 0 {
        push_decimal(&mut s, (n / 1000) as u64);
        s.push('k');
    } else {
        push_decimal(&mut s, n as u64);
    }
    proof {
        assert(s@ =~= scrollback_text(n as int));
    }
    s
}

/// The steps that are offered: of the scrollback from a thousand to a hundred
/// thousand lines, of the shortest run from five seconds to five minutes.
pub proof fn law_offered_steps(k: int)
    ensures
        scrollback_steps()[0] == 1_000 && scrollback_steps()[1] == 5_000 && scrollback_steps()[2]
            == 10_000 && scrollback_steps()[3] == 25_000 && scrollback_steps()[4] == 50_000
            && scrollback_steps()[5] == 100_000,
        notify_steps()[0] == 5 && notify_steps()[1] == 10 && notify_steps()[2] == 30
            && notify_steps()[3] == 60 && notify_steps()[4] == 120 && notify_steps()[5] == 300,
        0 <= k < 6 ==> crate::config::SCROLLBACK_MIN <= scrollback_steps()[k]
            <= crate::config::SCROLLBACK_MAX,
        0 <= k < 6 ==> 1 <= notify_steps()[k] <= crate::config::NOTIFY_MAX_SECONDS,
{
}

/// From a step the next one follows and the one before precedes, round at both
/// ends.
pub proof fn law_step_goes_to_the_neighbour(steps: Seq<int>, k: int, forward: bool, r: int)
    requires
        steps.len() == 6,
        forall|i: int, j: int| 0 <= i < j < 6 ==> steps[i] < steps[j],
        0 <= k < 6,
        is_cycled(steps, steps[k], forward, r),
    ensures
        forward && k < 5 ==> r == steps[k + 1],
        forward && k == 5 ==> r == steps[0],
        !forward && k > 0 ==> r == steps[k - 1],
        !forward && k == 0 ==> r == steps[5],
{
    let i = choose|i: int|
        is_nearest(steps, steps[k], i) && r == #[trigger] steps[neighbour(i, forward)];
    lemma_step_is_nearest(steps, k);
    lemma_nearest_unique(steps, steps[k], i, k);
}

/// The nearest step is no further away than any other, and of two as near it is
/// the first.
pub proof fn law_nearest_step(steps: Seq<int>, x: int, i: int, j: int)
    requires
        is_nearest(steps, x, i),
        0 <= j < steps.len(),
    ensures
        steps[i] <= x <= steps[j] ==> x - steps[i] <= steps[j] - x,
        steps[j] <= x <= steps[i] ==> steps[i] - x <= x - steps[j],
        x <= steps[i] && x <= steps[j] ==> steps[i] <= steps[j],
        steps[i] <= x && steps[j] <= x ==> steps[j] <= steps[i],
        j < i && steps[j] <= x <= steps[i] ==> steps[i] - x < x - steps[j],
        0 <= i < steps.len(),
{
    assert(distance(steps[i], x) <= distance(steps[j], x));
    if j < i {
        assert(distance(steps[i], x) < distance(steps[j], x));
    }
}

/// Whole thousands of lines are written in thousands, anything else in full.
pub proof fn law_thousands_are_short(k: int, n: int)
    requires
        k > 0,
        n >= 0,
    ensures
        scrollback_text(1000 * k) == crate::text::decimal(k as nat).push('k'),
        n < 1000 || n % 1000 != 0 ==> scrollback_text(n) == crate::text::decimal(n as nat),
{
}

} // verus!
