//! The level-script reader.
//!
//! A script is line oriented: `type,x,y` spawns an enemy archetype at
//! a position, `delay,seconds` pauses execution.  Coordinates are
//! fixed-point decimals; the exact coordinate `-1.0` asks the shell to
//! randomize within the viewport.  Malformed lines and unknown
//! archetype names are skipped rather than failing the feed.

use vstd::prelude::*;
use crate::timer::CountdownTimer;

verus! {

/// An enemy archetype a script line can spawn.
#[derive(Clone, Copy, PartialEq, Eq, Structural, Debug)]
pub enum Archetype {
    Picket,
    Drone,
    Speedy,
    Lunker,
    MineLayer,
    Rammer,
    Turret,
    Boss,
}

/// One parsed script line.
#[derive(Clone, Copy, PartialEq, Eq, Structural, Debug)]
pub enum ScriptCommand {
    /// Pause script execution for the given fixed-point seconds.
    Delay { seconds: i64 },
    /// Spawn an archetype at `(x, y)`; a coordinate of exactly `-1.0`
    /// (`-1000` in fixed point) asks for a randomized coordinate.
    Spawn { archetype: Archetype, x: i64, y: i64 },
}

/// An ASCII decimal digit.
pub open spec fn is_digit(c: u8) -> bool {
    48 <= c <= 57
}

pub open spec fn all_digits(s: Seq<u8>) -> bool {
    forall|i: int| 0 <= i < s.len() ==> is_digit(#[trigger] s[i])
}

/// The value of a digit string.
pub open spec fn digits_val(s: Seq<u8>) -> int
    decreases s.len(),
{
    if s.len() == 0 {
        0
    } else {
        digits_val(s.drop_last()) * 10 + (s.last() - 48)
    }
}

pub open spec fn pow10(n: nat) -> int
    decreases n,
{
    if n == 0 {
        1
    } else {
        10 * pow10((n - 1) as nat)
    }
}

pub proof fn lemma_digits_val_bound(s: Seq<u8>)
    requires
        all_digits(s),
    ensures
        0 <= digits_val(s) < pow10(s.len()),
    decreases s.len(),
{
    if s.len() > 0 {
        assert forall|i: int| 0 <= i < s.drop_last().len() implies is_digit(
            #[trigger] s.drop_last()[i],
        ) by {
            assert(s.drop_last()[i] == s[i]);
        }
        lemma_digits_val_bound(s.drop_last());
        assert(s.last() == s[s.len() - 1]);
    }
}

pub proof fn lemma_pow10_pos(a: nat)
    ensures
        pow10(a) >= 1,
    decreases a,
{
    if a > 0 {
        lemma_pow10_pos((a - 1) as nat);
    }
}

pub proof fn lemma_pow10_le(a: nat, b: nat)
    requires
        a <= b,
    ensures
        pow10(a) <= pow10(b),
        pow10(a) >= 1,
    decreases b,
{
    lemma_pow10_pos(a);
    if b > 0 && a < b {
        lemma_pow10_le(a, (b - 1) as nat);
        lemma_pow10_pos((b - 1) as nat);
    }
}

/// `pow10` of twelve, written out for the parser's bounds.
pub proof fn lemma_pow10_twelve()
    ensures
        pow10(12) == 1_000_000_000_000,
{
    assert(pow10(0) == 1);
    assert(pow10(1) == 10);
    assert(pow10(2) == 100);
    assert(pow10(3) == 1000);
    assert(pow10(4) == 10000);
    assert(pow10(5) == 100000);
    assert(pow10(6) == 1000000);
    assert(pow10(7) == 10000000);
    assert(pow10(8) == 100000000);
    assert(pow10(9) == 1000000000);
    assert(pow10(10) == 10000000000);
    assert(pow10(11) == 100000000000);
    assert(pow10(12) == 1000000000000);
}

/// The index of the first comma at or after `i`, or the length.
pub open spec fn first_comma_from(s: Seq<u8>, i: int) -> int
    recommends
        0 <= i <= s.len(),
    decreases s.len() - i,
{
    if i >= s.len() {
        s.len() as int
    } else if s[i] == 44 {
        i
    } else {
        first_comma_from(s, i + 1)
    }
}

proof fn lemma_first_comma_range(s: Seq<u8>, i: int)
    requires
        0 <= i <= s.len(),
    ensures
        i <= first_comma_from(s, i) <= s.len(),
    decreases s.len() - i,
{
    if i < s.len() && s[i] != 44 {
        lemma_first_comma_range(s, i + 1);
    }
}

/// Find the first comma at or after `from`.
fn find_comma(line: &[u8], from: usize) -> (r: usize)
    requires
        from <= line.len(),
    ensures
        r == first_comma_from(line@, from as int),
        from <= r <= line.len(),
{
    let n = line.len();
    let mut i: usize = from;
    while i < n
        invariant
            from <= i <= n,
            n == line.len(),
            first_comma_from(line@, from as int) == first_comma_from(line@, i as int),
        decreases n - i,
    {
        if line[i] == 44 {
            return i;
        }
        i = i + 1;
    }
    i
}

/// The value of a digit field, when it is 1 to 12 digits.
pub open spec fn parse_digits_s(s: Seq<u8>) -> Option<int> {
    if 1 <= s.len() <= 12 && all_digits(s) {
        Option::Some(digits_val(s))
    } else {
        Option::None
    }
}

/// Parse a digit field of the line.
fn parse_digits(line: &[u8], start: usize, end: usize) -> (r: Option<i64>)
    requires
        start <= end <= line.len(),
    ensures
        match r {
            Option::Some(v) => parse_digits_s(line@.subrange(start as int, end as int))
                == Option::Some(v as int) && 0 <= v < 1_000_000_000_000,
            Option::None => parse_digits_s(line@.subrange(start as int, end as int)) is None,
        },
{
    let len = end - start;
    if len < 1 || len > 12 {
        return Option::None;
    }
    let ghost whole = line@.subrange(start as int, end as int);
    let mut acc: i64 = 0;
    let mut i: usize = start;
    while i < end
        invariant
            start <= i <= end <= line.len(),
            end - start <= 12,
            whole == line@.subrange(start as int, end as int),
            all_digits(line@.subrange(start as int, i as int)),
            acc == digits_val(line@.subrange(start as int, i as int)),
            0 <= acc < 1_000_000_000_000,
        decreases end - i,
    {
        let c = line[i];
        if c < 48 || c > 57 {
            proof {
                assert(whole[i - start] == line@[i as int]);
                assert(!is_digit(whole[i - start]));
            }
            return Option::None;
        }
        proof {
            let pref = line@.subrange(start as int, i as int);
            let pref2 = line@.subrange(start as int, i + 1);
            assert(pref2.drop_last() =~= pref);
            assert(pref2.last() == line@[i as int]);
            lemma_digits_val_bound(pref);
            lemma_pow10_le(pref.len(), 11);
            lemma_pow10_twelve();
            assert(pow10(11) == 100_000_000_000);
        }
        acc = acc * 10 + ((c - 48) as i64);
        i = i + 1;
    }
    proof {
        assert(line@.subrange(start as int, end as int) =~= line@.subrange(
            start as int,
            i as int,
        ));
    }
    Option::Some(acc)
}

/// The fixed-point value of a decimal field: an optional minus sign,
/// one to twelve integer digits, and optionally a point with at least
/// one fraction digit, of which the first three carry value.
pub open spec fn parse_fixed_s(s: Seq<u8>) -> Option<int> {
    let neg = s.len() > 0 && s[0] == 45;
    let body = if neg {
        s.subrange(1, s.len() as int)
    } else {
        s
    };
    let dot = first_comma_like(body, 46);
    let int_part = body.subrange(0, dot);
    let magnitude = if dot == body.len() {
        match parse_digits_s(int_part) {
            Option::Some(v) => Option::Some(v * 1000),
            Option::None => Option::None::<int>,
        }
    } else {
        let frac = body.subrange(dot + 1, body.len() as int);
        match (parse_digits_s(int_part), parse_digits_s(frac_head(frac))) {
            (Option::Some(v), Option::Some(f)) => Option::Some(
                v * 1000 + f * frac_scale(frac_head(frac).len()),
            ),
            _ => Option::None,
        }
    };
    match magnitude {
        Option::Some(v) => Option::Some(
            if neg {
                -v
            } else {
                v
            },
        ),
        Option::None => Option::None,
    }
}

/// The first three fraction digits.
pub open spec fn frac_head(s: Seq<u8>) -> Seq<u8> {
    if s.len() <= 3 {
        s
    } else {
        s.subrange(0, 3)
    }
}

/// What one fraction digit at this count is worth, in thousandths.
pub open spec fn frac_scale(n: nat) -> int {
    if n == 1 {
        100
    } else if n == 2 {
        10
    } else {
        1
    }
}

/// The index of the first occurrence of `c` in `s`, or the length.
pub open spec fn first_comma_like(s: Seq<u8>, c: u8) -> int {
    first_char_from(s, c, 0)
}

pub open spec fn first_char_from(s: Seq<u8>, c: u8, i: int) -> int
    recommends
        0 <= i <= s.len(),
    decreases s.len() - i,
{
    if i >= s.len() {
        s.len() as int
    } else if s[i] == c {
        i
    } else {
        first_char_from(s, c, i + 1)
    }
}

proof fn lemma_first_char_range(s: Seq<u8>, c: u8, i: int)
    requires
        0 <= i <= s.len(),
    ensures
        i <= first_char_from(s, c, i) <= s.len(),
    decreases s.len() - i,
{
    if i < s.len() && s[i] != c {
        lemma_first_char_range(s, c, i + 1);
    }
}

/// Find the first occurrence of `c` within `[start, end)` of the line,
/// relative to `start`; `end - start` if absent.
fn find_char_in(line: &[u8], start: usize, end: usize, c: u8) -> (r: usize)
    requires
        start <= end <= line.len(),
    ensures
        r == first_comma_like(line@.subrange(start as int, end as int), c),
        r <= end - start,
{
    let ghost body = line@.subrange(start as int, end as int);
    let mut i: usize = 0;
    while start + i < end
        invariant
            start <= end <= line.len(),
            i <= end - start,
            body == line@.subrange(start as int, end as int),
            first_char_from(body, c, 0) == first_char_from(body, c, i as int),
        decreases end - start - i,
    {
        proof {
            assert(body[i as int] == line@[start + i]);
        }
        if line[start + i] == c {
            return i;
        }
        i = i + 1;
    }
    i
}

/// Parse a fixed-point decimal field of the line.
pub fn parse_fixed(line: &[u8], start: usize, end: usize) -> (r: Option<i64>)
    requires
        start <= end <= line.len(),
    ensures
        match r {
            Option::Some(v) => parse_fixed_s(line@.subrange(start as int, end as int))
                == Option::Some(v as int),
            Option::None => parse_fixed_s(line@.subrange(start as int, end as int)) is None,
        },
{
    let ghost s = line@.subrange(start as int, end as int);
    let neg: bool = start < end && line[start] == 45;
    let bstart: usize = if neg {
        start + 1
    } else {
        start
    };
    let ghost body = line@.subrange(bstart as int, end as int);
    proof {
        if neg {
            assert(s.subrange(1, s.len() as int) =~= body);
        } else {
            assert(s =~= body);
        }
    }
    let dot = find_char_in(line, bstart, end, 46);
    proof {
        lemma_first_char_range(body, 46, 0);
        assert(body.subrange(0, dot as int) =~= line@.subrange(
            bstart as int,
            bstart + dot,
        ));
    }
    let vint = match parse_digits(line, bstart, bstart + dot) {
        Option::Some(v) => v,
        Option::None => {
            return Option::None;
        },
    };
    if bstart + dot == end {
        return Option::Some(
            if neg {
                -(vint * 1000)
            } else {
                vint * 1000
            },
        );
    }
    let fstart = bstart + dot + 1;
    let flen = end - fstart;
    let fhead_end: usize = if flen <= 3 {
        end
    } else {
        fstart + 3
    };
    proof {
        let frac = body.subrange(dot + 1, body.len() as int);
        assert(frac =~= line@.subrange(fstart as int, end as int));
        assert(frac_head(frac) =~= line@.subrange(fstart as int, fhead_end as int));
    }
    let f = match parse_digits(line, fstart, fhead_end) {
        Option::Some(f) => f,
        Option::None => {
            return Option::None;
        },
    };
    let scale: i64 = if fhead_end - fstart == 1 {
        100
    } else if fhead_end - fstart == 2 {
        10
    } else {
        1
    };
    let v = vint * 1000 + f * scale;
    Option::Some(
        if neg {
            -v
        } else {
            v
        },
    )
}

/// The archetype a field names, if any.
pub open spec fn archetype_of_s(s: Seq<u8>) -> Option<Archetype> {
    if s =~= seq![112u8, 105u8, 99u8, 107u8, 101u8, 116u8] {
        Option::Some(Archetype::Picket)
    } else if s =~= seq![100u8, 114u8, 111u8, 110u8, 101u8] {
        Option::Some(Archetype::Drone)
    } else if s =~= seq![115u8, 112u8, 101u8, 101u8, 100u8, 121u8] {
        Option::Some(Archetype::Speedy)
    } else if s =~= seq![108u8, 117u8, 110u8, 107u8, 101u8, 114u8] {
        Option::Some(Archetype::Lunker)
    } else if s =~= seq![109u8, 105u8, 110u8, 101u8, 95u8, 108u8, 97u8, 121u8, 101u8, 114u8] {
        Option::Some(Archetype::MineLayer)
    } else if s =~= seq![114u8, 97u8, 109u8, 109u8, 101u8, 114u8] {
        Option::Some(Archetype::Rammer)
    } else if s =~= seq![116u8, 117u8, 114u8, 114u8, 101u8, 116u8] {
        Option::Some(Archetype::Turret)
    } else if s =~= seq![98u8, 111u8, 115u8, 115u8] {
        Option::Some(Archetype::Boss)
    } else {
        Option::None
    }
}

/// The field names the delay command.
pub open spec fn is_delay_s(s: Seq<u8>) -> bool {
    s =~= seq![100u8, 101u8, 108u8, 97u8, 121u8]
}

/// Whether the line's field `[start, end)` equals the given word,
/// handed as its byte values.
fn field_is(line: &[u8], start: usize, end: usize, w0: u8, w1: u8, w2: u8, w3: u8, w4: u8) -> (r:
    bool)
    requires
        start <= end <= line.len(),
    ensures
        r == (line@.subrange(start as int, end as int) =~= seq![w0, w1, w2, w3, w4]),
{
    if end - start != 5 {
        return false;
    }
    let r = line[start] == w0 && line[start + 1] == w1 && line[start + 2] == w2 && line[start + 3]
        == w3 && line[start + 4] == w4;
    proof {
        let s = line@.subrange(start as int, end as int);
        assert(s.len() == 5);
        assert(s[0] == line@[start as int]);
        assert(s[1] == line@[start as int + 1]);
        assert(s[2] == line@[start as int + 2]);
        assert(s[3] == line@[start as int + 3]);
        assert(s[4] == line@[start as int + 4]);
    }
    r
}

/// Identify the archetype field by explicit byte comparison.
fn field_archetype(line: &[u8], start: usize, end: usize) -> (r: Option<Archetype>)
    requires
        start <= end <= line.len(),
    ensures
        r == archetype_of_s(line@.subrange(start as int, end as int)),
{
    let len = end - start;
    let ghost s = line@.subrange(start as int, end as int);
    proof {
        assert(forall|i: int| 0 <= i < s.len() ==> #[trigger] s[i] == line@[start + i]);
    }
    if len == 6 && line[start] == 112 && line[start + 1] == 105 && line[start + 2] == 99
        && line[start + 3] == 107 && line[start + 4] == 101 && line[start + 5] == 116 {
        Option::Some(Archetype::Picket)
    } else if len == 5 && line[start] == 100 && line[start + 1] == 114 && line[start + 2] == 111
        && line[start + 3] == 110 && line[start + 4] == 101 {
        Option::Some(Archetype::Drone)
    } else if len == 6 && line[start] == 115 && line[start + 1] == 112 && line[start + 2] == 101
        && line[start + 3] == 101 && line[start + 4] == 100 && line[start + 5] == 121 {
        Option::Some(Archetype::Speedy)
    } else if len == 6 && line[start] == 108 && line[start + 1] == 117 && line[start + 2] == 110
        && line[start + 3] == 107 && line[start + 4] == 101 && line[start + 5] == 114 {
        Option::Some(Archetype::Lunker)
    } else if len == 10 && line[start] == 109 && line[start + 1] == 105 && line[start + 2] == 110
        && line[start + 3] == 101 && line[start + 4] == 95 && line[start + 5] == 108 && line[start
        + 6] == 97 && line[start + 7] == 121 && line[start + 8] == 101 && line[start + 9] == 114 {
        Option::Some(Archetype::MineLayer)
    } else if len == 6 && line[start] == 114 && line[start + 1] == 97 && line[start + 2] == 109
        && line[start + 3] == 109 && line[start + 4] == 101 && line[start + 5] == 114 {
        Option::Some(Archetype::Rammer)
    } else if len == 6 && line[start] == 116 && line[start + 1] == 117 && line[start + 2] == 114
        && line[start + 3] == 114 && line[start + 4] == 101 && line[start + 5] == 116 {
        Option::Some(Archetype::Turret)
    } else if len == 4 && line[start] == 98 && line[start + 1] == 111 && line[start + 2] == 115
        && line[start + 3] == 115 {
        Option::Some(Archetype::Boss)
    } else {
        Option::None
    }
}

/// The meaning of one script line.
pub open spec fn parse_line_s(s: Seq<u8>) -> Option<ScriptCommand> {
    let c1 = first_comma_from(s, 0);
    if c1 == s.len() {
        Option::None
    } else {
        let f1 = s.subrange(0, c1);
        let c2 = first_comma_from(s, c1 + 1);
        if is_delay_s(f1) {
            match parse_fixed_s(s.subrange(c1 + 1, c2)) {
                Option::Some(v) => if 0 <= v <= crate::timer::DURATION_LIMIT {
                    Option::Some(ScriptCommand::Delay { seconds: v as i64 })
                } else {
                    Option::None
                },
                Option::None => Option::None,
            }
        } else {
            match archetype_of_s(f1) {
                Option::Some(a) => {
                    if c2 == s.len() {
                        Option::None
                    } else {
                        let c3 = first_comma_from(s, c2 + 1);
                        match (
                            parse_fixed_s(s.subrange(c1 + 1, c2)),
                            parse_fixed_s(s.subrange(c2 + 1, c3)),
                        ) {
                            (Option::Some(x), Option::Some(y)) => Option::Some(
                                ScriptCommand::Spawn { archetype: a, x: x as i64, y: y as i64 },
                            ),
                            _ => Option::None,
                        }
                    }
                },
                Option::None => Option::None,
            }
        }
    }
}

/// Parse one script line.
pub fn parse_script_line(line: &[u8]) -> (r: Option<ScriptCommand>)
    ensures
        r == parse_line_s(line@),
{
    proof {
        lemma_first_comma_range(line@, 0);
    }
    let c1 = find_comma(line, 0);
    if c1 == line.len() {
        return Option::None;
    }
    proof {
        lemma_first_comma_range(line@, c1 + 1);
        assert(line@.subrange(0, c1 as int) =~= line@.subrange(0, c1 as int));
    }
    let c2 = find_comma(line, c1 + 1);
    if field_is(line, 0, c1, 100, 101, 108, 97, 121) {
        match parse_fixed(line, c1 + 1, c2) {
            Option::Some(v) => {
                if 0 <= v && v <= crate::timer::DURATION_LIMIT {
                    Option::Some(ScriptCommand::Delay { seconds: v })
                } else {
                    Option::None
                }
            },
            Option::None => Option::None,
        }
    } else {
        match field_archetype(line, 0, c1) {
            Option::Some(a) => {
                if c2 == line.len() {
                    Option::None
                } else {
                    proof {
                        lemma_first_comma_range(line@, c2 + 1);
                    }
                    let c3 = find_comma(line, c2 + 1);
                    let x = match parse_fixed(line, c1 + 1, c2) {
                        Option::Some(x) => x,
                        Option::None => {
                            return Option::None;
                        },
                    };
                    let y = match parse_fixed(line, c2 + 1, c3) {
                        Option::Some(y) => y,
                        Option::None => {
                            return Option::None;
                        },
                    };
                    Option::Some(ScriptCommand::Spawn { archetype: a, x, y })
                }
            },
            Option::None => Option::None,
        }
    }
}

/// Whether a parsed coordinate asks to be randomized: the script's
/// `-1.0` marker.
pub fn wants_random(v: i64) -> (r: bool)
    ensures
        r == (v == -1000),
{
    v == -1000
}

/// The reader's cursor into a script: the next line to execute and
/// the running delay.
pub struct ScriptState {
    pub line_num: usize,
    pub delay: CountdownTimer,
}

/// The spawn commands one sweep collects, reading lines from `i`
/// until the first delay line (malformed lines are skipped).
pub open spec fn sweep_spawns(lines: Seq<Vec<u8>>, i: int) -> Seq<ScriptCommand>
    recommends
        0 <= i <= lines.len(),
    decreases lines.len() - i,
{
    if i < 0 || i >= lines.len() {
        Seq::empty()
    } else {
        match parse_line_s(lines[i]@) {
            Option::Some(ScriptCommand::Delay { seconds }) => Seq::empty(),
            Option::Some(cmd) => seq![cmd] + sweep_spawns(lines, i + 1),
            Option::None => sweep_spawns(lines, i + 1),
        }
    }
}

/// Where one sweep leaves the cursor: just past the first delay line,
/// or past the end.
pub open spec fn sweep_end(lines: Seq<Vec<u8>>, i: int) -> int
    recommends
        0 <= i <= lines.len(),
    decreases lines.len() - i,
{
    if i < 0 || i >= lines.len() {
        lines.len() as int
    } else {
        match parse_line_s(lines[i]@) {
            Option::Some(ScriptCommand::Delay { seconds }) => i + 1,
            _ => sweep_end(lines, i + 1),
        }
    }
}

/// The delay the sweep stops on, if any.
pub open spec fn sweep_delay(lines: Seq<Vec<u8>>, i: int) -> Option<i64>
    recommends
        0 <= i <= lines.len(),
    decreases lines.len() - i,
{
    if i < 0 || i >= lines.len() {
        Option::None
    } else {
        match parse_line_s(lines[i]@) {
            Option::Some(ScriptCommand::Delay { seconds }) => Option::Some(seconds),
            _ => sweep_delay(lines, i + 1),
        }
    }
}

/// One execution step of the script reader.  While the delay timer
/// runs, nothing happens.  Once it expires, lines are executed from
/// the cursor onward: spawn lines are collected and returned in
/// order, malformed lines are skipped, and the first delay line sets
/// the timer and stops the sweep until it runs out again.
pub fn read_script_system(lines: &Vec<Vec<u8>>, state: &mut ScriptState) -> (spawns: Vec<
    ScriptCommand,
>)
    requires
        old(state).delay.wf(),
        old(state).line_num <= lines.len(),
    ensures
        final(state).delay.wf(),
        old(state).line_num <= final(state).line_num <= lines.len(),
        !old(state).delay.spec_expired() ==> *final(state) == *old(state) && spawns.len() == 0,
        old(state).delay.spec_expired() ==> ({
            &&& spawns@ == sweep_spawns(lines@, old(state).line_num as int)
            &&& final(state).line_num == sweep_end(lines@, old(state).line_num as int)
            &&& final(state).delay == match sweep_delay(lines@, old(state).line_num as int) {
                Option::Some(sec) => CountdownTimer { duration: sec, remaining: sec },
                Option::None => old(state).delay,
            }
        }),
        forall|q: int|
            0 <= q < spawns.len() ==> (#[trigger] spawns[q]) matches ScriptCommand::Spawn { .. },
{
    if !state.delay.is_expired() {
        return Vec::new();
    }
    let n = lines.len();
    let mut spawns: Vec<ScriptCommand> = Vec::new();
    let mut i: usize = state.line_num;
    while i < n
        invariant
            state.line_num <= i <= n,
            n == lines.len(),
            state.delay.wf(),
            state == old(state),
            old(state).delay.spec_expired(),
            old(state).line_num <= n,
            sweep_spawns(lines@, old(state).line_num as int) =~= spawns@ + sweep_spawns(
                lines@,
                i as int,
            ),
            sweep_end(lines@, old(state).line_num as int) == sweep_end(lines@, i as int),
            sweep_delay(lines@, old(state).line_num as int) == sweep_delay(lines@, i as int),
            forall|q: int|
                0 <= q < spawns.len() ==> (#[trigger] spawns[q]) matches ScriptCommand::Spawn {
                    ..
                },
        decreases n - i,
    {
        let line = &lines[i];
        match parse_script_line(line.as_slice()) {
            Option::Some(ScriptCommand::Delay { seconds }) => {
                state.delay = CountdownTimer::from_duration(seconds);
                state.line_num = i + 1;
                proof {
                    assert(spawns@ =~= sweep_spawns(lines@, old(state).line_num as int));
                }
                return spawns;
            },
            Option::Some(cmd) => {
                proof {
                    assert(cmd matches ScriptCommand::Spawn { .. });
                    assert(sweep_spawns(lines@, i as int) =~= seq![cmd] + sweep_spawns(
                        lines@,
                        i + 1,
                    ));
                }
                spawns.push(cmd);
                proof {
                    assert(sweep_spawns(lines@, old(state).line_num as int) =~= spawns@
                        + sweep_spawns(lines@, i + 1));
                }
            },
            Option::None => {},
        }
        i = i + 1;
    }
    state.line_num = n;
    proof {
        assert(spawns@ =~= sweep_spawns(lines@, old(state).line_num as int));
    }
    spawns
}

} // verus!
