//! The durable record format for tasks: length-prefixed text fields, a
//! decimal step counter and a one-character status tag. Decoding is proved
//! to invert encoding, which is what makes restart recovery exact.

use vstd::prelude::*;
use vstd::string::StrSliceExecFns;
use crate::task::{Task, TaskStatus};

verus! {

/// The character for a single decimal digit.
pub open spec fn digit_char(d: nat) -> char {
    if d == 0 {
        '0'
    } else if d == 1 {
        '1'
    } else if d == 2 {
        '2'
    } else if d == 3 {
        '3'
    } else if d == 4 {
        '4'
    } else if d == 5 {
        '5'
    } else if d == 6 {
        '6'
    } else if d == 7 {
        '7'
    } else if d == 8 {
        '8'
    } else {
        '9'
    }
}

/// The value of a decimal digit character; ten marks a non-digit.
pub open spec fn digit_val(c: char) -> nat {
    if c == '0' {
        0
    } else if c == '1' {
        1
    } else if c == '2' {
        2
    } else if c == '3' {
        3
    } else if c == '4' {
        4
    } else if c == '5' {
        5
    } else if c == '6' {
        6
    } else if c == '7' {
        7
    } else if c == '8' {
        8
    } else if c == '9' {
        9
    } else {
        10
    }
}

pub open spec fn is_digit_char(c: char) -> bool {
    digit_val(c) < 10
}

/// The shortest decimal numeral of a number, most significant digit first.
pub open spec fn spec_dec(n: nat) -> Seq<char>
    decreases n,
{
    if n < 10 {
        seq![digit_char(n)]
    } else {
        spec_dec(n / 10).push(digit_char(n % 10))
    }
}

/// The number a digit string denotes.
pub open spec fn dec_val(s: Seq<char>) -> nat
    decreases s.len(),
{
    if s.len() == 0 {
        0
    } else {
        dec_val(s.drop_last()) * 10 + digit_val(s.last())
    }
}

/// How many leading characters of the string are decimal digits.
pub open spec fn digit_run(s: Seq<char>) -> nat
    decreases s.len(),
{
    if s.len() == 0 || !is_digit_char(s.first()) {
        0
    } else {
        1 + digit_run(s.drop_first())
    }
}

/// Reads a digit run terminated by a newline: the value and what follows
/// the newline. Values beyond `u64::MAX` are rejected, as the executable
/// reader rejects them.
pub open spec fn spec_parse_num(s: Seq<char>) -> Option<(nat, Seq<char>)> {
    let k = digit_run(s) as int;
    if k == 0 {
        None
    } else if k < s.len() && s[k] == '\n' && dec_val(s.take(k)) <= u64::MAX {
        Some((dec_val(s.take(k)), s.skip(k + 1)))
    } else {
        None
    }
}

pub proof fn lemma_spec_dec(n: nat)
    ensures
        spec_dec(n).len() >= 1,
        forall|i: int| 0 <= i < spec_dec(n).len() ==> is_digit_char(#[trigger] spec_dec(n)[i]),
        dec_val(spec_dec(n)) == n,
    decreases n,
{
    if n < 10 {
        let w = seq![digit_char(n)];
        assert(spec_dec(n) == w);
        assert(w.last() == digit_char(n));
        assert(w.drop_last() =~= Seq::<char>::empty());
        assert(dec_val(Seq::<char>::empty()) == 0);
        assert(dec_val(w) == dec_val(w.drop_last()) * 10 + digit_val(w.last()));
        assert(digit_val(digit_char(n)) == n);
    } else {
        lemma_spec_dec(n / 10);
        let p = spec_dec(n / 10);
        let w = p.push(digit_char(n % 10));
        assert(w.drop_last() =~= p);
        assert(w.last() == digit_char(n % 10));
        assert(dec_val(w) == n / 10 * 10 + digit_val(digit_char(n % 10)));
        assert(digit_val(digit_char(n % 10)) == n % 10);
        assert(n / 10 * 10 + n % 10 == n);
        assert(forall|i: int| 0 <= i < p.len() ==> w[i] == p[i]);
    }
}

/// The digit run is exactly the length of an all-digit prefix whose
/// successor, if any, is not a digit.
pub proof fn lemma_digit_run_exact(s: Seq<char>, m: int)
    requires
        0 <= m <= s.len(),
        forall|j: int| 0 <= j < m ==> is_digit_char(#[trigger] s[j]),
        m == s.len() || !is_digit_char(s[m]),
    ensures
        digit_run(s) == m,
    decreases s.len(),
{
    if m == 0 {
    } else {
        assert(is_digit_char(s.first()));
        let t = s.drop_first();
        assert(forall|j: int| 0 <= j < m - 1 ==> #[trigger] t[j] == s[j + 1]);
        assert(m - 1 == t.len() || !is_digit_char(t[m - 1]));
        lemma_digit_run_exact(t, m - 1);
    }
}

/// Extending a digit string multiplies its value up, so the value of a
/// longer prefix is never smaller.
pub proof fn lemma_dec_val_monotone(s: Seq<char>, j: int, k: int)
    requires
        0 <= j <= k <= s.len(),
    ensures
        dec_val(s.take(j)) <= dec_val(s.take(k)),
    decreases k - j,
{
    if j < k {
        lemma_dec_val_monotone(s, j, k - 1);
        let a = s.take(k - 1);
        let b = s.take(k);
        assert(b.drop_last() =~= a);
        assert(dec_val(b) == dec_val(a) * 10 + digit_val(b.last()));
        assert(dec_val(a) * 10 >= dec_val(a));
    }
}

/// Reading back a printed numeral yields the number and the trailing text.
pub proof fn lemma_parse_dec(n: nat, rest: Seq<char>)
    requires
        n <= u64::MAX,
    ensures
        spec_parse_num(spec_dec(n) + seq!['\n'] + rest) == Some((n, rest)),
{
    lemma_spec_dec(n);
    let d = spec_dec(n);
    let s = d + seq!['\n'] + rest;
    let m = d.len() as int;
    assert(forall|j: int| 0 <= j < m ==> s[j] == #[trigger] d[j]);
    assert(s[m] == '\n');
    assert(!is_digit_char('\n'));
    lemma_digit_run_exact(s, m);
    assert(s.take(m) =~= d);
    assert(s.skip(m + 1) =~= rest);
}

/// The one-character tag a status is stored under.
pub open spec fn status_char(st: TaskStatus) -> char {
    match st {
        TaskStatus::Pending => 'p',
        TaskStatus::Active => 'a',
        TaskStatus::Completed => 'c',
        TaskStatus::Failed => 'f',
    }
}

pub open spec fn spec_status_of(c: char) -> Option<TaskStatus> {
    if c == 'p' {
        Some(TaskStatus::Pending)
    } else if c == 'a' {
        Some(TaskStatus::Active)
    } else if c == 'c' {
        Some(TaskStatus::Completed)
    } else if c == 'f' {
        Some(TaskStatus::Failed)
    } else {
        None
    }
}

/// The durable record of a task: both text fields length-prefixed, then
/// the step counter, then the status tag.
pub open spec fn spec_encode_task(t: crate::task::TaskView) -> Seq<char> {
    spec_dec(t.id.len()) + seq!['\n'] + t.id + spec_dec(t.description.len()) + seq!['\n']
        + t.description + spec_dec(t.step as nat) + seq!['\n'] + seq![status_char(t.status)]
}

/// What reading a record back yields, if anything: the reader of the
/// format above, rejecting anything it cannot account for exactly.
pub open spec fn spec_decode_task(s: Seq<char>) -> Option<crate::task::TaskView> {
    match spec_parse_num(s) {
        None => None,
        Some((n1, r1)) => if r1.len() < n1 {
            None
        } else {
            let id = r1.take(n1 as int);
            let r2 = r1.skip(n1 as int);
            match spec_parse_num(r2) {
                None => None,
                Some((n2, r3)) => if r3.len() < n2 {
                    None
                } else {
                    let description = r3.take(n2 as int);
                    let r4 = r3.skip(n2 as int);
                    match spec_parse_num(r4) {
                        None => None,
                        Some((stp, r5)) => if stp > u32::MAX || r5.len() != 1 {
                            None
                        } else {
                            match spec_status_of(r5[0]) {
                                None => None,
                                Some(status) => Some(
                                    crate::task::TaskView {
                                        id,
                                        description,
                                        step: stp as u32,
                                        status,
                                    },
                                ),
                            }
                        },
                    }
                },
            }
        },
    }
}

/// Decoding inverts encoding: a stored record reads back as exactly the
/// task it was written from.
pub proof fn lemma_codec_round_trip(t: crate::task::TaskView)
    requires
        t.id.len() <= u64::MAX,
        t.description.len() <= u64::MAX,
    ensures
        spec_decode_task(spec_encode_task(t)) == Some(t),
{
    let s = spec_encode_task(t);
    let tail3 = seq![status_char(t.status)];
    let tail2 = spec_dec(t.step as nat) + seq!['\n'] + tail3;
    let tail1 = spec_dec(t.description.len()) + seq!['\n'] + (t.description + tail2);
    assert(s =~= spec_dec(t.id.len()) + seq!['\n'] + (t.id + tail1));
    lemma_parse_dec(t.id.len(), t.id + tail1);
    let r1 = t.id + tail1;
    assert(r1.len() >= t.id.len());
    assert(r1.take(t.id.len() as int) =~= t.id);
    assert(r1.skip(t.id.len() as int) =~= tail1);
    lemma_parse_dec(t.description.len(), t.description + tail2);
    let r3 = t.description + tail2;
    assert(r3.take(t.description.len() as int) =~= t.description);
    assert(r3.skip(t.description.len() as int) =~= tail2);
    lemma_parse_dec(t.step as nat, tail3);
    assert(tail3.len() == 1);
    assert(spec_status_of(tail3[0]) == Some(t.status));
}

/// The character for one decimal digit.
fn digit_to_char(d: u64) -> (c: char)
    requires
        d < 10,
    ensures
        c == digit_char(d as nat),
{
    if d == 0 {
        '0'
    } else if d == 1 {
        '1'
    } else if d == 2 {
        '2'
    } else if d == 3 {
        '3'
    } else if d == 4 {
        '4'
    } else if d == 5 {
        '5'
    } else if d == 6 {
        '6'
    } else if d == 7 {
        '7'
    } else if d == 8 {
        '8'
    } else {
        '9'
    }
}

fn char_to_digit(c: char) -> (d: u64)
    ensures
        d == digit_val(c),
{
    if c == '0' {
        0
    } else if c == '1' {
        1
    } else if c == '2' {
        2
    } else if c == '3' {
        3
    } else if c == '4' {
        4
    } else if c == '5' {
        5
    } else if c == '6' {
        6
    } else if c == '7' {
        7
    } else if c == '8' {
        8
    } else if c == '9' {
        9
    } else {
        10
    }
}

/// Appends the decimal numeral of `n`.
pub(crate) fn push_dec(n: u64, out: &mut Vec<char>)
    ensures
        final(out)@ == old(out)@ + spec_dec(n as nat),
    decreases n,
{
    if n < 10 {
        out.push(digit_to_char(n));
        proof {
            assert(final(out)@ =~= old(out)@ + spec_dec(n as nat));
        }
    } else {
        push_dec(n / 10, out);
        out.push(digit_to_char(n % 10));
        proof {
            assert((n / 10) as nat == n as nat / 10);
            assert((n % 10) as nat == n as nat % 10);
            assert(final(out)@ =~= old(out)@ + spec_dec(n as nat));
        }
    }
}

/// Relies on `String: FromIterator<char>`: collecting characters yields
/// the string of exactly those characters, in order.
#[verifier::external_body]
pub(crate) fn chars_to_string(v: Vec<char>) -> (s: String)
    ensures
        s@ == v@,
{
    v.into_iter().collect()
}

/// The characters of a string slice, in order.
fn string_to_chars(s: &str) -> (v: Vec<char>)
    ensures
        v@ == s@,
{
    let n = s.unicode_len();
    let mut v: Vec<char> = Vec::new();
    let mut i: usize = 0;
    while i < n
        invariant
            n == s@.len(),
            i <= n,
            v@ == s@.take(i as int),
        decreases n - i,
    {
        v.push(s.get_char(i));
        proof {
            assert(v@ =~= s@.take(i + 1));
        }
        i += 1;
    }
    proof {
        assert(v@ =~= s@);
    }
    v
}

/// Serializes a task into its durable record.
pub fn encode_task(t: &Task) -> (r: String)
    ensures
        r@ == spec_encode_task(t@),
{
    let mut out: Vec<char> = Vec::new();
    push_dec(t.id.unicode_len() as u64, &mut out);
    out.push('\n');
    let mut idc = string_to_chars(t.id.as_str());
    out.append(&mut idc);
    push_dec(t.description.unicode_len() as u64, &mut out);
    out.push('\n');
    let mut dc = string_to_chars(t.description.as_str());
    out.append(&mut dc);
    push_dec(t.step as u64, &mut out);
    out.push('\n');
    let sc = match t.status {
        TaskStatus::Pending => 'p',
        TaskStatus::Active => 'a',
        TaskStatus::Completed => 'c',
        TaskStatus::Failed => 'f',
    };
    out.push(sc);
    proof {
        assert(out@ =~= spec_encode_task(t@));
    }
    chars_to_string(out)
}

/// Reads one length-prefixed numeral out of the character buffer.
fn parse_num(v: &Vec<char>, pos: usize) -> (r: Option<(u64, usize)>)
    requires
        pos <= v@.len(),
    ensures
        match r {
            Some(p) => pos < p.1 <= v@.len() && spec_parse_num(v@.skip(pos as int)) == Some(
                ((p.0 as nat), v@.skip(p.1 as int)),
            ),
            None => spec_parse_num(v@.skip(pos as int)) is None,
        },
{
    let ghost s = v@.skip(pos as int);
    proof {
        assert(forall|j: int| 0 <= j < s.len() ==> s[j] == v@[pos + j]);
    }
    let n = v.len();
    let mut e: usize = pos;
    loop
        invariant
            pos <= e <= n,
            n == v@.len(),
            forall|j: int| pos <= j < e ==> is_digit_char(#[trigger] v@[j]),
        ensures
            pos <= e <= n,
            forall|j: int| pos <= j < e ==> is_digit_char(#[trigger] v@[j]),
            e == n || !is_digit_char(v@[e as int]),
        decreases n - e,
    {
        if e == n {
            break ;
        }
        if char_to_digit(v[e]) >= 10 {
            break ;
        }
        e += 1;
    }
    let ghost k = e - pos;
    proof {
        assert(forall|j: int| 0 <= j < k ==> s[j] == v@[pos + j]);
        lemma_digit_run_exact(s, k);
    }
    if e == pos {
        return None;
    }
    let mut acc: u64 = 0;
    let mut i: usize = pos;
    while i < e
        invariant
            pos <= i <= e <= n,
            n == v@.len(),
            s == v@.skip(pos as int),
            k == e - pos,
            digit_run(s) == k,
            forall|j: int| pos <= j < e ==> is_digit_char(#[trigger] v@[j]),
            acc as nat == dec_val(s.take(i - pos)),
        decreases e - i,
    {
        let d = char_to_digit(v[i]);
        proof {
            assert(s[i - pos] == v@[i as int]);
            assert(s.take(i + 1 - pos).drop_last() =~= s.take(i - pos));
            assert(s.take(i + 1 - pos).last() == s[i - pos]);
        }
        let m = match acc.checked_mul(10) {
            Some(m) => m,
            None => {
                proof {
                    assert(dec_val(s.take(i + 1 - pos)) > u64::MAX);
                    lemma_dec_val_monotone(s, i + 1 - pos, k);
                }
                return None;
            },
        };
        acc = match m.checked_add(d) {
            Some(x) => x,
            None => {
                proof {
                    assert(dec_val(s.take(i + 1 - pos)) > u64::MAX);
                    lemma_dec_val_monotone(s, i + 1 - pos, k);
                }
                return None;
            },
        };
        i += 1;
    }
    proof {
        assert(s.take(k) =~= s.take(e - pos));
    }
    if e < n {
        let c = v[e];
        if c == '\n' {
            proof {
                assert(s[k] == '\n');
                assert(v@.skip(e + 1) =~= s.skip(k + 1));
            }
            return Some((acc, e + 1));
        }
        proof {
            assert(s[k] != '\n');
        }
        return None;
    }
    proof {
        assert(k == s.len());
    }
    None
}

fn status_of_char(c: char) -> (r: Option<TaskStatus>)
    ensures
        r == spec_status_of(c),
{
    if c == 'p' {
        Some(TaskStatus::Pending)
    } else if c == 'a' {
        Some(TaskStatus::Active)
    } else if c == 'c' {
        Some(TaskStatus::Completed)
    } else if c == 'f' {
        Some(TaskStatus::Failed)
    } else {
        None
    }
}

/// Deserializes a durable record back into a task, rejecting anything
/// that is not exactly a record.
pub fn decode_task(s: &str) -> (r: Option<Task>)
    ensures
        match r {
            Some(t) => spec_decode_task(s@) == Some(t@),
            None => spec_decode_task(s@) is None,
        },
{
    let v = string_to_chars(s);
    proof {
        assert(v@.skip(0) =~= s@);
    }
    let n = v.len();
    let (len1, p1) = match parse_num(&v, 0) {
        Some(p) => p,
        None => {
            return None;
        },
    };
    if len1 > (n - p1) as u64 {
        return None;
    }
    let n1 = len1 as usize;
    let mut idc: Vec<char> = Vec::new();
    let mut i: usize = 0;
    while i < n1
        invariant
            i <= n1,
            p1 + n1 <= n,
            n == v@.len(),
            idc@ == v@.subrange(p1 as int, p1 + i),
        decreases n1 - i,
    {
        idc.push(v[p1 + i]);
        proof {
            assert(idc@ =~= v@.subrange(p1 as int, p1 + i + 1));
        }
        i += 1;
    }
    let ghost r1 = v@.skip(p1 as int);
    proof {
        assert(idc@ =~= r1.take(n1 as int));
        assert(v@.skip(p1 + n1) =~= r1.skip(n1 as int));
    }
    let id = chars_to_string(idc);
    let p2 = p1 + n1;
    let (len2, p3) = match parse_num(&v, p2) {
        Some(p) => p,
        None => {
            return None;
        },
    };
    if len2 > (n - p3) as u64 {
        return None;
    }
    let n2 = len2 as usize;
    let mut dsc: Vec<char> = Vec::new();
    let mut j: usize = 0;
    while j < n2
        invariant
            j <= n2,
            p3 + n2 <= n,
            n == v@.len(),
            dsc@ == v@.subrange(p3 as int, p3 + j),
        decreases n2 - j,
    {
        dsc.push(v[p3 + j]);
        proof {
            assert(dsc@ =~= v@.subrange(p3 as int, p3 + j + 1));
        }
        j += 1;
    }
    let ghost r3 = v@.skip(p3 as int);
    proof {
        assert(dsc@ =~= r3.take(n2 as int));
        assert(v@.skip(p3 + n2) =~= r3.skip(n2 as int));
    }
    let description = chars_to_string(dsc);
    let p4 = p3 + n2;
    let (stp, p5) = match parse_num(&v, p4) {
        Some(p) => p,
        None => {
            return None;
        },
    };
    if stp > u32::MAX as u64 {
        return None;
    }
    if n - p5 != 1 {
        return None;
    }
    let ghost r5 = v@.skip(p5 as int);
    proof {
        assert(r5.len() == 1);
        assert(r5[0] == v@[p5 as int]);
    }
    let status = match status_of_char(v[p5]) {
        Some(st) => st,
        None => {
            return None;
        },
    };
    let t = Task { id, description, step: stp as u32, status };
    proof {
        assert(t@.id =~= r1.take(len1 as int));
        assert(t@.description =~= r3.take(len2 as int));
        assert(spec_decode_task(s@) == Some(t@));
    }
    Some(t)
}

} // verus!
