//! The profile file format.
//!
//! A file is split into lines at `'\n'`; each line is trimmed. Empty lines
//! and lines starting with `#` are skipped. A line starting with `name:`
//! names the profile (the rest of the line, trimmed). Every other line is a
//! step row of six comma-separated fields, each trimmed:
//! `step_name,temperature,target_time,step_time,max_rate,is_cooling`.
//! The step name is one of the six names, in any letter case, with or
//! without the underscore (`reflow_ramp`, `ReflowRamp`). Temperature and
//! rate are decimals with an optional `-` and at most three fractional
//! digits, read in thousandths; times are unsigned integers; `is_cooling`
//! is `true` or `false`. A malformed row is a parse error; a file without
//! exactly six rows, or with a name longer than 32 characters, is an
//! invalid format.
use vstd::prelude::*;
use vstd::string::StrSliceExecFns;

use crate::profile::{Profile, ProfileView, Step, StepName, PROFILE_NAME_MAX, PROFILE_STEPS};
use crate::sd_profile_reader::SdProfileError;
use crate::text::{chars_of, range_eq, trim, trim_range};

verus! {

/// Pieces of `s` between occurrences of `sep`; at least one piece.
pub open spec fn split(s: Seq<char>, sep: char) -> Seq<Seq<char>>
    decreases s.len(),
{
    if s.len() == 0 {
        seq![Seq::empty()]
    } else {
        let p = split(s.drop_last(), sep);
        if s.last() == sep {
            p.push(Seq::empty())
        } else {
            p.update(p.len() - 1, p.last().push(s.last()))
        }
    }
}

pub open spec fn is_digit(c: char) -> bool {
    '0' <= c <= '9'
}

pub open spec fn digit_value(c: char) -> int {
    c as u32 - '0' as u32
}

/// A non-empty run of decimal digits.
pub open spec fn is_digits(s: Seq<char>) -> bool {
    s.len() > 0 && forall|i: int| 0 <= i < s.len() ==> is_digit(#[trigger] s[i])
}

/// Value of a run of decimal digits.
pub open spec fn digits_value(s: Seq<char>) -> int
    decreases s.len(),
{
    if s.len() == 0 {
        0
    } else {
        digits_value(s.drop_last()) * 10 + digit_value(s.last())
    }
}

/// An unsigned 32-bit integer field.
pub open spec fn parse_u32_spec(s: Seq<char>) -> Option<u32> {
    if is_digits(s) && digits_value(s) <= u32::MAX {
        Some(digits_value(s) as u32)
    } else {
        None
    }
}

/// Thousandths per unit of the last fractional digit, by fraction length.
pub open spec fn fraction_scale(len: nat) -> int {
    if len == 1 {
        100
    } else if len == 2 {
        10
    } else {
        1
    }
}

/// Magnitude of an unsigned decimal, in thousandths.
pub open spec fn unsigned_milli(s: Seq<char>) -> Option<int> {
    let parts = split(s, '.');
    if parts.len() == 1 && is_digits(parts[0]) {
        Some(digits_value(parts[0]) * 1000)
    } else if parts.len() == 2 && is_digits(parts[0]) && is_digits(parts[1]) && parts[1].len()
        <= 3 {
        Some(digits_value(parts[0]) * 1000 + digits_value(parts[1]) * fraction_scale(
            parts[1].len(),
        ))
    } else {
        None
    }
}

/// A decimal field in thousandths, if well formed and within `i32`.
pub open spec fn parse_milli_spec(s: Seq<char>) -> Option<i32> {
    let neg = s.len() > 0 && s[0] == '-';
    let body = if neg {
        s.drop_first()
    } else {
        s
    };
    match unsigned_milli(body) {
        Some(m) => {
            let v = if neg {
                -m
            } else {
                m
            };
            if i32::MIN <= v <= i32::MAX {
                Some(v as i32)
            } else {
                None
            }
        },
        None => None,
    }
}

/// ASCII letter case is ignored: `a` is `b` or its upper-case form.
pub open spec fn same_letter(a: char, b: char) -> bool {
    a == b || ('a' <= b <= 'z' && a as u32 + 32 == b as u32)
}

/// `s` equals the lower-case word `w` up to letter case.
pub open spec fn eq_ignore_case(s: Seq<char>, w: Seq<char>) -> bool {
    s.len() == w.len() && forall|i: int| 0 <= i < s.len() ==> same_letter(#[trigger] s[i], w[i])
}

/// The step name a field spells.
pub open spec fn step_name_spec(s: Seq<char>) -> Option<StepName> {
    if eq_ignore_case(s, "preheat"@) {
        Some(StepName::Preheat)
    } else if eq_ignore_case(s, "soak"@) {
        Some(StepName::Soak)
    } else if eq_ignore_case(s, "ramp"@) {
        Some(StepName::Ramp)
    } else if eq_ignore_case(s, "reflow_ramp"@) || eq_ignore_case(s, "reflowramp"@) {
        Some(StepName::ReflowRamp)
    } else if eq_ignore_case(s, "reflow_cool"@) || eq_ignore_case(s, "reflowcool"@) {
        Some(StepName::ReflowCool)
    } else if eq_ignore_case(s, "cooling"@) {
        Some(StepName::Cooling)
    } else {
        None
    }
}

/// A boolean field.
pub open spec fn parse_bool_spec(s: Seq<char>) -> Option<bool> {
    if s == "true"@ {
        Some(true)
    } else if s == "false"@ {
        Some(false)
    } else {
        None
    }
}

/// The step a trimmed row describes.
pub open spec fn parse_row_spec(t: Seq<char>) -> Option<Step> {
    let f = split(t, ',');
    if f.len() != 6 {
        None
    } else {
        match (
            step_name_spec(trim(f[0])),
            parse_milli_spec(trim(f[1])),
            parse_u32_spec(trim(f[2])),
            parse_u32_spec(trim(f[3])),
            parse_milli_spec(trim(f[4])),
            parse_bool_spec(trim(f[5])),
        ) {
            (Some(n), Some(temp), Some(target), Some(time), Some(rate), Some(cooling)) => Some(
                Step {
                    is_cooling: cooling,
                    has_fan: false,
                    step_name: n,
                    set_temperature: temp,
                    target_time: target,
                    step_time: time,
                    max_rate: rate,
                },
            ),
            _ => None,
        }
    }
}

/// Profile name and steps read so far.
pub ghost struct Scan {
    pub name: Option<Seq<char>>,
    pub steps: Seq<Step>,
}

/// Prefix of the name header.
pub open spec fn name_prefix() -> Seq<char> {
    "name:"@
}

/// Reads one line.
pub open spec fn scan_line(st: Scan, line: Seq<char>) -> Result<Scan, SdProfileError> {
    let t = trim(line);
    if t.len() == 0 || t[0] == '#' {
        Ok(st)
    } else if t.len() >= 5 && t.subrange(0, 5) == name_prefix() {
        Ok(Scan { name: Some(trim(t.subrange(5, t.len() as int))), ..st })
    } else {
        match parse_row_spec(t) {
            None => Err(SdProfileError::ParseError),
            Some(step) => if st.steps.len() >= PROFILE_STEPS {
                Err(SdProfileError::InvalidFormat)
            } else {
                Ok(Scan { steps: st.steps.push(step), ..st })
            },
        }
    }
}

/// Reads lines in order, stopping at the first failure.
pub open spec fn scan_lines(lines: Seq<Seq<char>>) -> Result<Scan, SdProfileError>
    decreases lines.len(),
{
    if lines.len() == 0 {
        Ok(Scan { name: None, steps: Seq::empty() })
    } else {
        match scan_lines(lines.drop_last()) {
            Err(e) => Err(e),
            Ok(st) => scan_line(st, lines.last()),
        }
    }
}

/// Name of a profile file without a name header.
pub open spec fn default_name(file_name: Seq<char>) -> Seq<char> {
    if file_name == "lead_free.txt"@ {
        "Lead Free"@
    } else if file_name == "leaded.txt"@ {
        "Leaded"@
    } else if file_name == "low_temp.txt"@ {
        "Low Temperature"@
    } else {
        "Custom Profile"@
    }
}

/// The profile a file holds.
pub open spec fn parse_profile_spec(content: Seq<char>, file_name: Seq<char>) -> Result<
    ProfileView,
    SdProfileError,
> {
    match scan_lines(split(content, '\n')) {
        Err(e) => Err(e),
        Ok(st) => {
            let name = match st.name {
                Some(n) => if n.len() > 0 {
                    n
                } else {
                    default_name(file_name)
                },
                None => default_name(file_name),
            };
            if st.steps.len() != PROFILE_STEPS || name.len() > PROFILE_NAME_MAX {
                Err(SdProfileError::InvalidFormat)
            } else {
                Ok(ProfileView { name, steps: st.steps })
            }
        },
    }
}

/// A failure in a prefix of the lines is the failure of all of them.
proof fn lemma_scan_error_sticks(lines: Seq<Seq<char>>, j: int, e: SdProfileError)
    requires
        0 <= j <= lines.len(),
        scan_lines(lines.subrange(0, j)) == Err::<Scan, SdProfileError>(e),
    ensures
        scan_lines(lines) == Err::<Scan, SdProfileError>(e),
    decreases lines.len(),
{
    if j < lines.len() {
        assert(lines.drop_last().subrange(0, j) =~= lines.subrange(0, j));
        lemma_scan_error_sticks(lines.drop_last(), j, e);
    } else {
        assert(lines.subrange(0, j) =~= lines);
    }
}

/// The value of a run of digits is at least that of any prefix.
proof fn lemma_digits_prefix(s: Seq<char>, k: int)
    requires
        0 <= k <= s.len(),
        forall|i: int| 0 <= i < s.len() ==> is_digit(#[trigger] s[i]),
    ensures
        digits_value(s) >= digits_value(s.subrange(0, k)),
        digits_value(s) >= 0,
    decreases s.len(),
{
    if s.len() > 0 {
        lemma_digits_prefix(s.drop_last(), if k == s.len() {
            k - 1
        } else {
            k
        });
        if k == s.len() {
            assert(s.subrange(0, k) =~= s);
        } else {
            assert(s.drop_last().subrange(0, k) =~= s.subrange(0, k));
        }
    }
}

/// Ranges of the pieces of `s[from..to]` between occurrences of `sep`.
pub fn split_ranges(s: &Vec<char>, from: usize, to: usize, sep: char) -> (r: Vec<(usize, usize)>)
    requires
        from <= to <= s@.len(),
    ensures
        r@.len() == split(s@.subrange(from as int, to as int), sep).len(),
        forall|k: int|
            0 <= k < r@.len() ==> from <= (#[trigger] r@[k]).0 <= r@[k].1 <= to && s@.subrange(
                r@[k].0 as int,
                r@[k].1 as int,
            ) == split(s@.subrange(from as int, to as int), sep)[k],
{
    let mut r: Vec<(usize, usize)> = Vec::new();
    let mut start: usize = from;
    let mut i: usize = from;
    assert(s@.subrange(from as int, from as int) =~= Seq::<char>::empty());
    while i < to
        invariant
            from <= start <= i <= to <= s@.len(),
            r@.len() + 1 == split(s@.subrange(from as int, i as int), sep).len(),
            forall|k: int|
                0 <= k < r@.len() ==> from <= (#[trigger] r@[k]).0 <= r@[k].1 <= to
                    && s@.subrange(r@[k].0 as int, r@[k].1 as int) == split(
                    s@.subrange(from as int, i as int),
                    sep,
                )[k],
            s@.subrange(start as int, i as int) == split(
                s@.subrange(from as int, i as int),
                sep,
            ).last(),
        decreases to - i,
    {
        assert(s@.subrange(from as int, i + 1).drop_last() =~= s@.subrange(from as int, i as int));
        if s[i] == sep {
            r.push((start, i));
            start = i + 1;
            assert(s@.subrange(start as int, i + 1) =~= Seq::<char>::empty());
        } else {
            assert(s@.subrange(start as int, i + 1) =~= s@.subrange(start as int, i as int).push(
                s@[i as int],
            ));
        }
        i = i + 1;
    }
    r.push((start, to));
    r
}

/// Parses `s[from..to]` as digits whose value is at most `limit`.
fn parse_digits(s: &Vec<char>, from: usize, to: usize, limit: u64) -> (r: Option<u64>)
    requires
        from <= to <= s@.len(),
        limit <= u32::MAX,
    ensures
        ({
            let t = s@.subrange(from as int, to as int);
            &&& r is Some <==> (is_digits(t) && digits_value(t) <= limit)
            &&& r matches Some(v) ==> v == digits_value(t)
        }),
{
    if from == to {
        return None;
    }
    let mut acc: u64 = 0;
    let mut i: usize = from;
    while i < to
        invariant
            from <= i <= to <= s@.len(),
            limit <= u32::MAX,
            acc <= limit,
            acc == digits_value(s@.subrange(from as int, i as int)),
            forall|k: int| from <= k < i ==> is_digit(#[trigger] s@[k]),
        decreases to - i,
    {
        let c = s[i];
        if !('0' <= c && c <= '9') {
            proof {
                assert(!is_digit(s@.subrange(from as int, to as int)[i - from]));
            }
            return None;
        }
        let d: u64 = (c as u32 - '0' as u32) as u64;
        assert(s@.subrange(from as int, i + 1).drop_last() =~= s@.subrange(from as int, i as int));
        if d > limit || acc > (limit - d) / 10 {
            proof {
                let t = s@.subrange(from as int, to as int);
                let u = s@.subrange(from as int, i + 1);
                assert(digits_value(u) > limit) by (nonlinear_arith)
                    requires
                        digits_value(u) == acc * 10 + d,
                        d > limit || acc > (limit - d) / 10,
                        acc >= 0,
                        d >= 0,
                ;
                if is_digits(t) {
                    lemma_digits_prefix(t, i + 1 - from);
                    assert(t.subrange(0, i + 1 - from) =~= u);
                }
            }
            return None;
        }
        acc = acc * 10 + d;
        i = i + 1;
    }
    assert(s@.subrange(from as int, to as int) =~= s@.subrange(from as int, i as int));
    Some(acc)
}

/// `10` to the power `n`.
pub open spec fn pow10(n: nat) -> int
    decreases n,
{
    if n == 0 {
        1
    } else {
        10 * pow10((n - 1) as nat)
    }
}

/// A run of `n` digits is below `10^n`.
proof fn lemma_digits_bound(s: Seq<char>)
    requires
        forall|i: int| 0 <= i < s.len() ==> is_digit(#[trigger] s[i]),
    ensures
        0 <= digits_value(s) < pow10(s.len()),
    decreases s.len(),
{
    if s.len() > 0 {
        assert(is_digit(s[s.len() - 1]));
        lemma_digits_bound(s.drop_last());
        assert(pow10(s.len()) == 10 * pow10(s.drop_last().len()));
    }
}

/// Parses `s[from..to]` as a decimal in thousandths.
fn parse_milli(s: &Vec<char>, from: usize, to: usize) -> (r: Option<i32>)
    requires
        from <= to <= s@.len(),
    ensures
        r == parse_milli_spec(s@.subrange(from as int, to as int)),
{
    let ghost t = s@.subrange(from as int, to as int);
    let neg = from < to && s[from] == '-';
    let body_from: usize = if neg {
        from + 1
    } else {
        from
    };
    let ghost body = s@.subrange(body_from as int, to as int);
    assert(neg ==> body =~= t.drop_first());
    assert(!neg ==> body =~= t);
    let parts = split_ranges(s, body_from, to, '.');
    let ghost sp = split(body, '.');
    let magnitude: u64;
    if parts.len() == 1 {
        let (a, b) = parts[0];
        match parse_digits(s, a, b, u32::MAX as u64) {
            None => {
                proof {
                    if is_digits(sp[0]) {
                        assert(digits_value(sp[0]) * 1000 > i32::MAX + 1);
                    }
                }
                return None;
            },
            Some(v) => {
                magnitude = v * 1000;
            },
        }
    } else if parts.len() == 2 {
        let (a, b) = parts[0];
        let (c, d) = parts[1];
        let ip = match parse_digits(s, a, b, u32::MAX as u64) {
            None => {
                proof {
                    if is_digits(sp[0]) && is_digits(sp[1]) && sp[1].len() <= 3 {
                        lemma_digits_bound(sp[1]);
                        assert(digits_value(sp[0]) * 1000 > i32::MAX + 1);
                    }
                }
                return None;
            },
            Some(v) => v,
        };
        if d - c > 3 {
            return None;
        }
        let fp = match parse_digits(s, c, d, u32::MAX as u64) {
            None => {
                proof {
                    if is_digits(sp[1]) {
                        lemma_digits_bound(sp[1]);
                        assert(pow10(sp[1].len()) <= 1000) by {
                            reveal_with_fuel(pow10, 4);
                        }
                    }
                }
                return None;
            },
            Some(v) => v,
        };
        let scale: u64 = if d - c == 1 {
            100
        } else if d - c == 2 {
            10
        } else {
            1
        };
        proof {
            lemma_digits_bound(sp[1]);
            assert(pow10(sp[1].len()) <= 1000) by {
                reveal_with_fuel(pow10, 4);
            }
        }
        assert(fp < 1000);
        assert(fp * scale <= 100_000) by (nonlinear_arith)
            requires
                fp < 1000,
                scale <= 100,
        ;
        assert(ip * 1000 <= 0x1_0000_0000 * 1000) by (nonlinear_arith)
            requires
                ip <= 0xFFFF_FFFF,
        ;
        magnitude = ip * 1000 + fp * scale;
    } else {
        return None;
    }
    if neg {
        if magnitude > 0x8000_0000 {
            return None;
        }
        Some((0 - magnitude as i64) as i32)
    } else {
        if magnitude > 0x7FFF_FFFF {
            return None;
        }
        Some(magnitude as i32)
    }
}

/// Whether `s[from..to]` equals the lower-case word `w` up to letter case.
fn range_eq_ignore_case(s: &Vec<char>, from: usize, to: usize, w: &str) -> (r: bool)
    requires
        from <= to <= s@.len(),
    ensures
        r == eq_ignore_case(s@.subrange(from as int, to as int), w@),
{
    let n = w.unicode_len();
    if to - from != n {
        return false;
    }
    let mut k: usize = 0;
    while k < n
        invariant
            n == w@.len() == to - from,
            from <= to <= s@.len(),
            k <= n,
            forall|j: int| 0 <= j < k ==> same_letter(s@[from + j], w@[j]),
        decreases n - k,
    {
        let a = s[from + k];
        let b = w.get_char(k);
        if !(a == b || ('a' <= b && b <= 'z' && a as u32 == b as u32 - 32)) {
            assert(!same_letter(s@.subrange(from as int, to as int)[k as int], w@[k as int]));
            return false;
        }
        k = k + 1;
    }
    assert forall|j: int| 0 <= j < s@.subrange(from as int, to as int).len() implies same_letter(
        #[trigger] s@.subrange(from as int, to as int)[j],
        w@[j],
    ) by {
        assert(s@.subrange(from as int, to as int)[j] == s@[from + j]);
    }
    true
}

/// The step name that `s[from..to]` spells.
fn parse_step_name(s: &Vec<char>, from: usize, to: usize) -> (r: Option<StepName>)
    requires
        from <= to <= s@.len(),
    ensures
        r == step_name_spec(s@.subrange(from as int, to as int)),
{
    if range_eq_ignore_case(s, from, to, "preheat") {
        Some(StepName::Preheat)
    } else if range_eq_ignore_case(s, from, to, "soak") {
        Some(StepName::Soak)
    } else if range_eq_ignore_case(s, from, to, "ramp") {
        Some(StepName::Ramp)
    } else if range_eq_ignore_case(s, from, to, "reflow_ramp") || range_eq_ignore_case(
        s,
        from,
        to,
        "reflowramp",
    ) {
        Some(StepName::ReflowRamp)
    } else if range_eq_ignore_case(s, from, to, "reflow_cool") || range_eq_ignore_case(
        s,
        from,
        to,
        "reflowcool",
    ) {
        Some(StepName::ReflowCool)
    } else if range_eq_ignore_case(s, from, to, "cooling") {
        Some(StepName::Cooling)
    } else {
        None
    }
}

/// Parses `s[from..to]` as an unsigned 32-bit integer.
fn parse_u32_field(s: &Vec<char>, from: usize, to: usize) -> (r: Option<u32>)
    requires
        from <= to <= s@.len(),
    ensures
        r == parse_u32_spec(s@.subrange(from as int, to as int)),
{
    match parse_digits(s, from, to, u32::MAX as u64) {
        Some(v) => Some(v as u32),
        None => None,
    }
}

/// Parses `s[from..to]` as `true` or `false`.
fn parse_bool_field(s: &Vec<char>, from: usize, to: usize) -> (r: Option<bool>)
    requires
        from <= to <= s@.len(),
    ensures
        r == parse_bool_spec(s@.subrange(from as int, to as int)),
{
    if range_eq(s, from, to, "true") {
        Some(true)
    } else if range_eq(s, from, to, "false") {
        Some(false)
    } else {
        None
    }
}

/// The step that the trimmed row `s[from..to]` describes.
fn parse_row(s: &Vec<char>, from: usize, to: usize) -> (r: Option<Step>)
    requires
        from <= to <= s@.len(),
    ensures
        r == parse_row_spec(s@.subrange(from as int, to as int)),
{
    let f = split_ranges(s, from, to, ',');
    if f.len() != 6 {
        return None;
    }
    let (a0, b0) = f[0];
    let (a1, b1) = f[1];
    let (a2, b2) = f[2];
    let (a3, b3) = f[3];
    let (a4, b4) = f[4];
    let (a5, b5) = f[5];
    let (s0, e0) = trim_range(s, a0, b0);
    let (s1, e1) = trim_range(s, a1, b1);
    let (s2, e2) = trim_range(s, a2, b2);
    let (s3, e3) = trim_range(s, a3, b3);
    let (s4, e4) = trim_range(s, a4, b4);
    let (s5, e5) = trim_range(s, a5, b5);
    let name = parse_step_name(s, s0, e0);
    let temperature = parse_milli(s, s1, e1);
    let target_time = parse_u32_field(s, s2, e2);
    let step_time = parse_u32_field(s, s3, e3);
    let max_rate = parse_milli(s, s4, e4);
    let is_cooling = parse_bool_field(s, s5, e5);
    match (name, temperature, target_time, step_time, max_rate, is_cooling) {
        (Some(n), Some(temp), Some(target), Some(time), Some(rate), Some(cooling)) => Some(
            Step {
                is_cooling: cooling,
                has_fan: false,
                step_name: n,
                set_temperature: temp,
                target_time: target,
                step_time: time,
                max_rate: rate,
            },
        ),
        _ => None,
    }
}

/// Name given to a profile file without a name header.
fn default_profile_name(file_name: &str) -> (r: &'static str)
    ensures
        r@ == default_name(file_name@),
{
    if crate::sd_profile_reader::str_eq(file_name, "lead_free.txt") {
        "Lead Free"
    } else if crate::sd_profile_reader::str_eq(file_name, "leaded.txt") {
        "Leaded"
    } else if crate::sd_profile_reader::str_eq(file_name, "low_temp.txt") {
        "Low Temperature"
    } else {
        "Custom Profile"
    }
}

/// Reads the profile that `content`, the text of the file `file_name`,
/// holds.
pub fn parse_profile_text(content: &str, file_name: &str) -> (r: Result<Profile, SdProfileError>)
    ensures
        r matches Ok(p) ==> parse_profile_spec(content@, file_name@) == Ok::<
            ProfileView,
            SdProfileError,
        >(p@) && p.wf(),
        r matches Err(e) ==> parse_profile_spec(content@, file_name@) == Err::<
            ProfileView,
            SdProfileError,
        >(e),
{
    let chars = chars_of(content);
    let lines = split_ranges(&chars, 0, chars.len(), '\n');
    let ghost all = split(chars@, '\n');
    assert(chars@.subrange(0, chars@.len() as int) =~= chars@);
    let mut name: Option<(usize, usize)> = None;
    let mut steps: Vec<Step> = Vec::new();
    let mut i: usize = 0;
    assert(all.subrange(0, 0) =~= Seq::<Seq<char>>::empty());
    while i < lines.len()
        invariant
            chars@ == content@,
            all == split(chars@, '\n'),
            lines@.len() == all.len(),
            forall|k: int|
                0 <= k < lines@.len() ==> (#[trigger] lines@[k]).0 <= lines@[k].1 <= chars@.len()
                    && chars@.subrange(lines@[k].0 as int, lines@[k].1 as int) == all[k],
            i <= lines@.len(),
            name matches Some(nr) ==> nr.0 <= nr.1 <= chars@.len(),
            steps@.len() <= PROFILE_STEPS,
            scan_lines(all.subrange(0, i as int)) == Ok::<Scan, SdProfileError>(
                Scan {
                    name: match name {
                        Some(nr) => Some(chars@.subrange(nr.0 as int, nr.1 as int)),
                        None => None,
                    },
                    steps: steps@,
                },
            ),
        decreases lines@.len() - i,
    {
        let (ls, le) = lines[i];
        let (ts, te) = trim_range(&chars, ls, le);
        let ghost prefix = all.subrange(0, i + 1);
        let ghost t = chars@.subrange(ts as int, te as int);
        assert(prefix.drop_last() =~= all.subrange(0, i as int));
        assert(prefix.last() == all[i as int]);
        if ts == te || chars[ts] == '#' {
        } else if te - ts >= 5 && range_eq(&chars, ts, ts + 5, "name:") {
            let (ns, ne) = trim_range(&chars, ts + 5, te);
            assert(t.subrange(0, 5) =~= chars@.subrange(ts as int, ts + 5));
            assert(t.subrange(5, t.len() as int) =~= chars@.subrange(ts + 5, te as int));
            name = Some((ns, ne));
        } else {
            proof {
                reveal_strlit("name:");
                if t.len() >= 5 {
                    assert(t.subrange(0, 5) =~= chars@.subrange(ts as int, ts + 5));
                }
            }
            match parse_row(&chars, ts, te) {
                None => {
                    proof {
                        lemma_scan_error_sticks(all, i + 1, SdProfileError::ParseError);
                    }
                    return Err(SdProfileError::ParseError);
                },
                Some(step) => {
                    if steps.len() >= PROFILE_STEPS {
                        proof {
                            lemma_scan_error_sticks(all, i + 1, SdProfileError::InvalidFormat);
                        }
                        return Err(SdProfileError::InvalidFormat);
                    }
                    steps.push(step);
                },
            }
        }
        i = i + 1;
    }
    assert(all.subrange(0, i as int) =~= all);
    let profile_name: String = match name {
        Some((a, b)) => {
            if a < b {
                content.substring_char(a, b).to_owned()
            } else {
                default_profile_name(file_name).to_owned()
            }
        },
        None => default_profile_name(file_name).to_owned(),
    };
    if steps.len() != PROFILE_STEPS || profile_name.as_str().unicode_len() > PROFILE_NAME_MAX {
        return Err(SdProfileError::InvalidFormat);
    }
    Ok(Profile { name: profile_name, steps })
}

} // verus!
