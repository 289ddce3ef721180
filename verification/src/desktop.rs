//! Rules of the desktop shell: how it reads release versions and picks the
//! installer of a release, which files it runs and stores, and the preferences
//! it keeps.
use crate::text::{trim, trimmed};
use vstd::prelude::*;
use vstd::string::*;

verus! {

/// `s` without its leading `v` and `V` characters.
pub open spec fn strip_v(s: Seq<char>) -> Seq<char>
    decreases s.len(),
{
    if s.len() > 0 && (s[0] == 'v' || s[0] == 'V') {
        strip_v(s.drop_first())
    } else {
        s
    }
}

/// A version tag as compared: trimmed, without its leading `v` and `V`.
pub open spec fn normalized(s: Seq<char>) -> Seq<char> {
    strip_v(trim(s))
}

/// The dot-separated parts of `s`, as `str::split('.')` yields them: at least
/// one, possibly empty.
pub open spec fn dot_parts(s: Seq<char>) -> Seq<Seq<char>>
    decreases s.len(),
{
    if s.len() == 0 {
        seq![Seq::<char>::empty()]
    } else {
        let p = dot_parts(s.drop_last());
        if s.last() == '.' {
            p.push(Seq::<char>::empty())
        } else {
            p.update(p.len() - 1, p.last().push(s.last()))
        }
    }
}

pub open spec fn is_digit(c: char) -> bool {
    48 <= c as int <= 57
}

/// The number written by the decimal digits `d`.
pub open spec fn digits_value(d: Seq<char>) -> int
    decreases d.len(),
{
    if d.len() == 0 {
        0
    } else {
        digits_value(d.drop_last()) * 10 + (d.last() as int - 48)
    }
}

/// A version part without its optional leading `+`.
pub open spec fn digits_of(p: Seq<char>) -> Seq<char> {
    if p.len() > 0 && p[0] == '+' {
        p.drop_first()
    } else {
        p
    }
}

pub open spec fn all_digits(d: Seq<char>) -> bool {
    forall|i: int| 0 <= i < d.len() ==> is_digit(#[trigger] d[i])
}

/// What a version part counts as: the `u64` that `str::parse` reads from it
/// (decimal digits after an optional `+`), or 0 where it reads none.
pub open spec fn part_number(p: Seq<char>) -> int {
    let d = digits_of(p);
    if d.len() > 0 && all_digits(d) && digits_value(d) <= u64::MAX {
        digits_value(d)
    } else {
        0
    }
}

/// The numbers of a version tag, part by part.
pub open spec fn version_numbers(s: Seq<char>) -> Seq<int> {
    let parts = dot_parts(normalized(s));
    Seq::new(parts.len(), |i: int| part_number(parts[i]))
}

/// The `i`-th number of a version, 0 past its end.
pub open spec fn part_at(a: Seq<int>, i: int) -> int {
    if 0 <= i < a.len() {
        a[i]
    } else {
        0
    }
}

/// The comparison of two versions from their `i`-th numbers on: 1 when the
/// first is newer, -1 when older, 0 when equal; missing numbers count as 0.
pub open spec fn order_from(a: Seq<int>, b: Seq<int>, i: nat) -> int
    decreases (if a.len() > b.len() {
        a.len()
    } else {
        b.len()
    }) - i,
{
    if i >= a.len() && i >= b.len() {
        0
    } else if part_at(a, i as int) > part_at(b, i as int) {
        1
    } else if part_at(a, i as int) < part_at(b, i as int) {
        -1
    } else {
        order_from(a, b, i + 1)
    }
}

/// The comparison of two version tags: 1 when `left` is newer, -1 when older,
/// 0 when they name the same version.
pub open spec fn semver_order(left: Seq<char>, right: Seq<char>) -> int {
    order_from(version_numbers(left), version_numbers(right), 0)
}

proof fn lemma_strip_v_skip(s: Seq<char>, i: int)
    requires
        0 <= i <= s.len(),
        forall|k: int| 0 <= k < i ==> (#[trigger] s[k] == 'v' || s[k] == 'V'),
    ensures
        strip_v(s) == strip_v(s.subrange(i, s.len() as int)),
    decreases i,
{
    if i > 0 {
        let t = s.drop_first();
        assert(t =~= s.subrange(1, s.len() as int));
        assert forall|k: int| 0 <= k < i - 1 implies (#[trigger] t[k] == 'v' || t[k] == 'V') by {
            assert(t[k] == s[k + 1]);
        }
        lemma_strip_v_skip(t, i - 1);
        assert(t.subrange(i - 1, t.len() as int) =~= s.subrange(i, s.len() as int));
    } else {
        assert(s.subrange(0, s.len() as int) =~= s);
    }
}

/// A version tag trimmed and without its leading `v` and `V`.
pub fn normalize_version(value: &str) -> (r: String)
    ensures
        r@ == normalized(value@),
{
    let t = trimmed(value);
    let s = t.as_str();
    let n = s.unicode_len();
    let mut i: usize = 0;
    while i < n && (s.get_char(i) == 'v' || s.get_char(i) == 'V')
        invariant
            n == s@.len(),
            i <= n,
            forall|k: int| 0 <= k < i ==> (#[trigger] s@[k] == 'v' || s@[k] == 'V'),
        decreases n - i,
    {
        i = i + 1;
    }
    proof {
        lemma_strip_v_skip(s@, i as int);
    }
    s.substring_char(i, n).to_owned()
}

proof fn lemma_dot_parts_nonempty(s: Seq<char>)
    ensures
        dot_parts(s).len() >= 1,
    decreases s.len(),
{
    if s.len() > 0 {
        lemma_dot_parts_nonempty(s.drop_last());
    }
}

proof fn lemma_digits_value_nonnegative(d: Seq<char>)
    requires
        forall|i: int| 0 <= i < d.len() ==> is_digit(#[trigger] d[i]),
    ensures
        digits_value(d) >= 0,
    decreases d.len(),
{
    if d.len() > 0 {
        lemma_digits_value_nonnegative(d.drop_last());
    }
}

proof fn lemma_digits_value_grows(d: Seq<char>, k: int)
    requires
        0 <= k <= d.len(),
        forall|i: int| 0 <= i < d.len() ==> is_digit(#[trigger] d[i]),
    ensures
        digits_value(d.subrange(0, k)) <= digits_value(d),
    decreases d.len() - k,
{
    if k < d.len() {
        let e = d.drop_last();
        assert(e.subrange(0, k) =~= d.subrange(0, k));
        lemma_digits_value_grows(e, k);
        lemma_digits_value_nonnegative(e);
    } else {
        assert(d.subrange(0, k) =~= d);
    }
}

/// The number that the part `s[start..end]` counts as.
fn part_number_at(s: &str, start: usize, end: usize) -> (r: u64)
    requires
        start <= end <= s@.len(),
    ensures
        r == part_number(s@.subrange(start as int, end as int)),
{
    let ghost p = s@.subrange(start as int, end as int);
    let mut i = start;
    if i < end && s.get_char(i) == '+' {
        i = i + 1;
    }
    let ghost d = digits_of(p);
    assert(d =~= s@.subrange(i as int, end as int));
    if i == end {
        return 0;
    }
    let digits_start = i;
    let mut v: u64 = 0;
    let mut overflow = false;
    while i < end
        invariant
            digits_start <= i <= end <= s@.len(),
            p == s@.subrange(start as int, end as int),
            d == digits_of(p),
            d == s@.subrange(digits_start as int, end as int),
            forall|k: int| digits_start <= k < i ==> is_digit(#[trigger] s@[k]),
            !overflow ==> v == digits_value(s@.subrange(digits_start as int, i as int)),
            overflow ==> digits_value(s@.subrange(digits_start as int, i as int)) > u64::MAX,
        decreases end - i,
    {
        let c = s.get_char(i);
        let n = c as u32;
        if n < 48 || n > 57 {
            assert(!is_digit(d[i - digits_start]));
            assert(!all_digits(d));
            return 0;
        }
        let ghost before = s@.subrange(digits_start as int, i as int);
        let ghost after = s@.subrange(digits_start as int, i + 1);
        assert(after.drop_last() =~= before);
        assert(digits_value(after) == digits_value(before) * 10 + (n - 48));
        if !overflow {
            match v.checked_mul(10) {
                Some(m) => match m.checked_add((n - 48) as u64) {
                    Some(x) => {
                        v = x;
                    },
                    None => {
                        overflow = true;
                    },
                },
                None => {
                    overflow = true;
                },
            }
        }
        i = i + 1;
    }
    assert(s@.subrange(digits_start as int, end as int) =~= d);
    if overflow {
        return 0;
    }
    v
}

/// The numbers of the dot-separated parts of `s`.
fn part_numbers(s: &str) -> (r: Vec<u64>)
    ensures
        r@.len() == dot_parts(s@).len(),
        forall|i: int| 0 <= i < r@.len() ==> r@[i] == part_number(#[trigger] dot_parts(s@)[i]),
{
    let n = s.unicode_len();
    let mut values: Vec<u64> = Vec::new();
    let mut start: usize = 0;
    let mut i: usize = 0;
    assert(s@.subrange(0, 0) =~= Seq::<char>::empty());
    while i < n
        invariant
            n == s@.len(),
            start <= i <= n,
            values@.len() + 1 == dot_parts(s@.subrange(0, i as int)).len(),
            forall|j: int|
                0 <= j < values@.len() ==> values@[j] == part_number(
                    #[trigger] dot_parts(s@.subrange(0, i as int))[j],
                ),
            dot_parts(s@.subrange(0, i as int)).last() == s@.subrange(start as int, i as int),
        decreases n - i,
    {
        let ghost prefix = s@.subrange(0, i as int);
        let ghost next = s@.subrange(0, i + 1);
        assert(next.drop_last() =~= prefix);
        proof {
            lemma_dot_parts_nonempty(prefix);
        }
        if s.get_char(i) == '.' {
            let v = part_number_at(s, start, i);
            values.push(v);
            start = i + 1;
            assert(s@.subrange(start as int, i + 1) =~= Seq::<char>::empty());
        } else {
            assert(s@.subrange(start as int, i + 1) =~= s@.subrange(start as int, i as int).push(
                s@[i as int],
            ));
        }
        i = i + 1;
    }
    assert(s@.subrange(0, n as int) =~= s@);
    proof {
        lemma_dot_parts_nonempty(s@);
    }
    let v = part_number_at(s, start, n);
    values.push(v);
    values
}

/// Compares two version tags number by number, after trimming them and
/// dropping a leading `v`; a part that is not a number counts as 0, and so
/// does a missing one. 1: `left` is newer, -1: older, 0: the same.
pub fn compare_semver(left: &str, right: &str) -> (r: i32)
    ensures
        r == semver_order(left@, right@),
{
    let l = normalize_version(left);
    let rr = normalize_version(right);
    let a = part_numbers(l.as_str());
    let b = part_numbers(rr.as_str());
    let ghost va = version_numbers(left@);
    let ghost vb = version_numbers(right@);
    let len = if a.len() > b.len() {
        a.len()
    } else {
        b.len()
    };
    let mut index: usize = 0;
    while index < len
        invariant
            va == version_numbers(left@),
            vb == version_numbers(right@),
            a@.len() == va.len(),
            b@.len() == vb.len(),
            forall|i: int| 0 <= i < a@.len() ==> a@[i] == #[trigger] va[i],
            forall|i: int| 0 <= i < b@.len() ==> b@[i] == #[trigger] vb[i],
            len == (if a@.len() > b@.len() {
                a@.len()
            } else {
                b@.len()
            }),
            index <= len,
            order_from(va, vb, 0) == order_from(va, vb, index as nat),
        decreases len - index,
    {
        let left_part = if index < a.len() {
            a[index]
        } else {
            0
        };
        let right_part = if index < b.len() {
            b[index]
        } else {
            0
        };
        assert(left_part == part_at(va, index as int));
        assert(right_part == part_at(vb, index as int));
        proof {
            lemma_order_from_unfold(va, vb, index as nat);
        }
        if left_part > right_part {
            return 1;
        }
        if left_part < right_part {
            return -1;
        }
        index = index + 1;
    }
    0
}

/// Comparing two versions and comparing them the other way round give
/// opposite answers.
pub proof fn semver_antisymmetric(left: Seq<char>, right: Seq<char>)
    ensures
        semver_order(left, right) == -semver_order(right, left),
{
    lemma_order_from_antisymmetric(version_numbers(left), version_numbers(right), 0);
}

/// The number of the `k`-th dot-separated part of a version text, 0 past its
/// last part.
pub open spec fn number_at(parts: Seq<Seq<char>>, k: int) -> int {
    if 0 <= k < parts.len() {
        part_number(parts[k])
    } else {
        0
    }
}

/// The first part in which two versions differ decides their order, whichever
/// part that is: when the dot-separated parts of `left` and `right` (after the
/// `v` prefix and surrounding whitespace are dropped) have equal numbers before
/// part `i`, a missing part counting as 0, and different numbers at part `i`,
/// `left` is newer exactly when its part `i` is larger.
pub proof fn first_differing_part_decides(left: Seq<char>, right: Seq<char>, i: int)
    requires
        0 <= i,
        forall|k: int|
            0 <= k < i ==> #[trigger] number_at(dot_parts(normalized(left)), k) == number_at(
                dot_parts(normalized(right)),
                k,
            ),
        number_at(dot_parts(normalized(left)), i) != number_at(dot_parts(normalized(right)), i),
    ensures
        semver_order(left, right) == (if number_at(dot_parts(normalized(left)), i) > number_at(
            dot_parts(normalized(right)),
            i,
        ) {
            1int
        } else {
            -1int
        }),
{
    let pl = dot_parts(normalized(left));
    let pr = dot_parts(normalized(right));
    let a = version_numbers(left);
    let b = version_numbers(right);
    assert forall|k: int| #[trigger] part_at(a, k) == number_at(pl, k) by {}
    assert forall|k: int| #[trigger] part_at(b, k) == number_at(pr, k) by {}
    lemma_order_from_first_difference(a, b, 0, i);
}

proof fn lemma_order_from_first_difference(a: Seq<int>, b: Seq<int>, j: nat, i: int)
    requires
        j <= i,
        forall|k: int| j <= k < i ==> #[trigger] part_at(a, k) == part_at(b, k),
        part_at(a, i) != part_at(b, i),
    ensures
        order_from(a, b, j) == (if part_at(a, i) > part_at(b, i) {
            1int
        } else {
            -1int
        }),
    decreases i - j,
{
    if j < i {
        assert(part_at(a, j as int) == part_at(b, j as int));
        if j >= a.len() && j >= b.len() {
            assert(i >= a.len() && i >= b.len());
            assert(part_at(a, i) == 0 && part_at(b, i) == 0);
        } else {
            lemma_order_from_first_difference(a, b, j + 1, i);
        }
    } else {
        assert(!(i >= a.len() && i >= b.len()));
    }
}

proof fn lemma_order_from_antisymmetric(a: Seq<int>, b: Seq<int>, i: nat)
    ensures
        order_from(a, b, i) == -order_from(b, a, i),
    decreases (if a.len() > b.len() {
        a.len()
    } else {
        b.len()
    }) - i,
{
    if !(i >= a.len() && i >= b.len()) && part_at(a, i as int) == part_at(b, i as int) {
        lemma_order_from_antisymmetric(a, b, i + 1);
    }
}

/// A version compares equal to itself.
pub proof fn semver_reflexive(version: Seq<char>)
    ensures
        semver_order(version, version) == 0,
{
    lemma_order_from_reflexive(version_numbers(version), 0);
}

proof fn lemma_order_from_reflexive(a: Seq<int>, i: nat)
    ensures
        order_from(a, a, i) == 0,
    decreases a.len() - i,
{
    if i < a.len() {
        lemma_order_from_reflexive(a, i + 1);
    }
}

/// If one version is at least as new as a second, and the second at least as
/// new as a third, the first is at least as new as the third.
pub proof fn semver_transitive(a: Seq<char>, b: Seq<char>, c: Seq<char>)
    requires
        semver_order(a, b) >= 0,
        semver_order(b, c) >= 0,
    ensures
        semver_order(a, c) >= 0,
{
    lemma_order_from_transitive(version_numbers(a), version_numbers(b), version_numbers(c), 0);
}

proof fn lemma_order_from_transitive(a: Seq<int>, b: Seq<int>, c: Seq<int>, i: nat)
    requires
        order_from(a, b, i) >= 0,
        order_from(b, c, i) >= 0,
    ensures
        order_from(a, c, i) >= 0,
    decreases (a.len() + b.len() + c.len()) - i,
{
    if i >= a.len() && i >= b.len() && i >= c.len() {
    } else if part_at(a, i as int) == part_at(b, i as int) && part_at(b, i as int) == part_at(
        c,
        i as int,
    ) {
        lemma_order_from_unfold(a, b, i);
        lemma_order_from_unfold(b, c, i);
        lemma_order_from_unfold(a, c, i);
        lemma_order_from_transitive(a, b, c, i + 1);
    } else {
        lemma_order_from_unfold(a, b, i);
        lemma_order_from_unfold(b, c, i);
        lemma_order_from_unfold(a, c, i);
    }
}

/// One step of `order_from`, also where both versions have ended.
proof fn lemma_order_from_unfold(a: Seq<int>, b: Seq<int>, i: nat)
    ensures
        part_at(a, i as int) > part_at(b, i as int) ==> order_from(a, b, i) == 1,
        part_at(a, i as int) < part_at(b, i as int) ==> order_from(a, b, i) == -1,
        part_at(a, i as int) == part_at(b, i as int) ==> order_from(a, b, i) == order_from(
            a,
            b,
            i + 1,
        ),
{
    if i >= a.len() && i >= b.len() {
        assert(order_from(a, b, i + 1) == 0);
    }
}

/// Whether the character `c` matches the pattern character `p`; with `fold`,
/// an ASCII capital letter also matches its lowercase `p`.
pub open spec fn char_matches(c: char, p: char, fold: bool) -> bool {
    c == p || (fold && 97 <= p as int <= 122 && c as int == p as int - 32)
}

/// Whether `pattern` occurs in `s` at position `i`.
pub open spec fn occurs_at(s: Seq<char>, pattern: Seq<char>, i: int, fold: bool) -> bool {
    &&& 0 <= i
    &&& i + pattern.len() <= s.len()
    &&& forall|k: int|
        0 <= k < pattern.len() ==> char_matches(#[trigger] s[i + k], pattern[k], fold)
}

/// Whether `pattern` occurs anywhere in `s`.
pub open spec fn occurs(s: Seq<char>, pattern: Seq<char>, fold: bool) -> bool {
    exists|i: int| occurs_at(s, pattern, i, fold)
}

/// Whether `s` ends with `pattern`.
pub open spec fn ends_with(s: Seq<char>, pattern: Seq<char>, fold: bool) -> bool {
    pattern.len() <= s.len() && occurs_at(s, pattern, s.len() - pattern.len(), fold)
}

fn char_matches_exec(c: char, p: char, fold: bool) -> (r: bool)
    ensures
        r == char_matches(c, p, fold),
{
    let (n, m) = (c as u32, p as u32);
    n == m || (fold && 97 <= m && m <= 122 && n + 32 == m)
}

fn occurs_at_exec(s: &str, pattern: &str, i: usize, fold: bool) -> (r: bool)
    ensures
        r == occurs_at(s@, pattern@, i as int, fold),
{
    let n = s.unicode_len();
    let m = pattern.unicode_len();
    if i > n || m > n - i {
        return false;
    }
    let mut k: usize = 0;
    while k < m
        invariant
            n == s@.len(),
            m == pattern@.len(),
            i + m <= n,
            k <= m,
            forall|j: int| 0 <= j < k ==> char_matches(#[trigger] s@[i + j], pattern@[j], fold),
        decreases m - k,
    {
        if !char_matches_exec(s.get_char(i + k), pattern.get_char(k), fold) {
            return false;
        }
        k = k + 1;
    }
    true
}

fn occurs_exec(s: &str, pattern: &str, fold: bool) -> (r: bool)
    ensures
        r == occurs(s@, pattern@, fold),
{
    let n = s.unicode_len();
    let mut i: usize = 0;
    loop
        invariant
            n == s@.len(),
            i <= n,
            forall|j: int| 0 <= j < i ==> !occurs_at(s@, pattern@, j, fold),
        decreases n - i,
    {
        if occurs_at_exec(s, pattern, i, fold) {
            return true;
        }
        if i == n {
            assert forall|j: int| !occurs_at(s@, pattern@, j, fold) by {
                if occurs_at(s@, pattern@, j, fold) {
                    assert(j <= i);
                }
            }
            return false;
        }
        i = i + 1;
    }
}

fn ends_with_exec(s: &str, pattern: &str, fold: bool) -> (r: bool)
    ensures
        r == ends_with(s@, pattern@, fold),
{
    let n = s.unicode_len();
    let m = pattern.unicode_len();
    if m > n {
        return false;
    }
    occurs_at_exec(s, pattern, n - m, fold)
}

/// Whether an asset of a release is the Windows x64 installer: its name,
/// ignoring ASCII case, ends with `.exe` and contains `x64` and `setup`.
pub fn is_windows_x64_installer(name: &str) -> (r: bool)
    ensures
        r == (ends_with(name@, ".exe"@, true) && occurs(name@, "x64"@, true) && occurs(
            name@,
            "setup"@,
            true,
        )),
{
    ends_with_exec(name, ".exe", true) && occurs_exec(name, "x64", true) && occurs_exec(
        name,
        "setup",
        true,
    )
}

/// Whether the body of an answer to the health request reports that the
/// server is up: it holds `"status":"ok"`, with or without a space.
pub fn reports_healthy(body: &str) -> (r: bool)
    ensures
        r == (occurs(body@, "\"status\":\"ok\""@, false) || occurs(
            body@,
            "\"status\": \"ok\""@,
            false,
        )),
{
    occurs_exec(body, "\"status\":\"ok\"", false) || occurs_exec(body, "\"status\": \"ok\"", false)
}

/// Whether an installer may be downloaded from `url`: only from GitHub and its
/// release hosts, over HTTPS.
pub fn is_release_download(url: &str) -> (r: bool)
    ensures
        r == (occurs_at(url@, "https://github.com/"@, 0, false) || occurs_at(
            url@,
            "https://objects.githubusercontent.com/"@,
            0,
            false,
        ) || occurs_at(url@, "https://release-assets.githubusercontent.com/"@, 0, false)),
{
    occurs_at_exec(url, "https://github.com/", 0, false) || occurs_at_exec(
        url,
        "https://objects.githubusercontent.com/",
        0,
        false,
    ) || occurs_at_exec(url, "https://release-assets.githubusercontent.com/", 0, false)
}

/// Whether `target` is a page of the project's repository, which the shell
/// opens in the browser.
pub fn is_project_page(target: &str) -> (r: bool)
    ensures
        r == occurs_at(target@, "https://github.com/sebastian-wong0412/Forge"@, 0, false),
{
    occurs_at_exec(target, "https://github.com/sebastian-wong0412/Forge", 0, false)
}

/// The file name a downloaded installer is saved under: the last segment of
/// its address when that ends in `.exe` (ignoring ASCII case), else
/// `Forge-setup.exe`.
pub fn installer_file_name(last_segment: Option<&str>) -> (r: String)
    ensures
        r@ == match last_segment {
            Some(name) => if ends_with(name@, ".exe"@, true) {
                name@
            } else {
                "Forge-setup.exe"@
            },
            None => "Forge-setup.exe"@,
        },
{
    match last_segment {
        Some(name) => {
            if ends_with_exec(name, ".exe", true) {
                return name.to_owned();
            }
        },
        None => {},
    }
    String::from_str("Forge-setup.exe")
}

/// The database file of the desktop shell: a separate one for debug builds.
pub fn database_file_name(debug: bool) -> (r: &'static str)
    ensures
        r@ == (if debug {
            "forge-dev.db"@
        } else {
            "forge.db"@
        }),
{
    if debug {
        "forge-dev.db"
    } else {
        "forge.db"
    }
}

/// The file name of the server executable that the shell runs beside it,
/// with the target triple when given, and `.exe` on Windows.
pub fn sidecar_file_name(triple: Option<&str>, windows: bool) -> (r: String)
    ensures
        r@ == "forge-server"@ + match triple {
            Some(t) => "-"@ + t@,
            None => Seq::<char>::empty(),
        } + if windows {
            ".exe"@
        } else {
            Seq::<char>::empty()
        },
{
    let mut name = String::from_str("forge-server");
    match triple {
        Some(t) => {
            name.append("-");
            name.append(t);
        },
        None => {},
    }
    if windows {
        name.append(".exe");
    }
    name
}

/// The decimal digits of `n`.
pub open spec fn decimal(n: nat) -> Seq<char>
    decreases n,
{
    if n < 10 {
        seq![(48 + n) as char]
    } else {
        decimal(n / 10).push((48 + n % 10) as char)
    }
}

fn digit_text(d: u32) -> (r: &'static str)
    requires
        d < 10,
    ensures
        r@ == seq![(48 + d) as char],
{
    proof {
        reveal_strlit("0");
        reveal_strlit("1");
        reveal_strlit("2");
        reveal_strlit("3");
        reveal_strlit("4");
        reveal_strlit("5");
        reveal_strlit("6");
        reveal_strlit("7");
        reveal_strlit("8");
        reveal_strlit("9");
    }
    match d {
        0 => "0",
        1 => "1",
        2 => "2",
        3 => "3",
        4 => "4",
        5 => "5",
        6 => "6",
        7 => "7",
        8 => "8",
        _ => "9",
    }
}

fn decimal_text(n: u32) -> (r: String)
    ensures
        r@ == decimal(n as nat),
    decreases n,
{
    if n < 10 {
        String::from_str(digit_text(n))
    } else {
        let mut s = decimal_text(n / 10);
        s.append(digit_text(n % 10));
        s
    }
}

/// The name that a download takes when `stem.ext` is taken: the `index`-th
/// numbered variant, `stem-index.ext`.
pub fn numbered_file_name(stem: &str, index: u32, ext: &str) -> (r: String)
    ensures
        r@ == stem@ + "-"@ + decimal(index as nat) + "."@ + ext@,
{
    let mut name = String::from_str(stem);
    name.append("-");
    let digits = decimal_text(index);
    name.append(digits.as_str());
    name.append(".");
    name.append(ext);
    name
}

/// The language the desktop shell shows.
#[derive(Debug, Clone, Copy, PartialEq, Eq, Structural)]
pub enum LanguagePreference {
    System,
    Zh,
    En,
}

impl Default for LanguagePreference {
    fn default() -> (r: Self)
        ensures
            r == LanguagePreference::System,
    {
        LanguagePreference::System
    }
}

/// The colour theme of the desktop shell.
#[derive(Debug, Clone, Copy, PartialEq, Eq, Structural)]
pub enum ThemePreference {
    System,
    Dark,
}

impl Default for ThemePreference {
    fn default() -> (r: Self)
        ensures
            r == ThemePreference::System,
    {
        ThemePreference::System
    }
}

/// The settings the desktop shell keeps between runs.
#[derive(Debug, Clone, Copy, PartialEq, Eq, Structural)]
pub struct Preferences {
    pub language: LanguagePreference,
    pub theme: ThemePreference,
}

impl Default for Preferences {
    /// Follow the system for both language and theme.
    fn default() -> (r: Self)
        ensures
            r == (Preferences { language: LanguagePreference::System, theme: ThemePreference::System }),
    {
        Preferences { language: LanguagePreference::System, theme: ThemePreference::System }
    }
}

/// An asset of a published release.
pub struct ReleaseAsset {
    pub name: String,
    pub browser_download_url: String,
}

/// What a check for updates reports.
pub struct UpdateCheck {
    pub current_version: String,
    pub latest_version: String,
    pub notes: String,
    pub up_to_date: bool,
    pub asset_name: Option<String>,
    pub download_url: Option<String>,
}

/// Whether a file name is that of the Windows x64 installer.
pub open spec fn installer_name(name: Seq<char>) -> bool {
    ends_with(name, ".exe"@, true) && occurs(name, "x64"@, true) && occurs(name, "setup"@, true)
}

/// `assets[k]` is the first installer among `assets`.
pub open spec fn first_installer(assets: Seq<ReleaseAsset>, k: int) -> bool {
    &&& 0 <= k < assets.len()
    &&& installer_name(assets[k].name@)
    &&& forall|j: int| 0 <= j < k ==> !installer_name(#[trigger] assets[j].name@)
}

/// What the check for updates reports on the latest release, given the running
/// version: a release without a tag is refused as `invalid`; otherwise the
/// latest version is the normalized tag, the notes are the trimmed body, the
/// installer is the first Windows x64 one, and the running version is up to
/// date when it is at least as new as the latest.
pub fn update_check(
    current: &str,
    tag_name: &str,
    body: Option<String>,
    assets: Vec<ReleaseAsset>,
) -> (r: Result<UpdateCheck, String>)
    ensures
        trim(tag_name@).len() == 0 ==> (r matches Err(m) && m@ == "invalid"@),
        trim(tag_name@).len() > 0 ==> r is Ok,
        r matches Ok(u) ==> ({
            &&& u.current_version@ == current@
            &&& u.latest_version@ == normalized(tag_name@)
            &&& u.notes@ == trim(
                match body {
                    Some(b) => b@,
                    None => Seq::<char>::empty(),
                },
            )
            &&& u.up_to_date == (semver_order(current@, normalized(tag_name@)) >= 0)
            &&& u.asset_name is Some <==> exists|k: int| first_installer(assets@, k)
            &&& u.asset_name is Some ==> (exists|k: int|
                first_installer(assets@, k) && u.asset_name->Some_0@ == assets@[k].name@
                    && u.download_url->Some_0@ == assets@[k].browser_download_url@)
            &&& u.asset_name is None ==> u.download_url is None
        }),
{
    if trimmed(tag_name).as_str().is_empty() {
        return Err(String::from_str("invalid"));
    }
    let latest = normalize_version(tag_name);
    proof {
        reveal_strlit("");
    }
    let notes = match body {
        Some(b) => trimmed(b.as_str()),
        None => trimmed(""),
    };
    let up_to_date = compare_semver(current, latest.as_str()) >= 0;
    let mut assets = assets;
    let ghost all = assets@;
    let n = assets.len();
    let mut k: usize = 0;
    let mut found: Option<ReleaseAsset> = None;
    while assets.len() > 0
        invariant_except_break
            all.len() == n,
            k + assets@.len() == all.len(),
            assets@ == all.subrange(k as int, all.len() as int),
            found is None,
        invariant
            forall|j: int| 0 <= j < k ==> !installer_name(#[trigger] all[j].name@),
        ensures
            found is None ==> k == all.len(),
            found matches Some(a) ==> first_installer(all, k as int) && a == all[k as int],
        decreases assets@.len(),
    {
        let asset = assets.remove(0);
        assert(asset == all[k as int]);
        if is_windows_x64_installer(asset.name.as_str()) {
            found = Some(asset);
            break;
        }
        k = k + 1;
    }
    let ghost chosen = found;
    let (asset_name, download_url) = match found {
        Some(a) => (Some(a.name), Some(a.browser_download_url)),
        None => {
            assert forall|j: int| !first_installer(all, j) by {
                if first_installer(all, j) {
                    assert(!installer_name(all[j].name@));
                }
            }
            (None, None)
        },
    };
    proof {
        if chosen is Some {
            assert(first_installer(all, k as int));
        }
    }
    Ok(
        UpdateCheck {
            current_version: String::from_str(current),
            latest_version: latest,
            notes,
            up_to_date,
            asset_name,
            download_url,
        },
    )
}

/// How long the desktop shell waits for the server it started to answer, in
/// milliseconds.
pub const READY_TIMEOUT_MS: u64 = 20000;

/// How long the desktop shell pauses between two health probes, in
/// milliseconds.
pub const POLL_INTERVAL_MS: u64 = 100;

/// Where bringing up the desktop shell's server stands.
#[derive(Clone, Copy, Debug)]
pub enum Startup {
    /// Nothing was started yet: a server may already be answering.
    Probing,
    /// The server was started this many milliseconds ago.
    Waiting { elapsed_ms: u64 },
}

/// What the desktop shell does next while it brings its server up.
#[derive(Debug)]
pub enum StartupAction {
    /// The server answers: the shell goes on.
    Ready,
    /// Start the server, then wait for it.
    Spawn,
    /// Pause this long, then probe again.
    Retry { after_ms: u64 },
    /// Stop waiting and report this message.
    GiveUp { message: String },
}

/// The report of a server that did not answer in time.
pub open spec fn not_ready_message() -> Seq<char> {
    "backend did not become ready at http://127.0.0.1:17340 within 20s"@
}

/// Whether the shell probes the server's health at `stage`: always before
/// starting it, and afterwards only until the wait runs out.
pub fn needs_probe(stage: Startup) -> (r: bool)
    ensures
        r == match stage {
            Startup::Probing => true,
            Startup::Waiting { elapsed_ms } => elapsed_ms < READY_TIMEOUT_MS,
        },
{
    match stage {
        Startup::Probing => true,
        Startup::Waiting { elapsed_ms } => elapsed_ms < READY_TIMEOUT_MS,
    }
}

/// The next move of bringing the server up, from where it stands and whether
/// the last probe found it answering: a server that already answers is used
/// as it is, otherwise one is started and probed every `POLL_INTERVAL_MS`
/// until it answers or `READY_TIMEOUT_MS` have passed.
pub fn startup_step(stage: Startup, healthy: bool) -> (r: StartupAction)
    ensures
        match stage {
            Startup::Probing => if healthy {
                r is Ready
            } else {
                r is Spawn
            },
            Startup::Waiting { elapsed_ms } => if elapsed_ms >= READY_TIMEOUT_MS {
                r matches StartupAction::GiveUp { message } && message@ == not_ready_message()
            } else if healthy {
                r is Ready
            } else {
                r matches StartupAction::Retry { after_ms } && after_ms == POLL_INTERVAL_MS
            },
        },
{
    match stage {
        Startup::Probing => if healthy {
            StartupAction::Ready
        } else {
            StartupAction::Spawn
        },
        Startup::Waiting { elapsed_ms } => if elapsed_ms >= READY_TIMEOUT_MS {
            StartupAction::GiveUp {
                message: String::from_str(
                    "backend did not become ready at http://127.0.0.1:17340 within 20s",
                ),
            }
        } else if healthy {
            StartupAction::Ready
        } else {
            StartupAction::Retry { after_ms: POLL_INTERVAL_MS }
        },
    }
}

/// The report of a server executable found at none of the places looked at.
pub fn sidecar_missing_message(adjacent: &str, with_triple: &str, dev_path: &str) -> (r: String)
    ensures
        r@ == "backend executable not found (looked for `"@ + adjacent@ + "`, `"@ + with_triple@
            + "`, `"@ + dev_path@ + "`)"@,
{
    let mut s = String::from_str("backend executable not found (looked for `");
    s.append(adjacent);
    s.append("`, `");
    s.append(with_triple);
    s.append("`, `");
    s.append(dev_path);
    s.append("`)");
    s
}

/// What choosing a free file name for a download does next.
#[derive(Clone, Copy, Debug, PartialEq, Eq, Structural)]
pub enum NameChoice {
    /// Take the name just probed.
    Take,
    /// Probe the numbered variant with this index.
    TryNumbered { index: u32 },
    /// Every variant up to 999 is taken: keep the plain name.
    KeepPlain,
}

/// The next move of choosing a free name for a download: the plain name when
/// it is free, else the numbered variants from 2 up to 999 in turn, taking the
/// first free one; if all are taken, the plain name after all. `probed` is the
/// variant just probed (`None` for the plain name) and `taken` whether a file
/// of that name exists.
pub fn next_name(probed: Option<u32>, taken: bool) -> (r: NameChoice)
    ensures
        !taken ==> r == NameChoice::Take,
        taken ==> r == match probed {
            None => NameChoice::TryNumbered { index: 2 },
            Some(i) => if i < 999 {
                NameChoice::TryNumbered { index: (i + 1) as u32 }
            } else {
                NameChoice::KeepPlain
            },
        },
{
    if !taken {
        return NameChoice::Take;
    }
    match probed {
        None => NameChoice::TryNumbered { index: 2 },
        Some(i) => if i < 999 {
            NameChoice::TryNumbered { index: i + 1 }
        } else {
            NameChoice::KeepPlain
        },
    }
}

} // verus!
