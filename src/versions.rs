use vstd::prelude::*;

use crate::errors::CommandError;
use crate::naming::{replace, replace_char};
use crate::text::{join, join3};

verus! {

/// The text with leading and trailing white space removed.
pub uninterp spec fn trim_of(s: Seq<char>) -> Seq<char>;

/// Relies on `str::trim`: removes leading and trailing Unicode white space;
/// the result depends on the characters alone, and the empty text stays
/// empty.
#[verifier::external_body]
fn trim(s: &str) -> (r: String)
    ensures
        r@ == trim_of(s@),
        s@.len() == 0 ==> r@.len() == 0,
{
    s.trim().to_string()
}

/// Index of the first dot of `s`, or its length when it has none.
pub open spec fn dot_index(s: Seq<char>) -> nat
    decreases s.len(),
{
    if s.len() == 0 || s[0] == '.' {
        0
    } else {
        1 + dot_index(s.drop_first())
    }
}

proof fn lemma_dot_index(s: Seq<char>)
    ensures
        dot_index(s) <= s.len(),
    decreases s.len(),
{
    if s.len() > 0 && s[0] != '.' {
        lemma_dot_index(s.drop_first());
    }
}

/// `s` cut at its dots into at most `n` pieces; the last piece keeps the
/// remaining dots.
pub open spec fn split_dots(s: Seq<char>, n: nat) -> Seq<Seq<char>>
    decreases n,
{
    if n <= 1 || dot_index(s) == s.len() {
        seq![s]
    } else {
        seq![s.take(dot_index(s) as int)] + split_dots(s.skip(dot_index(s) as int + 1), (n - 1) as nat)
    }
}

proof fn lemma_split_dots_len(s: Seq<char>, n: nat)
    requires
        n >= 1,
    ensures
        1 <= split_dots(s, n).len() <= n,
    decreases n,
{
    if !(n <= 1 || dot_index(s) == s.len()) {
        lemma_split_dots_len(s.skip(dot_index(s) as int + 1), (n - 1) as nat);
    }
}

fn find_dot(s: &str) -> (r: usize)
    ensures
        r == dot_index(s@),
{
    let n = s.unicode_len();
    let mut i: usize = 0;
    assert(s@.skip(0) =~= s@);
    while i < n && s.get_char(i) != '.'
        invariant
            n == s@.len(),
            i <= n,
            dot_index(s@) == i + dot_index(s@.skip(i as int)),
        decreases n - i,
    {
        assert(s@.skip(i as int).drop_first() =~= s@.skip(i + 1));
        i = i + 1;
    }
    i
}

fn split_version(s: &str) -> (r: Vec<String>)
    ensures
        r@.map_values(|x: String| x@) == split_dots(s@, 4),
{
    let mut out: Vec<String> = Vec::new();
    let mut rest = String::from_str(s);
    let mut n: usize = 4;
    let mut done = false;
    while !done
        invariant
            1 <= n <= 4,
            done ==> out@.map_values(|x: String| x@) == split_dots(s@, 4),
            !done ==> out@.map_values(|x: String| x@) + split_dots(rest@, n as nat) == split_dots(
                s@,
                4,
            ),
        decreases (if done {
            0
        } else {
            n
        }),
    {
        let ghost before = out@.map_values(|x: String| x@);
        let len = rest.as_str().unicode_len();
        let k = find_dot(rest.as_str());
        proof {
            lemma_dot_index(rest@);
        }
        if n <= 1 || k == len {
            out.push(rest.clone());
            assert(out@.map_values(|x: String| x@) =~= before + split_dots(rest@, n as nat));
            done = true;
        } else {
            let head = String::from_str(rest.as_str().substring_char(0, k));
            let tail = String::from_str(rest.as_str().substring_char(k + 1, len));
            out.push(head);
            assert(out@.map_values(|x: String| x@) =~= before + seq![rest@.take(k as int)]);
            assert(tail@ =~= rest@.skip(k + 1));
            assert(split_dots(rest@, n as nat) == seq![rest@.take(k as int)] + split_dots(
                tail@,
                (n - 1) as nat,
            ));
            assert(before + split_dots(rest@, n as nat) =~= out@.map_values(|x: String| x@)
                + split_dots(tail@, (n - 1) as nat));
            rest = tail;
            n = n - 1;
        }
    }
    out
}

/// A version number as databases publish them: not always SemVer, so the
/// parts are kept as text.
#[derive(Clone, Debug, PartialEq)]
pub struct VersionsNumber {
    pub major: String,
    pub minor: Option<String>,
    pub patch: Option<String>,
    pub suffix: Option<String>,
}

pub open spec fn opt_view(o: Option<String>) -> Option<Seq<char>> {
    match o {
        Some(x) => Some(x@),
        None => None,
    }
}

/// The four parts of a version number.
pub type VersionParts = (Seq<char>, Option<Seq<char>>, Option<Seq<char>>, Option<Seq<char>>);

pub open spec fn parts_of(v: VersionsNumber) -> VersionParts {
    (v.major@, opt_view(v.minor), opt_view(v.patch), opt_view(v.suffix))
}

pub open spec fn piece(p: Seq<Seq<char>>, i: int) -> Option<Seq<char>> {
    if i < p.len() {
        Some(trim_of(p[i]))
    } else {
        None
    }
}

/// How a version text reads: `None` for a blank text; otherwise the text is
/// cut at its first three dots, each piece trimmed, `v` dropped from the
/// major part and `+` from the minor part.
pub open spec fn parse_version_spec(v: Seq<char>) -> Option<VersionParts> {
    if trim_of(v).len() == 0 {
        None
    } else {
        let p = split_dots(v, 4);
        Some(
            (
                replace_char(trim_of(p[0]), 'v', ""@),
                match piece(p, 1) {
                    Some(m) => Some(replace_char(m, '+', ""@)),
                    None => None,
                },
                piece(p, 2),
                piece(p, 3),
            ),
        )
    }
}

pub open spec fn dotted(o: Option<String>) -> Seq<char> {
    match o {
        Some(x) => "."@ + x@,
        None => Seq::empty(),
    }
}

/// The text of a version number: its parts joined by dots.
pub open spec fn version_text(v: VersionsNumber) -> Seq<char> {
    v.major@ + dotted(v.minor) + dotted(v.patch) + dotted(v.suffix)
}

impl VersionsNumber {
    pub fn new(major: String, minor: Option<String>, patch: Option<String>, suffix: Option<String>) -> (r:
        Self)
        ensures
            r == (VersionsNumber { major, minor, patch, suffix }),
    {
        VersionsNumber { major, minor, patch, suffix }
    }

    /// The parts present, joined by dots.
    pub fn to_string(&self) -> (r: String)
        ensures
            r@ == version_text(*self),
    {
        let mut s = self.major.clone();
        match &self.minor {
            Some(m) => {
                s.append(".");
                s.append(m.as_str());
            },
            None => {},
        }
        match &self.patch {
            Some(p) => {
                s.append(".");
                s.append(p.as_str());
            },
            None => {},
        }
        match &self.suffix {
            Some(x) => {
                s.append(".");
                s.append(x.as_str());
            },
            None => {},
        }
        s
    }

    pub fn to_major_version_string(&self) -> (r: String)
        ensures
            r@ == self.major@,
    {
        self.major.clone()
    }

    pub fn to_major_minor_version_string(&self, default_minor: &str) -> (r: String)
        ensures
            r@ == self.major@ + "."@ + match self.minor {
                Some(m) => m@,
                None => default_minor@,
            },
    {
        match &self.minor {
            Some(m) => join3(self.major.as_str(), ".", m.as_str()),
            None => join3(self.major.as_str(), ".", default_minor),
        }
    }

    /// Reads a version text; a blank text is refused.
    pub fn from_str(version: &str) -> (r: Result<Self, CommandError>)
        ensures
            r is Err <==> parse_version_spec(version@) is None,
            r matches Ok(v) ==> Some(parts_of(v)) == parse_version_spec(version@),
            r matches Err(e) ==> e.message_safe@ == "version cannot be empty"@ && e.message_raw is None,
    {
        let whole = trim(version);
        if whole.as_str().unicode_len() == 0 {
            return Err(
                CommandError::new_from_safe_message(String::from_str("version cannot be empty")),
            );
        }
        let pieces = split_version(version);
        proof {
            lemma_split_dots_len(version@, 4);
            assert(pieces@.len() == split_dots(version@, 4).len());
        }
        let ghost p = split_dots(version@, 4);
        assert(forall|i: int| 0 <= i < pieces@.len() ==> pieces@[i]@ == p[i]);
        let major_trimmed = trim(pieces[0].as_str());
        let major = replace(major_trimmed.as_str(), 'v', "");
        let minor = if pieces.len() > 1 {
            let t = trim(pieces[1].as_str());
            Some(replace(t.as_str(), '+', ""))
        } else {
            None
        };
        let patch = if pieces.len() > 2 {
            Some(trim(pieces[2].as_str()))
        } else {
            None
        };
        let suffix = if pieces.len() > 3 {
            Some(trim(pieces[3].as_str()))
        } else {
            None
        };
        Ok(VersionsNumber::new(major, minor, patch, suffix))
    }
}

pub open spec fn digit_char(d: int) -> char {
    seq!['0', '1', '2', '3', '4', '5', '6', '7', '8', '9'][d]
}

pub open spec fn digits(n: nat) -> Seq<char>
    decreases n,
{
    if n < 10 {
        seq![digit_char(n as int)]
    } else {
        digits(n / 10).push(digit_char((n % 10) as int))
    }
}

/// The decimal text of an integer, with a minus sign when negative.
pub open spec fn decimal_text(v: int) -> Seq<char> {
    if v < 0 {
        seq!['-'] + digits((-v) as nat)
    } else {
        digits(v as nat)
    }
}

/// Relies on the `Display` of `i32`, through `ToString`: the decimal digits
/// of the value, after a minus sign when it is negative.
#[verifier::external_body]
fn int_text(v: i32) -> (r: String)
    ensures
        r@ == decimal_text(v as int),
{
    v.to_string()
}

pub open spec fn key2(major: int, minor: int) -> Seq<char> {
    decimal_text(major) + "."@ + decimal_text(minor)
}

pub open spec fn key3(major: int, minor: int, update: int) -> Seq<char> {
    key2(major, minor) + "."@ + decimal_text(update)
}

fn key2_text(major: i32, minor: i32) -> (r: String)
    ensures
        r@ == key2(major as int, minor as int),
{
    let a = int_text(major);
    let b = int_text(minor);
    join3(a.as_str(), ".", b.as_str())
}

fn key3_text(major: i32, minor: i32, update: i32) -> (r: String)
    ensures
        r@ == key3(major as int, minor as int, update as int),
{
    let a = key2_text(major, minor);
    let c = int_text(update);
    join3(a.as_str(), ".", c.as_str())
}

/// Requested versions and what each resolves to. When a version is listed
/// twice the later entry wins, as a map that is written in order would
/// keep it.
pub type Entries = Seq<(Seq<char>, Seq<char>)>;

pub open spec fn entries_view(v: Seq<(String, String)>) -> Entries {
    v.map_values(|e: (String, String)| (e.0@, e.1@))
}

/// What `key` resolves to: the last entry for it.
pub open spec fn lookup(entries: Entries, key: Seq<char>) -> Option<Seq<char>>
    decreases entries.len(),
{
    if entries.len() == 0 {
        None
    } else if entries.last().0 == key {
        Some(entries.last().1)
    } else {
        lookup(entries.drop_last(), key)
    }
}

/// `M.m.u` resolving to itself with the suffix, for `u` from `lo` to `hi`.
pub open spec fn update_entries(major: int, minor: int, lo: int, hi: int, suffix: Seq<char>) -> Entries
    decreases hi - lo + 1,
{
    if hi < lo {
        Seq::empty()
    } else {
        update_entries(major, minor, lo, hi - 1, suffix).push(
            (key3(major, minor, hi), key3(major, minor, hi) + suffix),
        )
    }
}

/// For each minor `m` from `lo` to `hi`: `M.m` resolving to its last
/// update, then each of its updates.
pub open spec fn minor_entries(
    major: int,
    lo: int,
    hi: int,
    update_lo: int,
    update_hi: int,
    suffix: Seq<char>,
) -> Entries
    decreases hi - lo + 1,
{
    if hi < lo {
        Seq::empty()
    } else {
        minor_entries(major, lo, hi - 1, update_lo, update_hi, suffix).push(
            (key2(major, hi), key3(major, hi, update_hi)),
        ) + update_entries(major, hi, update_lo, update_hi, suffix)
    }
}

/// `M.m` resolving to itself with the suffix, for `m` from `lo` to `hi`.
pub open spec fn plain_minor_entries(major: int, lo: int, hi: int, suffix: Seq<char>) -> Entries
    decreases hi - lo + 1,
{
    if hi < lo {
        Seq::empty()
    } else {
        plain_minor_entries(major, lo, hi - 1, suffix).push(
            (key2(major, hi), key2(major, hi) + suffix),
        )
    }
}

/// The versions of one major line: each minor (and each of its updates,
/// when updates are given), then the major alone resolving to the latest.
pub open spec fn generated_entries(
    major: int,
    minor_min: int,
    minor_max: int,
    updates: Option<(int, int)>,
    suffix: Seq<char>,
) -> Entries {
    match updates {
        Some((update_min, update_max)) => {
            let latest = key3(major, minor_max, update_max) + suffix;
            let body = if minor_min == minor_max {
                seq![(key2(major, minor_max), latest)] + update_entries(
                    major,
                    minor_min,
                    update_min,
                    update_max,
                    suffix,
                )
            } else {
                minor_entries(major, minor_min, minor_max, update_min, update_max, suffix)
            };
            body.push((decimal_text(major), latest))
        },
        None => {
            let latest = key2(major, minor_max) + suffix;
            plain_minor_entries(major, minor_min, minor_max, suffix).push(
                (decimal_text(major), latest),
            )
        },
    }
}

fn push_entry(out: &mut Vec<(String, String)>, key: String, value: String)
    ensures
        entries_view(final(out)@) == entries_view(old(out)@).push((key@, value@)),
{
    out.push((key, value));
    assert(entries_view(out@) =~= entries_view(old(out)@).push((key@, value@)));
}

fn push_updates(
    out: &mut Vec<(String, String)>,
    major: i32,
    minor: i32,
    lo: i32,
    hi: i32,
    suffix: &str,
)
    ensures
        entries_view(final(out)@) == entries_view(old(out)@) + update_entries(
            major as int,
            minor as int,
            lo as int,
            hi as int,
            suffix@,
        ),
{
    let ghost start = entries_view(out@);
    if lo > hi {
        assert(entries_view(out@) =~= start + update_entries(
            major as int,
            minor as int,
            lo as int,
            hi as int,
            suffix@,
        ));
        return;
    }
    let mut u: i64 = lo as i64;
    assert(entries_view(out@) =~= start + update_entries(
        major as int,
        minor as int,
        lo as int,
        lo - 1,
        suffix@,
    ));
    while u <= hi as i64
        invariant
            lo <= u <= hi + 1,
            entries_view(out@) == start + update_entries(
                major as int,
                minor as int,
                lo as int,
                u - 1,
                suffix@,
            ),
        decreases hi - u + 1,
    {
        let key = key3_text(major, minor, u as i32);
        let value = join(key.as_str(), suffix);
        let ghost before = entries_view(out@);
        push_entry(out, key, value);
        assert(entries_view(out@) =~= start + update_entries(
            major as int,
            minor as int,
            lo as int,
            u as int,
            suffix@,
        ));
        u = u + 1;
    }
}

/// Lists the supported versions of one major line.
pub fn generate_supported_version(
    major: i32,
    minor_min: i32,
    minor_max: i32,
    update_min: Option<i32>,
    update_max: Option<i32>,
    suffix_version: Option<String>,
) -> (r: Vec<(String, String)>)
    requires
        update_min is Some ==> update_max is Some,
    ensures
        entries_view(r@) == generated_entries(
            major as int,
            minor_min as int,
            minor_max as int,
            match (update_min, update_max) {
                (Some(lo), Some(hi)) => Some((lo as int, hi as int)),
                _ => None,
            },
            match suffix_version {
                Some(x) => x@,
                None => Seq::empty(),
            },
        ),
{
    let suffix = match suffix_version {
        Some(x) => x,
        None => String::new(),
    };
    let mut out: Vec<(String, String)> = Vec::new();
    let major_text = int_text(major);
    match (update_min, update_max) {
        (Some(lo), Some(hi)) => {
            let latest_key = key3_text(major, minor_max, hi);
            let latest = join(latest_key.as_str(), suffix.as_str());
            if minor_min == minor_max {
                push_entry(&mut out, key2_text(major, minor_max), latest.clone());
                push_updates(&mut out, major, minor_min, lo, hi, suffix.as_str());
            } else {
                let ghost sfx = suffix@;
                let mut m: i64 = minor_min as i64;
                if minor_min <= minor_max {
                    assert(entries_view(out@) =~= minor_entries(
                        major as int,
                        minor_min as int,
                        minor_min - 1,
                        lo as int,
                        hi as int,
                        sfx,
                    ));
                    while m <= minor_max as i64
                        invariant
                            minor_min <= m <= minor_max + 1,
                            sfx == suffix@,
                            entries_view(out@) == minor_entries(
                                major as int,
                                minor_min as int,
                                m - 1,
                                lo as int,
                                hi as int,
                                sfx,
                            ),
                        decreases minor_max - m + 1,
                    {
                        let mi = m as i32;
                        push_entry(&mut out, key2_text(major, mi), key3_text(major, mi, hi));
                        push_updates(&mut out, major, mi, lo, hi, suffix.as_str());
                        m = m + 1;
                    }
                } else {
                    assert(entries_view(out@) =~= minor_entries(
                        major as int,
                        minor_min as int,
                        minor_max as int,
                        lo as int,
                        hi as int,
                        sfx,
                    ));
                }
            }
            push_entry(&mut out, major_text, latest);
        },
        _ => {
            let latest_key = key2_text(major, minor_max);
            let latest = join(latest_key.as_str(), suffix.as_str());
            let ghost sfx = suffix@;
            let mut m: i64 = minor_min as i64;
            if minor_min <= minor_max {
                assert(entries_view(out@) =~= plain_minor_entries(
                    major as int,
                    minor_min as int,
                    minor_min - 1,
                    sfx,
                ));
                while m <= minor_max as i64
                    invariant
                        minor_min <= m <= minor_max + 1,
                        sfx == suffix@,
                        entries_view(out@) == plain_minor_entries(
                            major as int,
                            minor_min as int,
                            m - 1,
                            sfx,
                        ),
                    decreases minor_max - m + 1,
                {
                    let key = key2_text(major, m as i32);
                    let value = join(key.as_str(), suffix.as_str());
                    push_entry(&mut out, key, value);
                    m = m + 1;
                }
            } else {
                assert(entries_view(out@) =~= plain_minor_entries(
                    major as int,
                    minor_min as int,
                    minor_max as int,
                    sfx,
                ));
            }
            push_entry(&mut out, major_text, latest);
        },
    }
    out
}

fn lookup_entry(entries: &Vec<(String, String)>, key: &String) -> (r: Option<String>)
    ensures
        opt_view(r) == lookup(entries_view(entries@), key@),
{
    let mut i = entries.len();
    assert(entries_view(entries@).take(i as int) =~= entries_view(entries@));
    while i > 0
        invariant
            i <= entries@.len(),
            lookup(entries_view(entries@), key@) == lookup(
                entries_view(entries@).take(i as int),
                key@,
            ),
        decreases i,
    {
        let ghost t = entries_view(entries@).take(i as int);
        assert(t.drop_last() =~= entries_view(entries@).take(i - 1));
        if entries[i - 1].0 == *key {
            return Some(entries[i - 1].1.clone());
        }
        i = i - 1;
    }
    None
}

/// The key a parsed version is looked up under: as many parts as were
/// given, up to the patch.
pub open spec fn version_key(p: VersionParts) -> Seq<char> {
    match (p.1, p.2) {
        (Some(m), Some(u)) => p.0 + "."@ + m + "."@ + u,
        (Some(m), None) => p.0 + "."@ + m,
        _ => p.0,
    }
}

/// What a requested version resolves to among the supported ones, or the
/// safe message of the error.
pub open spec fn supported_version_spec(
    database_name: Seq<char>,
    entries: Entries,
    requested: Seq<char>,
) -> Result<Seq<char>, Seq<char>> {
    match parse_version_spec(requested) {
        None => Err("version cannot be empty"@),
        Some(p) => match lookup(entries, version_key(p)) {
            Some(v) => Ok(v),
            None => Err(database_name + " "@ + requested + " version is not supported"@),
        },
    }
}

pub open spec fn result_view(r: Result<String, CommandError>) -> Result<Seq<char>, Seq<char>> {
    match r {
        Ok(v) => Ok(v@),
        Err(e) => Err(e.message_safe@),
    }
}

/// Resolves a requested version against the supported ones.
pub fn get_supported_version_to_use(
    database_name: &str,
    all_supported_versions: &Vec<(String, String)>,
    version_to_check: &str,
) -> (r: Result<String, CommandError>)
    ensures
        result_view(r) == supported_version_spec(
            database_name@,
            entries_view(all_supported_versions@),
            version_to_check@,
        ),
        r matches Err(e) ==> e.message_raw is None,
{
    let version = match VersionsNumber::from_str(version_to_check) {
        Ok(v) => v,
        Err(e) => {
            return Err(e);
        },
    };
    let key = match (&version.minor, &version.patch) {
        (Some(m), Some(u)) => {
            let mut k = join3(version.major.as_str(), ".", m.as_str());
            k.append(".");
            k.append(u.as_str());
            k
        },
        (Some(m), None) => join3(version.major.as_str(), ".", m.as_str()),
        _ => version.major.clone(),
    };
    match lookup_entry(all_supported_versions, &key) {
        Some(v) => Ok(v),
        None => {
            let mut msg = join3(database_name, " ", version_to_check);
            msg.append(" version is not supported");
            Err(CommandError::new_from_safe_message(msg))
        },
    }
}

fn extend(out: &mut Vec<(String, String)>, more: Vec<(String, String)>)
    ensures
        entries_view(final(out)@) == entries_view(old(out)@) + entries_view(more@),
{
    let mut more = more;
    let ghost m = more@;
    out.append(&mut more);
    assert(entries_view(out@) =~= entries_view(old(out)@) + entries_view(m));
}

pub open spec fn postgres_versions() -> Entries {
    generated_entries(10, 1, 16, Some((0, 0)), Seq::empty()) + generated_entries(
        11,
        1,
        11,
        Some((0, 0)),
        Seq::empty(),
    ) + generated_entries(12, 2, 8, Some((0, 0)), Seq::empty()) + generated_entries(
        13,
        1,
        4,
        Some((0, 0)),
        Seq::empty(),
    )
}

pub open spec fn mysql_versions() -> Entries {
    generated_entries(5, 7, 7, Some((16, 34)), Seq::empty()) + generated_entries(
        8,
        0,
        0,
        Some((11, 24)),
        Seq::empty(),
    )
}

pub open spec fn mongodb_versions() -> Entries {
    generated_entries(3, 6, 6, Some((0, 22)), Seq::empty()) + generated_entries(
        4,
        0,
        0,
        Some((0, 23)),
        Seq::empty(),
    ) + generated_entries(4, 2, 2, Some((0, 12)), Seq::empty()) + generated_entries(
        4,
        4,
        4,
        Some((0, 4)),
        Seq::empty(),
    )
}

pub open spec fn redis_versions() -> Entries {
    seq![("6"@, "6.0.9"@), ("6.0"@, "6.0.9"@), ("5"@, "5.0.10"@), ("5.0"@, "5.0.10"@)]
}

/// The self-hosted PostgreSQL image to run for a requested version.
pub fn get_self_hosted_postgres_version(requested_version: String) -> (r: Result<
    String,
    CommandError,
>)
    ensures
        result_view(r) == supported_version_spec(
            "Postgresql"@,
            postgres_versions(),
            requested_version@,
        ),
{
    let mut versions: Vec<(String, String)> = Vec::new();
    extend(&mut versions, generate_supported_version(10, 1, 16, Some(0), Some(0), None));
    extend(&mut versions, generate_supported_version(11, 1, 11, Some(0), Some(0), None));
    extend(&mut versions, generate_supported_version(12, 2, 8, Some(0), Some(0), None));
    extend(&mut versions, generate_supported_version(13, 1, 4, Some(0), Some(0), None));
    assert(entries_view(versions@) =~= postgres_versions());
    get_supported_version_to_use("Postgresql", &versions, requested_version.as_str())
}

/// The self-hosted MySQL image to run for a requested version.
pub fn get_self_hosted_mysql_version(requested_version: String) -> (r: Result<
    String,
    CommandError,
>)
    ensures
        result_view(r) == supported_version_spec("MySQL"@, mysql_versions(), requested_version@),
{
    let mut versions: Vec<(String, String)> = Vec::new();
    extend(&mut versions, generate_supported_version(5, 7, 7, Some(16), Some(34), None));
    extend(&mut versions, generate_supported_version(8, 0, 0, Some(11), Some(24), None));
    assert(entries_view(versions@) =~= mysql_versions());
    get_supported_version_to_use("MySQL", &versions, requested_version.as_str())
}

/// The self-hosted MongoDB image to run for a requested version.
pub fn get_self_hosted_mongodb_version(requested_version: String) -> (r: Result<
    String,
    CommandError,
>)
    ensures
        result_view(r) == supported_version_spec(
            "MongoDB"@,
            mongodb_versions(),
            requested_version@,
        ),
{
    let mut versions: Vec<(String, String)> = Vec::new();
    extend(&mut versions, generate_supported_version(3, 6, 6, Some(0), Some(22), None));
    extend(&mut versions, generate_supported_version(4, 0, 0, Some(0), Some(23), None));
    extend(&mut versions, generate_supported_version(4, 2, 2, Some(0), Some(12), None));
    extend(&mut versions, generate_supported_version(4, 4, 4, Some(0), Some(4), None));
    assert(entries_view(versions@) =~= mongodb_versions());
    get_supported_version_to_use("MongoDB", &versions, requested_version.as_str())
}

/// The self-hosted Redis image to run for a requested version.
pub fn get_self_hosted_redis_version(requested_version: String) -> (r: Result<
    String,
    CommandError,
>)
    ensures
        result_view(r) == supported_version_spec("Redis"@, redis_versions(), requested_version@),
{
    let mut versions: Vec<(String, String)> = Vec::new();
    push_entry(&mut versions, String::from_str("6"), String::from_str("6.0.9"));
    push_entry(&mut versions, String::from_str("6.0"), String::from_str("6.0.9"));
    push_entry(&mut versions, String::from_str("5"), String::from_str("5.0.10"));
    push_entry(&mut versions, String::from_str("5.0"), String::from_str("5.0.10"));
    assert(entries_view(versions@) =~= redis_versions());
    get_supported_version_to_use("Redis", &versions, requested_version.as_str())
}

} // verus!
