//! Alert message templating: replacing every occurrence of the
//! `{staletime}` and `{now}` tokens in a template with rendered
//! timestamps. `{staletime}` is substituted first, then `{now}`, so a
//! rendered value that happened to contain a token string could not
//! collide with the second pass.

use vstd::prelude::*;
use vstd::string::*;

verus! {

/// Every occurrence of `pat` in `s` replaced by `rep`, scanning left to
/// right without overlap. An empty pattern replaces nothing.
pub open spec fn replace_all_spec(s: Seq<char>, pat: Seq<char>, rep: Seq<char>) -> Seq<char>
    decreases s.len(),
{
    if pat.len() == 0 || s.len() < pat.len() {
        s
    } else if s.subrange(0, pat.len() as int) == pat {
        rep + replace_all_spec(s.skip(pat.len() as int), pat, rep)
    } else {
        seq![s[0]] + replace_all_spec(s.skip(1), pat, rep)
    }
}

/// Whether `pat` occurs in `s` starting at character position `i`.
fn matches_at(s: &str, i: usize, pat: &str) -> (r: bool)
    requires
        i + pat@.len() <= s@.len(),
        s@.len() <= usize::MAX,
    ensures
        r == (s@.subrange(i as int, i as int + pat@.len() as int) == pat@),
{
    let pat_len = pat.unicode_len();
    let ghost window = s@.subrange(i as int, i as int + pat@.len() as int);
    let mut j: usize = 0;
    while j < pat_len
        invariant
            j <= pat_len,
            pat_len == pat@.len(),
            i + pat@.len() <= s@.len() <= usize::MAX,
            window == s@.subrange(i as int, i as int + pat@.len() as int),
            forall|k: int| 0 <= k < j ==> s@[i + k] == pat@[k],
        decreases pat_len - j,
    {
        if s.get_char(i + j) != pat.get_char(j) {
            proof {
                assert(window[j as int] == s@[i + j]);
                assert(window != pat@);
            }
            return false;
        }
        j = j + 1;
    }
    proof {
        assert(window =~= pat@);
    }
    true
}

/// Unfolds one step of `replace_all_spec` at a position where the pattern
/// matches.
proof fn lemma_replace_step_match(s: Seq<char>, pat: Seq<char>, rep: Seq<char>, i: int)
    requires
        0 < pat.len(),
        0 <= i,
        i + pat.len() <= s.len(),
        s.subrange(i, i + pat.len() as int) == pat,
    ensures
        replace_all_spec(s.skip(i), pat, rep) == rep + replace_all_spec(
            s.skip(i + pat.len() as int),
            pat,
            rep,
        ),
{
    let t = s.skip(i);
    assert(t.subrange(0, pat.len() as int) =~= s.subrange(i, i + pat.len() as int));
    assert(t.skip(pat.len() as int) =~= s.skip(i + pat.len() as int));
}

/// Unfolds one step of `replace_all_spec` at a position where the pattern
/// does not match (or does not fit): the character there is kept.
proof fn lemma_replace_step_keep(s: Seq<char>, pat: Seq<char>, rep: Seq<char>, i: int)
    requires
        0 < pat.len(),
        0 <= i < s.len(),
        i + pat.len() <= s.len() ==> s.subrange(i, i + pat.len() as int) != pat,
    ensures
        replace_all_spec(s.skip(i), pat, rep) == seq![s[i]] + replace_all_spec(
            s.skip(i + 1),
            pat,
            rep,
        ),
{
    let t = s.skip(i);
    assert(t.skip(1) =~= s.skip(i + 1));
    if t.len() < pat.len() {
        assert(t =~= seq![s[i]] + t.skip(1));
        assert(t.skip(1).len() < pat.len());
        assert(replace_all_spec(t.skip(1), pat, rep) == t.skip(1));
    } else {
        assert(t.subrange(0, pat.len() as int) =~= s.subrange(i, i + pat.len() as int));
    }
}

/// Replaces every occurrence of `pat` in `s` with `rep`, scanning left to
/// right without overlap.
pub fn replace_all(s: &str, pat: &str, rep: &str) -> (r: String)
    requires
        pat@.len() > 0,
    ensures
        r@ == replace_all_spec(s@, pat@, rep@),
{
    let s_len = s.unicode_len();
    let pat_len = pat.unicode_len();
    let mut out = String::new();
    let mut i: usize = 0;
    proof {
        assert(s@.skip(0) =~= s@);
        assert(out@ + replace_all_spec(s@, pat@, rep@) =~= replace_all_spec(s@, pat@, rep@));
    }
    while i < s_len
        invariant
            i <= s_len,
            s_len == s@.len(),
            pat_len == pat@.len(),
            pat@.len() > 0,
            replace_all_spec(s@, pat@, rep@) == out@ + replace_all_spec(s@.skip(i as int), pat@, rep@),
        decreases s_len - i,
    {
        let ghost out_before = out@;
        if pat_len <= s_len - i && matches_at(s, i, pat) {
            proof {
                lemma_replace_step_match(s@, pat@, rep@, i as int);
            }
            out.append(rep);
            i = i + pat_len;
            proof {
                assert(out@ + replace_all_spec(s@.skip(i as int), pat@, rep@) =~= out_before
                    + (rep@ + replace_all_spec(s@.skip(i as int), pat@, rep@)));
            }
        } else {
            proof {
                lemma_replace_step_keep(s@, pat@, rep@, i as int);
            }
            let c = s.substring_char(i, i + 1);
            out.append(c);
            i = i + 1;
            proof {
                assert(c@ =~= seq![s@[i - 1]]);
                assert(out@ + replace_all_spec(s@.skip(i as int), pat@, rep@) =~= out_before
                    + (seq![s@[i - 1]] + replace_all_spec(s@.skip(i as int), pat@, rep@)));
            }
        }
    }
    proof {
        assert(s@.skip(i as int) =~= Seq::<char>::empty());
        assert(out@ + replace_all_spec(s@.skip(i as int), pat@, rep@) =~= out@);
    }
    out
}

/// The largest timestamp the alert renderer admits, in milliseconds since
/// the Unix epoch: the last millisecond of the day before chrono's
/// maximum date (December 31, 262142), leaving one day of margin for the
/// local offset applied when rendering. Beyond its date range chrono's
/// conversion panics.
pub const MAX_RENDERABLE_MS: u128 = 8_210_266_790_399_999;

/// No `{` or `}` anywhere in the string: such a string can neither carry
/// a template token into the rendered message nor combine with its
/// surroundings into one.
pub open spec fn brace_free(s: Seq<char>) -> bool {
    forall|i: int| 0 <= i < s.len() ==> s[i] != '{' && s[i] != '}'
}

/// The alert template with every `{staletime}` replaced by `seen_str` and
/// then every `{now}` replaced by `now_str`.
pub open spec fn render_spec(template: Seq<char>, now_str: Seq<char>, seen_str: Seq<char>) -> Seq<
    char,
> {
    replace_all_spec(replace_all_spec(template, "{staletime}"@, seen_str), "{now}"@, now_str)
}

/// Substitutes already-rendered timestamp strings into the alert template:
/// `{staletime}` first, then `{now}`.
pub fn substitute(template: &str, now_str: &str, seen_str: &str) -> (r: String)
    ensures
        r@ == render_spec(template@, now_str@, seen_str@),
{
    proof {
        reveal_strlit("{staletime}");
        reveal_strlit("{now}");
    }
    let once = replace_all(template, "{staletime}", seen_str);
    replace_all(once.as_str(), "{now}", now_str)
}

/// Relies on chrono: `DateTime::<Local>::from` turns a duration past the
/// Unix epoch into local civil time (through `TimeZone::timestamp_opt`,
/// which only yields a value inside chrono's date range — hence the bound
/// on the argument, which also keeps the millisecond count within `u64`),
/// and its `Display` impl renders date, time and numeric offset: a
/// non-empty string of digits, signs, separators and spaces, never a
/// brace. Which text comes back depends on the machine's time zone, so
/// nothing more is promised of it.
#[verifier::external_body]
fn format_local_time(ts_ms: u128) -> (r: String)
    requires
        ts_ms <= MAX_RENDERABLE_MS,
    ensures
        r@.len() > 0,
        brace_free(r@),
{
    let instant = std::time::UNIX_EPOCH + std::time::Duration::from_millis(ts_ms as u64);
    let moment = chrono::DateTime::<chrono::Local>::from(instant);
    format!("{}", moment)
}

/// Renders `now` and `last_seen` as local date-times and substitutes them
/// into the template, `{staletime}` first, then `{now}`. How a timestamp
/// reads depends on the machine's time zone, so the contract promises the
/// substitution with non-empty, brace-free renderings — enough to rule
/// out an unchanged template — rather than the rendered text itself. The
/// bound on the timestamps is chrono's renderable range.
pub fn substitute_datetime(msg: &str, now: u128, last_seen: u128) -> (r: String)
    requires
        now <= MAX_RENDERABLE_MS,
        last_seen <= MAX_RENDERABLE_MS,
    ensures
        exists|n: Seq<char>, s: Seq<char>|
            r@ == render_spec(msg@, n, s) && n.len() > 0 && s.len() > 0 && brace_free(n)
                && brace_free(s),
{
    let now_str = format_local_time(now);
    let seen_str = format_local_time(last_seen);
    let r = substitute(msg, now_str.as_str(), seen_str.as_str());
    proof {
        assert(r@ == render_spec(msg@, now_str@, seen_str@) && now_str@.len() > 0
            && seen_str@.len() > 0 && brace_free(now_str@) && brace_free(seen_str@));
    }
    r
}

} // verus!
