//! Human-readable rendering of a number of seconds.

use vstd::prelude::*;
use crate::text::{decimal, lemma_decimal_nonempty, push_decimal};

verus! {

/// `"<n> <unit>"`, with a plural `s` unless `n` is one.
pub open spec fn unit_phrase(n: nat, unit: Seq<char>) -> Seq<char> {
    decimal(n) + seq![' '] + unit + (if n == 1 { Seq::<char>::empty() } else { seq!['s'] })
}

/// The hours part of a non-negative number of seconds, or empty.
pub open spec fn hours_part(t: int) -> Seq<char> {
    if t / 3600 > 0 {
        unit_phrase((t / 3600) as nat, seq!['h', 'o', 'u', 'r'])
    } else {
        Seq::empty()
    }
}

/// Hours and minutes, joined by `", "`.
pub open spec fn minutes_part(t: int) -> Seq<char> {
    let m = (t % 3600) / 60;
    if m > 0 {
        hours_part(t) + (if hours_part(t).len() > 0 { seq![',', ' '] } else { Seq::empty() })
            + unit_phrase(m as nat, seq!['m', 'i', 'n', 'u', 't', 'e'])
    } else {
        hours_part(t)
    }
}

/// The rendering of `t` seconds: the non-zero hour, minute and second counts,
/// the last joined by `" and "`. Zero and negative inputs give the empty text.
pub open spec fn duration_text(t: int) -> Seq<char> {
    if t <= 0 {
        Seq::empty()
    } else {
        let s = t % 60;
        if s > 0 {
            minutes_part(t) + (if minutes_part(t).len() > 0 {
                seq![' ', 'a', 'n', 'd', ' ']
            } else {
                Seq::empty()
            }) + unit_phrase(s as nat, seq!['s', 'e', 'c', 'o', 'n', 'd'])
        } else {
            minutes_part(t)
        }
    }
}

fn push_unit(out: &mut String, n: u64, unit: &str)
    ensures
        final(out)@ == old(out)@ + unit_phrase(n as nat, unit@),
{
    push_decimal(out, n);
    proof {
        reveal_strlit(" ");
        reveal_strlit("s");
    }
    out.append(" ");
    out.append(unit);
    if n != 1 {
        out.append("s");
    }
    assert(final(out)@ =~= old(out)@ + unit_phrase(n as nat, unit@));
}

/// Renders a number of seconds as `"1 hour, 1 minute and 1 second"`.
pub fn format_duration(total_seconds: i64) -> (r: String)
    ensures
        r@ == duration_text(total_seconds as int),
{
    let mut output = String::new();
    if total_seconds <= 0 {
        return output;
    }
    let t = total_seconds as u64;
    let hours = t / 3600;
    let minutes = (t % 3600) / 60;
    let seconds = t % 60;
    proof {
        lemma_decimal_nonempty(hours as nat);
        lemma_decimal_nonempty(minutes as nat);
        reveal_strlit("hour");
        reveal_strlit("minute");
        reveal_strlit("second");
        reveal_strlit(", ");
        reveal_strlit(" and ");
    }
    if hours > 0 {
        push_unit(&mut output, hours, "hour");
    }
    assert(output@ =~= hours_part(t as int));
    if minutes > 0 {
        if hours > 0 {
            output.append(", ");
        }
        push_unit(&mut output, minutes, "minute");
    }
    assert(output@ =~= minutes_part(t as int));
    if seconds > 0 {
        if hours > 0 || minutes > 0 {
            output.append(" and ");
        }
        push_unit(&mut output, seconds, "second");
    }
    assert(output@ =~= duration_text(total_seconds as int));
    output
}

} // verus!
