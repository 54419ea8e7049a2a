//! The initial content of a new entry file.
//!
//! Every entry opens with a frontmatter block carrying its creation and
//! update timestamps; a note entry adds empty `title` and `tags` fields.  A
//! diary entry follows the frontmatter with one dated section per calendar
//! day of its month: a heading holding the zero-padded date and the
//! lowercase English weekday name, then a placeholder body line holding a
//! single full-width space, so editors do not collapse it.

use vstd::prelude::*;
use vstd::arithmetic::div_mod::lemma_add_mod_noop;
use vstd::seq_lib::lemma_flatten_concat;
use crate::date::{
    day_index, days_in_month, ndays_in_month, weekday_index, weekday_name, weekday_of,
    weekday_str, YearMonth,
};
use crate::clock::{instant_renderable, renderable_instant};
use crate::naming::{push_four_digits, push_two_digits};
use crate::{four_digits, two_digits};

verus! {

/// The frontmatter of a diary entry: the two timestamps between `---`
/// delimiter lines.
pub open spec fn frontmatter(created: Seq<char>, updated: Seq<char>) -> Seq<char> {
    "---\ncreated_at: "@ + created + "\nupdated_at: "@ + updated + "\n---\n"@
}

/// The whole content of a note entry: the two timestamps and empty `title`
/// and `tags` fields between `---` delimiter lines.
pub open spec fn note_text(created: Seq<char>, updated: Seq<char>) -> Seq<char> {
    "---\ncreated_at: "@ + created + "\nupdated_at: "@ + updated
        + "\ntitle:\ntags:\n---\n"@
}

/// One day's section of a diary entry: a heading with the zero-padded date
/// and the day's lowercase weekday name, then the placeholder body line.
pub open spec fn day_section(y: int, m: int, d: int) -> Seq<char> {
    "\n###### "@ + four_digits(y) + "-"@ + two_digits(m) + "-"@ + two_digits(d) + "-"@
        + weekday_name(weekday_index(y, m, d)) + "\n\n\u{3000}\n"@
}

/// The day sections for days 1 through `upto` of a month, in order.
pub open spec fn day_sections(y: int, m: int, upto: int) -> Seq<char>
    decreases upto,
{
    if upto < 1 {
        Seq::empty()
    } else {
        day_sections(y, m, upto - 1) + day_section(y, m, upto)
    }
}

/// The whole content of a diary entry: the frontmatter, then one section per
/// calendar day of the month.
pub open spec fn diary_text(y: int, m: int, created: Seq<char>, updated: Seq<char>) -> Seq<
    char,
> {
    frontmatter(created, updated) + day_sections(y, m, days_in_month(y, m))
}

/// The sections of a diary month, one element per calendar day.
pub open spec fn section_list(y: int, m: int) -> Seq<Seq<char>> {
    Seq::new(days_in_month(y, m) as nat, |i: int| day_section(y, m, i + 1))
}

/// The rendered day sections split into one element per day.
proof fn lemma_day_sections_flatten(y: int, m: int, n: int)
    requires
        0 <= n,
    ensures
        day_sections(y, m, n) == Seq::new(n as nat, |i: int| day_section(y, m, i + 1)).flatten(),
    decreases n,
{
    let parts = Seq::new(n as nat, |i: int| day_section(y, m, i + 1));
    if n == 0 {
        assert(parts.flatten() =~= Seq::<char>::empty());
    } else {
        lemma_day_sections_flatten(y, m, n - 1);
        let front = Seq::new((n - 1) as nat, |i: int| day_section(y, m, i + 1));
        let last = seq![day_section(y, m, n)];
        assert(parts =~= front + last);
        lemma_flatten_concat(front, last);
        last.lemma_flatten_singleton();
        assert(last.flatten() == day_section(y, m, n));
        assert(day_sections(y, m, n) == day_sections(y, m, n - 1) + day_section(y, m, n));
    }
}

/// A diary month renders to exactly one section per Gregorian calendar day:
/// the section list is as long as the month, the section of each day carries
/// that day's weekday name, and the rendered text is their concatenation in
/// day order after the frontmatter.
pub proof fn lemma_diary_sections(y: int, m: int, created: Seq<char>, updated: Seq<char>)
    ensures
        section_list(y, m).len() == days_in_month(y, m),
        diary_text(y, m, created, updated) == frontmatter(created, updated) + section_list(
            y,
            m,
        ).flatten(),
        forall|d: int|
            1 <= d <= days_in_month(y, m) ==> #[trigger] section_list(y, m)[d - 1]
                == day_section(y, m, d),
{
    lemma_day_sections_flatten(y, m, days_in_month(y, m));
}

/// Appends one day's section.
fn push_day_section(s: &mut String, ym: YearMonth, d: u32, w: u32)
    requires
        ym.wf(),
        1 <= d <= 31,
        w == weekday_index(ym.year as int, ym.month as int, d as int),
        w < 7,
    ensures
        final(s)@ == old(s)@ + day_section(ym.year as int, ym.month as int, d as int),
{
    s.append("\n###### ");
    push_four_digits(s, ym.year as u32);
    s.append("-");
    push_two_digits(s, ym.month);
    s.append("-");
    push_two_digits(s, d);
    s.append("-");
    s.append(weekday_str(w));
    s.append("\n\n\u{3000}\n");
    proof {
        assert(s@ =~= old(s)@ + day_section(ym.year as int, ym.month as int, d as int));
    }
}

/// Appends the frontmatter block.
fn push_frontmatter(s: &mut String, created_at: &str, updated_at: &str)
    ensures
        final(s)@ == old(s)@ + frontmatter(created_at@, updated_at@),
{
    s.append("---\ncreated_at: ");
    s.append(created_at);
    s.append("\nupdated_at: ");
    s.append(updated_at);
    s.append("\n---\n");
    proof {
        assert(s@ =~= old(s)@ + frontmatter(created_at@, updated_at@));
    }
}

/// The content of a new diary file for a month, with the given timestamp
/// texts: the frontmatter, then one dated, weekday-labelled section per
/// calendar day of the month.
pub fn diary_content(ym: YearMonth, created_at: &str, updated_at: &str) -> (r: String)
    requires
        ym.wf(),
    ensures
        r@ == diary_text(ym.year as int, ym.month as int, created_at@, updated_at@),
{
    let ghost y = ym.year as int;
    let ghost mo = ym.month as int;
    let mut s = String::new();
    push_frontmatter(&mut s, created_at, updated_at);
    let n = ndays_in_month(ym.year, ym.month);
    let mut w = weekday_of(ym.year, ym.month, 1);
    let mut d: u32 = 1;
    proof {
        assert(s@ =~= frontmatter(created_at@, updated_at@) + day_sections(y, mo, 0));
    }
    while d <= n
        invariant
            ym.wf(),
            y == ym.year as int,
            mo == ym.month as int,
            n == days_in_month(y, mo),
            1 <= d <= n + 1,
            w == weekday_index(y, mo, d as int),
            w < 7,
            s@ == frontmatter(created_at@, updated_at@) + day_sections(y, mo, d - 1),
        decreases n + 1 - d,
    {
        push_day_section(&mut s, ym, d, w);
        proof {
            assert(s@ =~= frontmatter(created_at@, updated_at@) + day_sections(y, mo, d as int));
            let a = day_index(y, mo, d as int);
            lemma_add_mod_noop(a, 1int, 7);
            assert(day_index(y, mo, d + 1) == a + 1);
            assert(1int % 7 == 1);
        }
        w = (w + 1) % 7;
        d = d + 1;
    }
    s
}

/// The content of a new note file, with the given timestamp texts: the
/// frontmatter with empty `title` and `tags` fields, and no body.
pub fn note_content(created_at: &str, updated_at: &str) -> (r: String)
    ensures
        r@ == note_text(created_at@, updated_at@),
{
    let mut s = String::new();
    s.append("---\ncreated_at: ");
    s.append(created_at);
    s.append("\nupdated_at: ");
    s.append(updated_at);
    s.append("\ntitle:\ntags:\n---\n");
    proof {
        assert(s@ =~= note_text(created_at@, updated_at@));
    }
    s
}

/// The content of a new diary file whose timestamps are given as
/// milliseconds since the Unix epoch and rendered in the local time zone;
/// nothing exactly when an instant lies outside the rendering range.  The
/// rendered timestamp texts depend on the machine's time zone, so the
/// contract pins everything of the content but them.
pub fn diary_content_at(ym: YearMonth, created_ms: i64, updated_ms: i64) -> (r: Option<String>)
    requires
        ym.wf(),
    ensures
        r is Some <==> (renderable_instant(created_ms) && renderable_instant(updated_ms)),
        r matches Some(s) ==> exists|c: Seq<char>, u: Seq<char>|
            s@ == diary_text(ym.year as int, ym.month as int, c, u),
{
    if !instant_renderable(created_ms) || !instant_renderable(updated_ms) {
        return None;
    }
    let created = match crate::clock::local_timestamp(created_ms) {
        Some(t) => t,
        None => {
            return None;
        },
    };
    let updated = match crate::clock::local_timestamp(updated_ms) {
        Some(t) => t,
        None => {
            return None;
        },
    };
    let s = diary_content(ym, created.as_str(), updated.as_str());
    proof {
        assert(s@ == diary_text(ym.year as int, ym.month as int, created@, updated@));
    }
    Some(s)
}

/// The content of a new note file whose timestamps are given as milliseconds
/// since the Unix epoch and rendered in the local time zone; nothing exactly
/// when an instant lies outside the rendering range.  The rendered timestamp
/// texts depend on the machine's time zone, so the contract pins everything
/// of the content but them.
pub fn note_content_at(created_ms: i64, updated_ms: i64) -> (r: Option<String>)
    ensures
        r is Some <==> (renderable_instant(created_ms) && renderable_instant(updated_ms)),
        r matches Some(s) ==> exists|c: Seq<char>, u: Seq<char>| s@ == note_text(c, u),
{
    if !instant_renderable(created_ms) || !instant_renderable(updated_ms) {
        return None;
    }
    let created = match crate::clock::local_timestamp(created_ms) {
        Some(t) => t,
        None => {
            return None;
        },
    };
    let updated = match crate::clock::local_timestamp(updated_ms) {
        Some(t) => t,
        None => {
            return None;
        },
    };
    let s = note_content(created.as_str(), updated.as_str());
    proof {
        assert(s@ == note_text(created@, updated@));
    }
    Some(s)
}

} // verus!
