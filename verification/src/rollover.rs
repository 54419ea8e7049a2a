//! Choosing the month a new diary file stands for.
//!
//! The scanner takes the names found in the working directory, keeps those
//! that read as diary file names, and selects the latest month among them.
//! The rollover rule then picks the new file's month from that and from
//! today's month.

use vstd::prelude::*;
use crate::date::YearMonth;
use crate::naming::{parse_diary_name, spec_parse_diary_name};
use crate::{EntryError, InvalidReason};

verus! {

/// Strict order on (year, month) pairs: earlier calendar months come first.
pub open spec fn ym_before(a: (int, int), b: (int, int)) -> bool {
    a.0 < b.0 || (a.0 == b.0 && a.1 < b.1)
}

/// The pair a month value stands for.
pub open spec fn ym_val(ym: YearMonth) -> (int, int) {
    (ym.year as int, ym.month as int)
}

/// The latest month named by any diary file among the given names; nothing
/// when no name reads as a diary file name.
pub open spec fn spec_latest(names: Seq<Seq<char>>) -> Option<(int, int)>
    decreases names.len(),
{
    if names.len() == 0 {
        None
    } else {
        let rest = spec_latest(names.drop_last());
        match spec_parse_diary_name(names.last()) {
            Some(p) => match rest {
                Some(q) => if ym_before(q, p) {
                    Some(p)
                } else {
                    Some(q)
                },
                None => Some(p),
            },
            None => rest,
        }
    }
}

/// The month immediately after a month: December rolls to January of the
/// next year.
pub open spec fn ym_succ(p: (int, int)) -> (int, int) {
    if p.1 == 12 {
        (p.0 + 1, 1)
    } else {
        (p.0, p.1 + 1)
    }
}

/// The rollover rule: with no diary file yet, or with the latest one strictly
/// before today's month, the new file is today's month; otherwise it is the
/// month after the latest file's.
pub open spec fn spec_next(latest: Option<(int, int)>, today: (int, int)) -> (int, int) {
    match latest {
        None => today,
        Some(l) => if ym_before(l, today) {
            today
        } else {
            ym_succ(l)
        },
    }
}

/// The month chosen for a new diary file in a directory holding the given
/// names, seen from today's month.
pub open spec fn spec_chosen(names: Seq<Seq<char>>, today: (int, int)) -> (int, int) {
    spec_next(spec_latest(names), today)
}

/// True when a name either is no diary name or names a month at or before
/// `p`.
pub open spec fn parsed_not_after(s: Seq<char>, p: (int, int)) -> bool {
    match spec_parse_diary_name(s) {
        Some(q) => !ym_before(p, q),
        None => true,
    }
}

/// The scanner's selection is the maximum: it comes from one of the names,
/// and no name in the directory reads as a later month.  When it selects
/// nothing, no name reads as a diary file name at all.
pub proof fn lemma_latest_is_max(names: Seq<Seq<char>>)
    ensures
        spec_latest(names) is None ==> forall|i: int|
            0 <= i < names.len() ==> spec_parse_diary_name(#[trigger] names[i]) is None,
        spec_latest(names) matches Some(p) ==> (exists|i: int|
            0 <= i < names.len() && spec_parse_diary_name(#[trigger] names[i]) == Some(p)),
        spec_latest(names) matches Some(p) ==> (forall|i: int|
            0 <= i < names.len() ==> parsed_not_after(#[trigger] names[i], p)),
    decreases names.len(),
{
    if names.len() == 0 {
    } else {
        let prefix = names.drop_last();
        lemma_latest_is_max(prefix);
        assert(names.last() == names[names.len() - 1]);
        assert(forall|i: int| 0 <= i < prefix.len() ==> #[trigger] names[i] == prefix[i]);
        if spec_latest(names) is Some {
            let p = spec_latest(names)->0;
            match spec_parse_diary_name(names.last()) {
                Some(q) => {
                    if spec_latest(prefix) is Some {
                        let r = spec_latest(prefix)->0;
                        if ym_before(r, q) {
                            assert(p == q);
                            assert(spec_parse_diary_name(names[names.len() - 1]) == Some(p));
                            assert forall|i: int| 0 <= i < names.len() implies parsed_not_after(
                                #[trigger] names[i],
                                p,
                            ) by {
                                if i < prefix.len() {
                                    assert(parsed_not_after(prefix[i], r));
                                }
                            }
                        } else {
                            assert(p == r);
                            let j = choose|j: int|
                                0 <= j < prefix.len() && spec_parse_diary_name(
                                    #[trigger] prefix[j],
                                ) == Some(p);
                            assert(spec_parse_diary_name(names[j]) == Some(p));
                        }
                    } else {
                        assert(p == q);
                        assert(spec_parse_diary_name(names[names.len() - 1]) == Some(p));
                    }
                },
                None => {
                    let j = choose|j: int|
                        0 <= j < prefix.len() && spec_parse_diary_name(#[trigger] prefix[j])
                            == Some(p);
                    assert(spec_parse_diary_name(names[j]) == Some(p));
                },
            }
        }
    }
}

/// Scans a directory listing for diary file names and returns the latest
/// month among them, or nothing when no name matches.  Names that do not
/// match the pattern are ignored.
pub fn latest_month(names: &Vec<String>) -> (r: Option<YearMonth>)
    ensures
        match r {
            Some(ym) => spec_latest(names.deep_view()) == Some(ym_val(ym)) && ym.wf(),
            None => spec_latest(names.deep_view()) is None,
        },
{
    let ghost all = names.deep_view();
    let mut best: Option<YearMonth> = None;
    let mut i: usize = 0;
    while i < names.len()
        invariant
            i <= names.len(),
            all == names.deep_view(),
            all.len() == names.len(),
            forall|j: int| 0 <= j < all.len() ==> all[j] == #[trigger] names@[j]@,
            match best {
                Some(b) => spec_latest(all.take(i as int)) == Some(ym_val(b)) && b.wf(),
                None => spec_latest(all.take(i as int)) is None,
            },
        decreases names.len() - i,
    {
        let parsed = parse_diary_name(names[i].as_str());
        proof {
            assert(all.take(i + 1).drop_last() =~= all.take(i as int));
            assert(all.take(i + 1).last() == all[i as int]);
        }
        match parsed {
            Some(p) => {
                match best {
                    Some(b) => {
                        if b.year < p.year || (b.year == p.year && b.month < p.month) {
                            best = Some(p);
                        }
                    },
                    None => {
                        best = Some(p);
                    },
                }
            },
            None => {},
        }
        i = i + 1;
    }
    proof {
        assert(all.take(names.len() as int) =~= all);
    }
    best
}

/// Applies the rollover rule: no latest month gives today's month; a latest
/// month strictly before today's gives today's month, skipping the gap; a
/// latest month at or after today's gives the month right after it, December
/// rolling to January of the next year.
pub fn next_month(latest: Option<YearMonth>, today: YearMonth) -> (r: YearMonth)
    requires
        today.wf(),
        latest matches Some(l) ==> l.wf(),
    ensures
        ym_val(r) == spec_next(
            match latest {
                Some(l) => Some(ym_val(l)),
                None => None,
            },
            ym_val(today),
        ),
        latest is None ==> r == today,
        latest matches Some(l) ==> {
            &&& ym_before(ym_val(l), ym_val(today)) ==> r == today
            &&& !ym_before(ym_val(l), ym_val(today)) ==> ym_val(r) == ym_succ(ym_val(l))
        },
        1 <= r.month <= 12,
        0 <= r.year <= 10000,
{
    match latest {
        Some(l) => {
            if l.year < today.year || (l.year == today.year && l.month < today.month) {
                today
            } else if l.month == 12 {
                YearMonth { year: l.year + 1, month: 1 }
            } else {
                YearMonth { year: l.year, month: l.month + 1 }
            }
        },
        None => today,
    }
}

/// Chooses the month for a new diary file from a directory listing and
/// today's month.  Fails when the chosen month's year cannot be written with
/// four digits.
pub fn choose_diary_month(names: &Vec<String>, today: YearMonth) -> (r: Result<
    YearMonth,
    EntryError,
>)
    requires
        today.wf(),
    ensures
        ({
            let c = spec_chosen(names.deep_view(), ym_val(today));
            match r {
                Ok(ym) => ym_val(ym) == c && ym.wf(),
                Err(e) => e == EntryError::InvalidInput(InvalidReason::YearOutOfRange) && c.0
                    > 9999,
            }
        }),
{
    let latest = latest_month(names);
    let chosen = next_month(latest, today);
    if chosen.year > 9999 {
        Err(EntryError::InvalidInput(InvalidReason::YearOutOfRange))
    } else {
        Ok(chosen)
    }
}

} // verus!
