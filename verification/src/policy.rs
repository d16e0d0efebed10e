//! Which countries may take part, who administers a country, and how the
//! list of allowed countries is paged.

use crate::session::GeoTrustMatch;
use vstd::prelude::*;

verus! {

/// The error of asking for a page whose bounds do not fit 32 bits.
#[derive(Clone, Copy, Debug, PartialEq, Eq, Structural)]
pub struct PageOverflow;

/// Whether a country may take part: a country on the deny list may not; else
/// a country on the allow list may; else the default decides.
pub open spec fn country_allowed(denied: bool, allowed: bool, default_allow_all: bool) -> bool {
    !denied && (allowed || default_allow_all)
}

/// The positions that page `page` of `page_size` entries covers, first
/// included and last excluded, or `None` where they do not fit 32 bits.
pub open spec fn page_bounds(page: u32, page_size: u32) -> Option<(int, int)> {
    if page * page_size + page_size > u32::MAX {
        None
    } else {
        Some((page * page_size, page * page_size + page_size))
    }
}

/// The part of `entries` between two positions, cut off at its end.
pub open spec fn page_of<T>(entries: Seq<T>, start: int, end: int) -> Seq<T>
    recommends
        0 <= start <= end,
{
    if start >= entries.len() {
        Seq::empty()
    } else if end >= entries.len() {
        entries.subrange(start, entries.len() as int)
    } else {
        entries.subrange(start, end)
    }
}

impl GeoTrustMatch {
    /// Decides whether a country may take part, from whether it is on the
    /// deny list, whether it is on the allow list, and the default.
    pub fn is_country_allowed_internal(denied: bool, allowed: bool, default_allow_all: bool) -> (ok:
        bool)
        ensures
            ok == country_allowed(denied, allowed, default_allow_all),
    {
        if denied {
            return false;
        }
        if allowed {
            return true;
        }
        default_allow_all
    }

    /// `Some(true)` for a country that may take part, and `None` for one that
    /// may not.
    pub fn get_country_allowed(denied: bool, allowed: bool, default_allow_all: bool) -> (ok: Option<
        bool,
    >)
        ensures
            ok == if country_allowed(denied, allowed, default_allow_all) {
                Some(true)
            } else {
                None
            },
    {
        if Self::is_country_allowed_internal(denied, allowed, default_allow_all) {
            Some(true)
        } else {
            None
        }
    }

    /// The administrator of a country: the one the country was delegated to,
    /// or the main administrator where there is none.
    pub fn get_admin_for_country<A>(country_admin: Option<A>, main_admin: Option<A>) -> (admin:
        Option<A>)
        ensures
            admin == if country_admin is Some {
                country_admin
            } else {
                main_admin
            },
    {
        match country_admin {
            Some(a) => Some(a),
            None => main_admin,
        }
    }

    /// Page `page` of the allowed countries, `page_size` to a page, in the
    /// order in which `countries` lists them. A page whose bounds do not fit
    /// 32 bits is refused.
    pub fn list_allowed_countries(countries: &Vec<u32>, page: u32, page_size: u32) -> (res: Result<
        Vec<u32>,
        PageOverflow,
    >)
        ensures
            match page_bounds(page, page_size) {
                Some((start, end)) => res matches Ok(listed) && listed@ == page_of(
                    countries@,
                    start,
                    end,
                ),
                None => res is Err,
            },
    {
        let start = match page.checked_mul(page_size) {
            Some(s) => s,
            None => {
                assert(page * page_size + page_size > u32::MAX);
                return Err(PageOverflow);
            },
        };
        let end = match start.checked_add(page_size) {
            Some(e) => e,
            None => {
                return Err(PageOverflow);
            },
        };
        let mut listed: Vec<u32> = Vec::new();
        let len = countries.len();
        if start as usize >= len {
            return Ok(listed);
        }
        let stop = if end as usize >= len {
            len
        } else {
            end as usize
        };
        let mut i: usize = start as usize;
        while i < stop
            invariant
                start <= i <= stop,
                stop <= countries@.len(),
                listed@ == countries@.subrange(start as int, i as int),
            decreases stop - i,
        {
            listed.push(countries[i]);
            i = i + 1;
        }
        Ok(listed)
    }
}

} // verus!
