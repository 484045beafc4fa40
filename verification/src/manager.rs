//! The scheduling decision engine: library resolution, candidate
//! selection over guide data, the due/future timing policy, and
//! subscription assembly.

use vstd::prelude::*;

use crate::plex::{
    get_dirs_of_type, spec_dirs_of_type, spec_missing_setting_msg, spec_setting_default,
    GridMetadata, PlexError, ProviderDirectory, ProviderDirectoryType, Subscription,
    SubscriptionPrefs, TemplateParameters, TemplateSetting, TemplateSubscription,
};

verus! {

/// Error raised by the scheduling engine.
#[derive(Debug, PartialEq, Eq)]
pub enum ManagerError {
    /// A guide response could not be used.
    Plex(PlexError),
    /// The process configuration admits no valid library mapping.
    Config(String),
    /// A broadcast asks for something the engine does not support.
    Unimplemented(String),
}

/// Configuration handed to the engine at startup: optional preferred
/// library identifiers and the channel allow-list.
#[derive(Default)]
pub struct ManagerConfig {
    pub tv_library_id: Option<String>,
    pub film_library_id: Option<String>,
    pub channels: Vec<String>,
}

/// The two target libraries resolved at startup; immutable for the
/// process lifetime.
#[derive(Debug)]
pub struct ResolvedLibraries {
    pub tv_library_id: String,
    pub film_library_id: String,
}

/// Every directory of the list carries an identifier.
pub open spec fn dir_ids_present(dirs: Seq<ProviderDirectory>) -> bool {
    forall|i: int| 0 <= i < dirs.len() ==> dirs[i].id is Some
}

/// A directory of the list carries exactly the identifier `idv`.
pub open spec fn contains_dir_id(dirs: Seq<ProviderDirectory>, idv: Seq<char>) -> bool {
    exists|i: int| 0 <= i < dirs.len() && (#[trigger] dirs[i].id matches Some(x) && x@ == idv)
}

/// The library selected among `dirs`: the preferred identifier when it
/// is present among them, else the first directory's identifier, or
/// `None` when the category has no directory.
pub open spec fn spec_select_library(
    dirs: Seq<ProviderDirectory>,
    preferred: Option<String>,
) -> Option<Seq<char>> {
    if preferred matches Some(p) && contains_dir_id(dirs, p@) {
        Some(preferred->Some_0@)
    } else if dirs.len() > 0 {
        Some(dirs[0].id->Some_0@)
    } else {
        None
    }
}

fn select_library_id(dirs: &Vec<ProviderDirectory>, preferred: &Option<String>) -> (r: Option<
    String,
>)
    requires
        dir_ids_present(dirs@),
    ensures
        match spec_select_library(dirs@, *preferred) {
            Some(v) => r matches Some(s) && s@ == v,
            None => r is None,
        },
{
    if let Some(p) = preferred {
        let n = dirs.len();
        let mut i: usize = 0;
        while i < n
            invariant
                n == dirs@.len(),
                i <= n,
                dir_ids_present(dirs@),
                *preferred == Some(*p),
                forall|j: int|
                    0 <= j < i ==> !((#[trigger] dirs@[j].id matches Some(x) && x@ == p@)),
            decreases n - i,
        {
            match &dirs[i].id {
                Some(x) => {
                    if *x == *p {
                        proof {
                            assert(dirs@[i as int].id matches Some(y) && y@ == p@);
                            assert(contains_dir_id(dirs@, p@));
                        }
                        return Some(p.clone());
                    }
                },
                None => {},
            }
            proof {
                assert(!((dirs@[i as int].id matches Some(x) && x@ == p@)));
            }
            i = i + 1;
        }
        proof {
            assert(!contains_dir_id(dirs@, p@));
        }
    }
    if dirs.len() > 0 {
        match &dirs[0].id {
            Some(x) => Some(x.clone()),
            None => None,
        }
    } else {
        None
    }
}

/// What resolving one category yields: an error message of the listing
/// itself, the selected identifier, or `None` when the category has no
/// directory.
pub open spec fn spec_resolve_category(
    providers: Seq<crate::plex::ProvidersMediaProvider>,
    t: ProviderDirectoryType,
    preferred: Option<String>,
) -> Result<Option<Seq<char>>, Seq<char>> {
    match spec_dirs_of_type(providers, t) {
        Err(m) => Err(m),
        Ok(ds) => Ok(spec_select_library(ds, preferred)),
    }
}

/// The category directories that resolution walks all carry
/// identifiers; resolution reads no identifier outside these two
/// categories.
pub open spec fn resolvable_listing(providers: Seq<crate::plex::ProvidersMediaProvider>) -> bool {
    &&& (spec_dirs_of_type(providers, ProviderDirectoryType::Show) matches Ok(ds)
        ==> dir_ids_present(ds))
    &&& (spec_dirs_of_type(providers, ProviderDirectoryType::Movie) matches Ok(ds)
        ==> dir_ids_present(ds))
}

/// Resolve the TV and Film target libraries from the provider listing:
/// for each category, the configured identifier when it is offered,
/// else the first directory of that category; an error when a category
/// offers no directory at all, or when the listing itself cannot be
/// read.
pub fn resolve_libraries(
    providers: &Vec<crate::plex::ProvidersMediaProvider>,
    config: &ManagerConfig,
) -> (r: Result<ResolvedLibraries, ManagerError>)
    requires
        resolvable_listing(providers@),
    ensures
        match spec_resolve_category(
            providers@,
            ProviderDirectoryType::Show,
            config.tv_library_id,
        ) {
            Err(m) => r matches Err(ManagerError::Plex(PlexError::PlexResponse(s))) && s@ == m,
            Ok(None) => r matches Err(ManagerError::Config(s))
                && s@ == "No matching TV Show library found"@,
            Ok(Some(tv)) => match spec_resolve_category(
                providers@,
                ProviderDirectoryType::Movie,
                config.film_library_id,
            ) {
                Err(m) => r matches Err(ManagerError::Plex(PlexError::PlexResponse(s)))
                    && s@ == m,
                Ok(None) => r matches Err(ManagerError::Config(s))
                    && s@ == "No matching Film library found"@,
                Ok(Some(film)) => r matches Ok(libs) && libs.tv_library_id@ == tv
                    && libs.film_library_id@ == film,
            },
        },
{
    let show_dirs = match get_dirs_of_type(providers, ProviderDirectoryType::Show) {
        Ok(ds) => ds,
        Err(e) => {
            return Err(ManagerError::Plex(e));
        },
    };
    let tv_library_id = match select_library_id(&show_dirs, &config.tv_library_id) {
        Some(id) => id,
        None => {
            return Err(ManagerError::Config("No matching TV Show library found".to_owned()));
        },
    };
    let movie_dirs = match get_dirs_of_type(providers, ProviderDirectoryType::Movie) {
        Ok(ds) => ds,
        Err(e) => {
            return Err(ManagerError::Plex(e));
        },
    };
    let film_library_id = match select_library_id(&movie_dirs, &config.film_library_id) {
        Some(id) => id,
        None => {
            return Err(ManagerError::Config("No matching Film library found".to_owned()));
        },
    };
    Ok(ResolvedLibraries { tv_library_id, film_library_id })
}

/// A broadcast the scanner may hand on: not starting in the past, and
/// not already covered by a subscription at episode or series level.
pub open spec fn eligible(b: GridMetadata, now: i64) -> bool {
    &&& b.spec_begins_at_ts() >= now
    &&& b.subscription_id is None
    &&& b.grandparent_subscription_id is None
}

/// The entries one day's grid response contributes: none when the
/// response was absent.
pub open spec fn day_entries(d: Option<Vec<GridMetadata>>) -> Seq<GridMetadata> {
    match d {
        Some(v) => v@,
        None => Seq::empty(),
    }
}

/// All entries of a channel's day responses, in response order.
pub open spec fn spec_flat(days: Seq<Option<Vec<GridMetadata>>>) -> Seq<GridMetadata>
    decreases days.len(),
{
    if days.len() == 0 {
        Seq::empty()
    } else {
        day_entries(days[0]) + spec_flat(days.drop_first())
    }
}

/// The earliest eligible broadcast among the first `n` entries of `s`;
/// the earlier-listed one wins when start times tie.
pub open spec fn best_upto(s: Seq<GridMetadata>, now: i64, n: int) -> Option<GridMetadata>
    decreases n,
{
    if n <= 0 {
        None
    } else {
        let prev = best_upto(s, now, n - 1);
        let cur = s[n - 1];
        if !eligible(cur, now) {
            prev
        } else {
            match prev {
                None => Some(cur),
                Some(b) => if cur.spec_begins_at_ts() < b.spec_begins_at_ts() {
                    Some(cur)
                } else {
                    Some(b)
                },
            }
        }
    }
}

/// The channel's candidate: the earliest eligible broadcast of all its
/// day responses, or `None` when it has none.
pub open spec fn spec_next_candidate(
    days: Seq<Option<Vec<GridMetadata>>>,
    now: i64,
) -> Option<GridMetadata> {
    best_upto(spec_flat(days), now, spec_flat(days).len() as int)
}

proof fn lemma_best_upto_props(s: Seq<GridMetadata>, now: i64, n: int)
    requires
        0 <= n <= s.len(),
    ensures
        best_upto(s, now, n) is None ==> forall|i: int|
            0 <= i < n ==> !eligible(#[trigger] s[i], now),
        best_upto(s, now, n) matches Some(b) ==> eligible(b, now),
        best_upto(s, now, n) matches Some(b) ==> exists|i: int| 0 <= i < n && #[trigger] s[i] == b,
        best_upto(s, now, n) matches Some(b) ==> forall|i: int|
            0 <= i < n && eligible(#[trigger] s[i], now) ==> s[i].spec_begins_at_ts()
                >= b.spec_begins_at_ts(),
    decreases n,
{
    if n > 0 {
        lemma_best_upto_props(s, now, n - 1);
        let cur = s[n - 1];
        if eligible(cur, now) {
            if best_upto(s, now, n) == Some(cur) {
                assert(0 <= n - 1 < n && s[n - 1] == cur);
            }
        }
    }
}

fn flatten_days(days: Vec<Option<Vec<GridMetadata>>>) -> (r: Vec<GridMetadata>)
    ensures
        r@ == spec_flat(days@),
{
    let ghost days0 = days@;
    let mut rest = days;
    let mut flat: Vec<GridMetadata> = Vec::new();
    proof {
        assert(flat@ + spec_flat(days0) =~= spec_flat(days0));
    }
    while rest.len() > 0
        invariant
            flat@ + spec_flat(rest@) == spec_flat(days0),
        decreases rest.len(),
    {
        let ghost rest0 = rest@;
        let d = rest.remove(0);
        proof {
            assert(rest@ =~= rest0.drop_first());
        }
        match d {
            Some(mut v) => {
                flat.append(&mut v);
            },
            None => {},
        }
        proof {
            assert(flat@ + spec_flat(rest@) =~= spec_flat(days0));
        }
    }
    proof {
        assert(flat@ =~= spec_flat(days0));
    }
    flat
}

/// Reduce one channel's day responses to its candidate broadcast: the
/// earliest entry that neither lies in the past nor already carries a
/// subscription, or `None` when the channel has no such entry. An
/// absent day response counts as an empty one.
pub fn next_candidate(days: Vec<Option<Vec<GridMetadata>>>, now: i64) -> (r: Option<GridMetadata>)
    ensures
        r == spec_next_candidate(days@, now),
        r matches Some(b) ==> b.subscription_id is None && b.grandparent_subscription_id is None,
        r matches Some(b) ==> b.spec_begins_at_ts() >= now,
        r matches Some(b) ==> exists|i: int|
            0 <= i < spec_flat(days@).len() && #[trigger] spec_flat(days@)[i] == b,
        r matches Some(b) ==> forall|i: int|
            0 <= i < spec_flat(days@).len() && eligible(#[trigger] spec_flat(days@)[i], now)
                ==> spec_flat(days@)[i].spec_begins_at_ts() >= b.spec_begins_at_ts(),
        r is None ==> forall|i: int|
            0 <= i < spec_flat(days@).len() ==> !eligible(#[trigger] spec_flat(days@)[i], now),
{
    let ghost daysv = days@;
    let mut flat = flatten_days(days);
    let n = flat.len();
    let mut i: usize = 0;
    let mut best: Option<usize> = None;
    let mut best_ts: i64 = 0;
    while i < n
        invariant
            n == flat@.len(),
            i <= n,
            flat@ == spec_flat(daysv),
            match best {
                None => best_upto(flat@, now, i as int) is None,
                Some(k) => k < i && best_upto(flat@, now, i as int) == Some(flat@[k as int])
                    && best_ts == flat@[k as int].spec_begins_at_ts(),
            },
        decreases n - i,
    {
        let not_subscribed = flat[i].subscription_id.is_none()
            && flat[i].grandparent_subscription_id.is_none();
        let ts = flat[i].begins_at_ts();
        if not_subscribed && ts >= now {
            match best {
                None => {
                    best = Some(i);
                    best_ts = ts;
                },
                Some(_) => {
                    if ts < best_ts {
                        best = Some(i);
                        best_ts = ts;
                    }
                },
            }
        }
        i = i + 1;
    }
    proof {
        lemma_best_upto_props(flat@, now, n as int);
    }
    match best {
        Some(k) => Some(flat.swap_remove(k)),
        None => None,
    }
}

/// Reduce every channel's day responses to its candidate, keeping
/// channel order: one candidate-or-none per channel.
pub fn scan_candidates(all_days: Vec<Vec<Option<Vec<GridMetadata>>>>, now: i64) -> (r: Vec<
    Option<GridMetadata>,
>)
    ensures
        r@.len() == all_days@.len(),
        forall|i: int|
            0 <= i < r@.len() ==> r@[i] == spec_next_candidate(#[trigger] all_days@[i]@, now),
{
    let ghost a0 = all_days@;
    let mut rest = all_days;
    let mut out: Vec<Option<GridMetadata>> = Vec::new();
    proof {
        assert(a0.skip(0) =~= a0);
    }
    while rest.len() > 0
        invariant
            out@.len() + rest@.len() == a0.len(),
            rest@ == a0.skip(out@.len() as int),
            forall|i: int|
                0 <= i < out@.len() ==> out@[i] == spec_next_candidate(#[trigger] a0[i]@, now),
        decreases rest.len(),
    {
        let ghost k = out@.len() as int;
        let days = rest.remove(0);
        proof {
            assert(rest@ =~= a0.skip(k + 1));
            assert(days == a0[k]);
        }
        let c = next_candidate(days, now);
        out.push(c);
    }
    out
}

/// Seconds before air time under which a broadcast must be scheduled
/// at once.
pub const PRE_SCHEDULE_TIME: i64 = 30;

/// A candidate so close to its start that it must be scheduled in this
/// cycle.
pub open spec fn is_due(b: GridMetadata, now: i64) -> bool {
    b.spec_begins_at_ts() - now < PRE_SCHEDULE_TIME
}

/// The due candidates, in channel order.
pub open spec fn spec_due_list(c: Seq<Option<GridMetadata>>, now: i64) -> Seq<GridMetadata>
    decreases c.len(),
{
    if c.len() == 0 {
        Seq::empty()
    } else if c.last() matches Some(b) && is_due(b, now) {
        spec_due_list(c.drop_last(), now).push(c.last()->Some_0)
    } else {
        spec_due_list(c.drop_last(), now)
    }
}

/// The earliest start among the future (not due) candidates of the
/// first `n` channels, the first-seen one winning ties; `None` when no
/// channel has a future candidate there.
pub open spec fn wake_upto(c: Seq<Option<GridMetadata>>, now: i64, n: int) -> Option<i64>
    decreases n,
{
    if n <= 0 {
        None
    } else {
        let prev = wake_upto(c, now, n - 1);
        match c[n - 1] {
            Some(b) => if is_due(b, now) {
                prev
            } else {
                match prev {
                    None => Some(b.spec_begins_at_ts()),
                    Some(w) => if b.spec_begins_at_ts() < w {
                        Some(b.spec_begins_at_ts())
                    } else {
                        Some(w)
                    },
                }
            },
            None => prev,
        }
    }
}

/// When the next cycle should run: the earliest future candidate's
/// start, or one hour from now when no channel has a future candidate.
pub open spec fn spec_next_wake(c: Seq<Option<GridMetadata>>, now: i64) -> int {
    match wake_upto(c, now, c.len() as int) {
        Some(w) => w as int,
        None => now + 3600,
    }
}

/// Split the channels' candidates into the broadcasts that must be
/// scheduled now and the time to sleep until: a candidate starting
/// within the pre-schedule window is due; the wake time is the
/// earliest remaining start, or an hour away when nothing is known.
pub fn select_due(candidates: Vec<Option<GridMetadata>>, now: i64) -> (r: (Vec<GridMetadata>, i64))
    requires
        now <= i64::MAX - 3600,
    ensures
        r.0@ == spec_due_list(candidates@, now),
        r.1 == spec_next_wake(candidates@, now),
        forall|i: int| 0 <= i < r.0@.len() ==> is_due(#[trigger] r.0@[i], now),
{
    let ghost c0 = candidates@;
    let threshold = now + PRE_SCHEDULE_TIME;
    let mut rest = candidates;
    let mut due: Vec<GridMetadata> = Vec::new();
    let mut wake: Option<i64> = None;
    let ghost mut i: int = 0;
    while rest.len() > 0
        invariant
            now <= i64::MAX - 3600,
            threshold == now + PRE_SCHEDULE_TIME,
            0 <= i <= c0.len(),
            rest@ == c0.skip(i),
            due@ == spec_due_list(c0.take(i), now),
            wake == wake_upto(c0, now, i),
            forall|j: int| 0 <= j < due@.len() ==> is_due(#[trigger] due@[j], now),
        decreases rest.len(),
    {
        let ghost rest0 = rest@;
        let cand = rest.remove(0);
        proof {
            assert(rest@ =~= c0.skip(i + 1));
            assert(cand == c0[i]);
            assert(c0.take(i + 1).drop_last() =~= c0.take(i));
            assert(c0.take(i + 1).last() == c0[i]);
        }
        match cand {
            Some(b) => {
                let ts = b.begins_at_ts();
                if ts < threshold {
                    due.push(b);
                } else {
                    match wake {
                        None => {
                            wake = Some(ts);
                        },
                        Some(w) => {
                            if ts < w {
                                wake = Some(ts);
                            }
                        },
                    }
                }
            },
            None => {},
        }
        proof {
            i = i + 1;
        }
    }
    proof {
        assert(c0.skip(i).len() == 0);
        assert(i == c0.len());
        assert(c0.take(i) =~= c0);
    }
    let next_wake = match wake {
        Some(w) => w,
        None => now + 3600,
    };
    (due, next_wake)
}

/// No channel has any candidate: nothing is due, and the engine sleeps
/// the full fallback hour.
pub proof fn lemma_no_candidates_hourly_fallback(c: Seq<Option<GridMetadata>>, now: i64)
    requires
        forall|i: int| 0 <= i < c.len() ==> c[i] is None,
    ensures
        spec_due_list(c, now).len() == 0,
        spec_next_wake(c, now) == now + 3600,
    decreases c.len(),
{
    if c.len() > 0 {
        assert(forall|i: int| 0 <= i < c.drop_last().len() ==> c.drop_last()[i] is None);
        lemma_no_candidates_hourly_fallback(c.drop_last(), now);
        lemma_wake_upto_step_none(c, now, c.len() as int);
    }
}

proof fn lemma_wake_upto_step_none(c: Seq<Option<GridMetadata>>, now: i64, n: int)
    requires
        0 < n <= c.len(),
        forall|i: int| 0 <= i < n ==> c[i] is None,
    ensures
        wake_upto(c, now, n) is None,
    decreases n,
{
    if n > 1 {
        lemma_wake_upto_step_none(c, now, n - 1);
    } else {
        assert(wake_upto(c, now, 0) is None);
    }
    assert(c[n - 1] is None);
}

/// Every channel holds a candidate outside the pre-schedule window:
/// nothing is due, and the wake time is the minimum of the candidates'
/// start times.
pub proof fn lemma_all_future_next_wake_is_min(c: Seq<Option<GridMetadata>>, now: i64)
    requires
        c.len() > 0,
        forall|i: int| 0 <= i < c.len() ==> c[i] is Some,
        forall|i: int|
            0 <= i < c.len() ==> (#[trigger] c[i])->Some_0.spec_begins_at_ts() - now
                >= PRE_SCHEDULE_TIME,
    ensures
        spec_due_list(c, now).len() == 0,
        exists|i: int|
            0 <= i < c.len() && spec_next_wake(c, now) == (#[trigger] c[i])->Some_0.spec_begins_at_ts(),
        forall|i: int|
            0 <= i < c.len() ==> spec_next_wake(c, now)
                <= (#[trigger] c[i])->Some_0.spec_begins_at_ts(),
{
    lemma_due_list_none_due(c, now);
    lemma_wake_upto_min(c, now, c.len() as int);
}

proof fn lemma_due_list_none_due(c: Seq<Option<GridMetadata>>, now: i64)
    requires
        forall|i: int|
            0 <= i < c.len() ==> (#[trigger] c[i] matches Some(b) ==> !is_due(b, now)),
    ensures
        spec_due_list(c, now).len() == 0,
    decreases c.len(),
{
    if c.len() > 0 {
        assert(forall|i: int|
            0 <= i < c.drop_last().len() ==> (#[trigger] c.drop_last()[i] matches Some(b)
                ==> !is_due(b, now)));
        lemma_due_list_none_due(c.drop_last(), now);
    }
}

proof fn lemma_wake_upto_min(c: Seq<Option<GridMetadata>>, now: i64, n: int)
    requires
        0 < n <= c.len(),
        forall|i: int| 0 <= i < c.len() ==> c[i] is Some,
        forall|i: int|
            0 <= i < c.len() ==> (#[trigger] c[i])->Some_0.spec_begins_at_ts() - now
                >= PRE_SCHEDULE_TIME,
    ensures
        wake_upto(c, now, n) matches Some(w) && exists|i: int|
            0 <= i < n && w == (#[trigger] c[i])->Some_0.spec_begins_at_ts(),
        forall|i: int|
            0 <= i < n ==> wake_upto(c, now, n)->Some_0
                <= (#[trigger] c[i])->Some_0.spec_begins_at_ts(),
    decreases n,
{
    assert(c[n - 1] is Some);
    let ts = c[n - 1]->Some_0.spec_begins_at_ts();
    if n > 1 {
        lemma_wake_upto_min(c, now, n - 1);
        let w_prev = wake_upto(c, now, n - 1)->Some_0;
        if ts < w_prev {
            assert(0 <= n - 1 < n && wake_upto(c, now, n)->Some_0
                == (c[n - 1])->Some_0.spec_begins_at_ts());
        }
    } else {
        assert(wake_upto(c, now, 0) is None);
        assert(0 <= n - 1 < n && wake_upto(c, now, n)->Some_0
            == (c[n - 1])->Some_0.spec_begins_at_ts());
    }
}

/// The first of the template's required settings that is absent, in
/// the order the builder reads them, or `None` when all are present.
pub open spec fn spec_first_missing_setting(s: Seq<TemplateSetting>) -> Option<Seq<char>> {
    if spec_setting_default(s, "minVideoQuality"@) is None {
        Some("minVideoQuality"@)
    } else if spec_setting_default(s, "replaceLowerQuality"@) is None {
        Some("replaceLowerQuality"@)
    } else if spec_setting_default(s, "recordPartials"@) is None {
        Some("recordPartials"@)
    } else if spec_setting_default(s, "comskipEnabled"@) is None {
        Some("comskipEnabled"@)
    } else if spec_setting_default(s, "comskipMethod"@) is None {
        Some("comskipMethod"@)
    } else if spec_setting_default(s, "oneShot"@) is None {
        Some("oneShot"@)
    } else if spec_setting_default(s, "remoteMedia"@) is None {
        Some("remoteMedia"@)
    } else {
        None
    }
}

/// Assemble the recording request for a due broadcast from its
/// template list and the resolved library identifiers. Fails when the
/// broadcast has no airing, the template list is empty, or a required
/// setting is absent; otherwise the request carries the template's
/// defaults, the airing's channel and timeslot, fixed offsets of 0 and
/// 4 minutes, and the Film library for type code 1 (the TV library for
/// every other code).
pub fn build_subscription(
    metadata: &GridMetadata,
    templates: &Vec<TemplateSubscription<TemplateParameters>>,
    tv_library_id: &String,
    film_library_id: &String,
) -> (r: Result<Subscription, ManagerError>)
    ensures
        metadata.media@.len() == 0 ==> (r matches Err(
            ManagerError::Plex(PlexError::PlexResponse(m)),
        ) && m@ == "Recording has no Media"@),
        metadata.media@.len() > 0 && templates@.len() == 0 ==> (r matches Err(
            ManagerError::Plex(PlexError::PlexResponse(m)),
        ) && m@ == "Subscription template has no media"@),
        metadata.media@.len() > 0 && templates@.len() > 0 ==> match spec_first_missing_setting(
            templates@[0].setting@,
        ) {
            Some(name) => r matches Err(ManagerError::Plex(PlexError::PlexResponse(m)))
                && m@ == spec_missing_setting_msg(name),
            None => r matches Ok(sub) && ({
                let t = templates@[0];
                &&& sub.prefs.min_video_quality@ == spec_setting_default(
                    t.setting@,
                    "minVideoQuality"@,
                )->Some_0
                &&& sub.prefs.replace_lower_quality@ == spec_setting_default(
                    t.setting@,
                    "replaceLowerQuality"@,
                )->Some_0
                &&& sub.prefs.record_partials@ == spec_setting_default(
                    t.setting@,
                    "recordPartials"@,
                )->Some_0
                &&& sub.prefs.comskip_enabled@ == spec_setting_default(
                    t.setting@,
                    "comskipEnabled"@,
                )->Some_0
                &&& sub.prefs.comskip_method@ == spec_setting_default(
                    t.setting@,
                    "comskipMethod"@,
                )->Some_0
                &&& sub.prefs.one_shot@ == spec_setting_default(t.setting@, "oneShot"@)->Some_0
                &&& sub.prefs.remote_media@ == spec_setting_default(
                    t.setting@,
                    "remoteMedia"@,
                )->Some_0
                &&& sub.prefs.start_offset_minutes == 0
                &&& sub.prefs.end_offset_minutes == 4
                &&& sub.prefs.lineup_channel@ == metadata.media@[0].channel_identifier@
                &&& sub.prefs.start_timeslot == metadata.media@[0].begins_at
                &&& sub.hints == t.parameters.hints
                &&& sub.params == t.parameters.params
                &&& sub.target_library_section_id@ == (if t.type_code == 1 {
                    film_library_id@
                } else {
                    tv_library_id@
                })
                &&& sub.target_library_location_id@ == (if t.type_code == 1 {
                    film_library_id@
                } else {
                    tv_library_id@
                })
                &&& sub.include_grabs == 1
            }),
        },
{
    if metadata.media.len() == 0 {
        return Err(ManagerError::Plex(PlexError::PlexResponse("Recording has no Media".to_owned())));
    }
    if templates.len() == 0 {
        return Err(ManagerError::Plex(
            PlexError::PlexResponse("Subscription template has no media".to_owned()),
        ));
    }
    let media = &metadata.media[0];
    let t = &templates[0];
    let min_video_quality = match t.setting_default("minVideoQuality") {
        Ok(v) => v,
        Err(e) => {
            return Err(ManagerError::Plex(e));
        },
    };
    let replace_lower_quality = match t.setting_default("replaceLowerQuality") {
        Ok(v) => v,
        Err(e) => {
            return Err(ManagerError::Plex(e));
        },
    };
    let record_partials = match t.setting_default("recordPartials") {
        Ok(v) => v,
        Err(e) => {
            return Err(ManagerError::Plex(e));
        },
    };
    let comskip_enabled = match t.setting_default("comskipEnabled") {
        Ok(v) => v,
        Err(e) => {
            return Err(ManagerError::Plex(e));
        },
    };
    let comskip_method = match t.setting_default("comskipMethod") {
        Ok(v) => v,
        Err(e) => {
            return Err(ManagerError::Plex(e));
        },
    };
    let one_shot = match t.setting_default("oneShot") {
        Ok(v) => v,
        Err(e) => {
            return Err(ManagerError::Plex(e));
        },
    };
    let remote_media = match t.setting_default("remoteMedia") {
        Ok(v) => v,
        Err(e) => {
            return Err(ManagerError::Plex(e));
        },
    };
    let target_library = if t.type_code == 1 {
        film_library_id
    } else {
        tv_library_id
    };
    Ok(
        Subscription {
            prefs: SubscriptionPrefs {
                min_video_quality,
                replace_lower_quality,
                record_partials,
                start_offset_minutes: 0,
                end_offset_minutes: 4,
                lineup_channel: media.channel_identifier.clone(),
                start_timeslot: media.begins_at,
                comskip_enabled,
                comskip_method,
                one_shot,
                remote_media,
            },
            hints: t.parameters.hints.clone(),
            params: t.parameters.params.clone(),
            target_library_section_id: target_library.clone(),
            target_library_location_id: target_library.clone(),
            include_grabs: 1,
        },
    )
}

/// The largest timestamp the scan-date helper accepts: the last second
/// of year 9999, keeping the printed year at four digits.
pub const MAX_DATE_TS: i64 = 253_402_300_799;

/// The date, as `YYYY-MM-DD` in UTC, of the moment `ts` seconds after
/// the epoch.
pub uninterp spec fn utc_date_string(ts: int) -> Seq<char>;

/// Relies on chrono's `DateTime::<Utc>::from_timestamp` and
/// `format("%Y-%m-%d")`: the printed calendar date is a function of
/// the timestamp alone.
#[verifier::external_body]
fn format_utc_date(ts: i64) -> (r: String)
    requires
        0 <= ts <= MAX_DATE_TS,
    ensures
        r@ == utc_date_string(ts as int),
{
    match chrono::DateTime::<chrono::Utc>::from_timestamp(ts, 0) {
        Some(d) => d.format("%Y-%m-%d").to_string(),
        None => String::new(),
    }
}

/// The three dates whose grids one scan cycle queries: yesterday,
/// today and tomorrow relative to `now`, each as `YYYY-MM-DD` in UTC.
pub fn grid_dates(now: i64) -> (r: Vec<String>)
    requires
        86_400 <= now <= MAX_DATE_TS - 86_400,
    ensures
        r@.len() == 3,
        r@[0]@ == utc_date_string(now - 86_400),
        r@[1]@ == utc_date_string(now as int),
        r@[2]@ == utc_date_string(now + 86_400),
{
    let yesterday = format_utc_date(now - 86_400);
    let today = format_utc_date(now);
    let tomorrow = format_utc_date(now + 86_400);
    let mut r: Vec<String> = Vec::new();
    r.push(yesterday);
    r.push(today);
    r.push(tomorrow);
    r
}

/// How long the loop sleeps after a cycle: until `PRE_SCHEDULE_TIME`
/// seconds before the wake time, or not at all when that moment has
/// already passed.
pub fn sleep_seconds(next_wake: i64, now: i64) -> (r: u64)
    requires
        next_wake >= 0,
        now >= 0,
    ensures
        r as int == if next_wake - PRE_SCHEDULE_TIME - now >= 0 {
            next_wake - PRE_SCHEDULE_TIME - now
        } else {
            0
        },
{
    if next_wake <= now {
        return 0;
    }
    let diff = next_wake - now;
    if diff >= PRE_SCHEDULE_TIME {
        (diff - PRE_SCHEDULE_TIME) as u64
    } else {
        0
    }
}

} // verus!
