use crate::bang::Bang;
use crate::cache::BangCache;
use crate::config::{AppConfig, FileConfig};
use crate::error::CatalogError;
use vstd::prelude::*;

verus! {

/// A mapping with a list of records laid over it, one after the other: each
/// record sets the template of its trigger, so a later record wins over an
/// earlier one and over the mapping.
pub open spec fn overlaid(base: Map<Seq<char>, Seq<char>>, entries: Seq<Bang>) -> Map<
    Seq<char>,
    Seq<char>,
>
    decreases entries.len(),
{
    if entries.len() == 0 {
        base
    } else {
        overlaid(base, entries.drop_last()).insert(
            entries.last().trigger@,
            entries.last().url_template@,
        )
    }
}

/// The mapping that a list of records alone gives.
pub open spec fn catalog_of(entries: Seq<Bang>) -> Map<Seq<char>, Seq<char>> {
    overlaid(Map::empty(), entries)
}

/// The records of an optional overlay list; none where there is no list.
pub open spec fn overlay_entries(overlay: Option<Vec<Bang>>) -> Seq<Bang> {
    match overlay {
        Some(list) => list@,
        None => Seq::empty(),
    }
}

/// The merged catalog: the remote records where a fetch brought them,
/// otherwise the current mapping; the configured records laid over that.
pub open spec fn merged(
    remote: Option<Seq<Bang>>,
    current: Map<Seq<char>, Seq<char>>,
    overlay: Seq<Bang>,
) -> Map<Seq<char>, Seq<char>> {
    overlaid(
        match remote {
            Some(records) => catalog_of(records),
            None => current,
        },
        overlay,
    )
}

/// The mapping after a refresh: the merged catalog where the fetch brought
/// records, the mapping as it was where the fetch failed.
pub open spec fn refreshed(
    current: Map<Seq<char>, Seq<char>>,
    remote: Option<Seq<Bang>>,
    overlay: Seq<Bang>,
) -> Map<Seq<char>, Seq<char>> {
    match remote {
        Some(records) => merged(Some(records), current, overlay),
        None => current,
    }
}

/// Whether a list holds a record with the given trigger.
pub open spec fn mentions(entries: Seq<Bang>, trigger: Seq<char>) -> bool {
    exists|i: int| 0 <= i < entries.len() && #[trigger] entries[i].trigger@ == trigger
}

/// Laying records over a mapping leaves every trigger that no record names
/// as it was: present or absent, and with the same template.
pub proof fn lemma_overlay_keeps_others(
    base: Map<Seq<char>, Seq<char>>,
    entries: Seq<Bang>,
    trigger: Seq<char>,
)
    requires
        !mentions(entries, trigger),
    ensures
        overlaid(base, entries).contains_key(trigger) == base.contains_key(trigger),
        base.contains_key(trigger) ==> overlaid(base, entries)[trigger] == base[trigger],
    decreases entries.len(),
{
    if entries.len() > 0 {
        let front = entries.drop_last();
        assert forall|i: int| 0 <= i < front.len() implies #[trigger] front[i].trigger@
            != trigger by {
            assert(front[i] == entries[i]);
        }
        assert(entries.last() == entries[entries.len() - 1]);
        lemma_overlay_keeps_others(base, front, trigger);
    }
}

/// Laying records over a mapping gives the trigger of a record the template
/// of that record, provided that no later record of the list names the same
/// trigger.
pub proof fn lemma_overlay_last_wins(base: Map<Seq<char>, Seq<char>>, entries: Seq<Bang>, j: int)
    requires
        0 <= j < entries.len(),
        forall|k: int| j < k < entries.len() ==> entries[k].trigger@ != entries[j].trigger@,
    ensures
        overlaid(base, entries).contains_key(entries[j].trigger@),
        overlaid(base, entries)[entries[j].trigger@] == entries[j].url_template@,
    decreases entries.len(),
{
    if j < entries.len() - 1 {
        let front = entries.drop_last();
        assert(front[j] == entries[j]);
        assert forall|k: int| j < k < front.len() implies front[k].trigger@
            != front[j].trigger@ by {
            assert(front[k] == entries[k]);
        }
        lemma_overlay_last_wins(base, front, j);
        assert(entries.last().trigger@ != entries[j].trigger@);
    }
}

/// Configured records win: whatever the remote catalog or the current
/// mapping holds for a trigger, the merged catalog gives the trigger the
/// template of the configured record that names it (of the last such record,
/// where the overlay names a trigger more than once).
pub proof fn lemma_configured_wins(
    remote: Option<Seq<Bang>>,
    current: Map<Seq<char>, Seq<char>>,
    overlay: Seq<Bang>,
    j: int,
)
    requires
        0 <= j < overlay.len(),
        forall|k: int| j < k < overlay.len() ==> overlay[k].trigger@ != overlay[j].trigger@,
    ensures
        merged(remote, current, overlay).contains_key(overlay[j].trigger@),
        merged(remote, current, overlay)[overlay[j].trigger@] == overlay[j].url_template@,
{
    let base = match remote {
        Some(records) => catalog_of(records),
        None => current,
    };
    lemma_overlay_last_wins(base, overlay, j);
}

/// Laying the same records over a mapping a second time changes nothing.
pub proof fn lemma_overlay_twice(base: Map<Seq<char>, Seq<char>>, entries: Seq<Bang>)
    ensures
        overlaid(overlaid(base, entries), entries) == overlaid(base, entries),
{
    let once = overlaid(base, entries);
    let twice = overlaid(once, entries);
    assert forall|t: Seq<char>|
        #![trigger twice.dom().contains(t)]
        #![trigger once.dom().contains(t)]
        twice.dom().contains(t) == once.dom().contains(t) && (once.dom().contains(t) ==> twice[t]
            == once[t]) by {
        if mentions(entries, t) {
            let j = lemma_last_mention(entries, t);
            lemma_overlay_last_wins(base, entries, j);
            lemma_overlay_last_wins(once, entries, j);
        } else {
            lemma_overlay_keeps_others(once, entries, t);
        }
    }
    assert(twice =~= once);
}

/// A trigger that a list names has a last record that names it.
proof fn lemma_last_mention(entries: Seq<Bang>, trigger: Seq<char>) -> (j: int)
    requires
        mentions(entries, trigger),
    ensures
        0 <= j < entries.len(),
        entries[j].trigger@ == trigger,
        forall|k: int| j < k < entries.len() ==> entries[k].trigger@ != trigger,
    decreases entries.len(),
{
    let i = choose|i: int| 0 <= i < entries.len() && #[trigger] entries[i].trigger@ == trigger;
    if entries.last().trigger@ == trigger {
        entries.len() - 1
    } else {
        let front = entries.drop_last();
        assert(front[i].trigger@ == trigger);
        let j = lemma_last_mention(front, trigger);
        assert(front[j] == entries[j]);
        assert forall|k: int| j < k < entries.len() implies entries[k].trigger@ != trigger by {
            if k < front.len() {
                assert(front[k] == entries[k]);
            }
        }
        j
    }
}

/// A refresh that is run a second time, with the same remote records (or
/// the same failure) and the same overlay, leaves the mapping as the first
/// run left it.
pub proof fn lemma_refresh_idempotent(
    current: Map<Seq<char>, Seq<char>>,
    remote: Option<Seq<Bang>>,
    overlay: Seq<Bang>,
)
    ensures
        refreshed(refreshed(current, remote, overlay), remote, overlay) == refreshed(
            current,
            remote,
            overlay,
        ),
{
}

/// Merging again over the result of a merge, with the same remote records
/// (or without any) and the same overlay, gives the same catalog.
pub proof fn lemma_merge_idempotent(
    current: Map<Seq<char>, Seq<char>>,
    remote: Option<Seq<Bang>>,
    overlay: Seq<Bang>,
)
    ensures
        merged(remote, merged(remote, current, overlay), overlay) == merged(
            remote,
            current,
            overlay,
        ),
{
    if remote is None {
        lemma_overlay_twice(current, overlay);
    }
}

/// A refresh whose fetch failed leaves every mapping as it was, whatever
/// the overlay holds.
pub proof fn lemma_failed_refresh_keeps_all(current: Map<Seq<char>, Seq<char>>, overlay: Seq<Bang>)
    ensures
        refreshed(current, None, overlay) == current,
{
}

/// After one mapping is inserted, its trigger yields its template, and
/// every other trigger is present or absent, and mapped, as before.
pub proof fn lemma_insert_then_lookup(
    before: Map<Seq<char>, Seq<char>>,
    trigger: Seq<char>,
    url_template: Seq<char>,
)
    ensures
        before.insert(trigger, url_template).contains_key(trigger),
        before.insert(trigger, url_template)[trigger] == url_template,
        forall|other: Seq<char>|
            other != trigger ==> (before.insert(trigger, url_template).contains_key(other)
                == before.contains_key(other)),
        forall|other: Seq<char>|
            other != trigger && before.contains_key(other) ==> before.insert(
                trigger,
                url_template,
            )[other] == before[other],
{
}

/// Lays a list of records over a cache, in the order of the list.
pub fn overlay_onto(cache: &mut BangCache, entries: &Vec<Bang>)
    ensures
        final(cache)@ == overlaid(old(cache)@, entries@),
{
    let mut i: usize = 0;
    while i < entries.len()
        invariant
            i <= entries.len(),
            cache@ == overlaid(old(cache)@, entries@.subrange(0, i as int)),
        decreases entries.len() - i,
    {
        cache.insert(entries[i].trigger.clone(), entries[i].url_template.clone());
        proof {
            assert(entries@.subrange(0, i + 1).drop_last() =~= entries@.subrange(0, i as int));
        }
        i += 1;
    }
    proof {
        assert(entries@.subrange(0, entries.len() as int) =~= entries@);
    }
}

/// The records of an optional list of records, as the contracts read them.
pub open spec fn remote_entries(remote: Option<&Vec<Bang>>) -> Option<Seq<Bang>> {
    match remote {
        Some(list) => Some(list@),
        None => None,
    }
}

/// Merges what a fetch brought with the configured overlay. Where the fetch
/// brought nothing, the current mapping takes the place of the remote
/// records, so that the last good catalog is not lost.
pub fn merge(remote: Option<&Vec<Bang>>, current: &BangCache, overlay: &Option<Vec<Bang>>) -> (r:
    BangCache)
    ensures
        r@ == merged(remote_entries(remote), current@, overlay_entries(*overlay)),
{
    let mut r = match remote {
        Some(records) => {
            let mut fresh = BangCache::new();
            overlay_onto(&mut fresh, records);
            fresh
        },
        None => current.duplicate(),
    };
    match overlay {
        Some(list) => {
            overlay_onto(&mut r, list);
        },
        None => {},
    }
    r
}

/// What a fetch brought, as the contracts read it: the records, or nothing
/// where it failed.
pub open spec fn fetched_entries(fetched: Result<Vec<Bang>, CatalogError>) -> Option<Seq<Bang>> {
    match fetched {
        Ok(list) => Some(list@),
        Err(_) => None,
    }
}

/// The catalog that a refresh puts in the cache, computed apart from the
/// cache: the remote records with the configured records laid over them, or
/// the failure of the fetch.
pub fn fresh_catalog(fetched: Result<Vec<Bang>, CatalogError>, overlay: &Option<Vec<Bang>>) -> (r:
    Result<BangCache, CatalogError>)
    ensures
        match fetched {
            Ok(records) => r is Ok && r->Ok_0@ == overlaid(
                catalog_of(records@),
                overlay_entries(*overlay),
            ),
            Err(e) => r is Err && r->Err_0 == e,
        },
{
    match fetched {
        Ok(records) => {
            let mut fresh = BangCache::new();
            overlay_onto(&mut fresh, &records);
            match overlay {
                Some(list) => {
                    overlay_onto(&mut fresh, list);
                },
                None => {},
            }
            Ok(fresh)
        },
        Err(e) => Err(e),
    }
}

/// One refresh of the cache from the outcome of a fetch. Where the fetch
/// brought records, the cache is replaced by the merged catalog. Where it
/// failed, the cache stays as it was and the failure is handed back.
pub fn refresh(
    cache: &mut BangCache,
    fetched: Result<Vec<Bang>, CatalogError>,
    overlay: &Option<Vec<Bang>>,
) -> (r: Result<(), CatalogError>)
    ensures
        final(cache)@ == refreshed(
            old(cache)@,
            fetched_entries(fetched),
            overlay_entries(*overlay),
        ),
        match fetched {
            Ok(_) => r is Ok,
            Err(e) => r == Err::<(), CatalogError>(e),
        },
{
    match fresh_catalog(fetched, overlay) {
        Ok(fresh) => {
            cache.replace(fresh);
            Ok(())
        },
        Err(e) => Err(e),
    }
}

/// What a reload does after the configuration file was read.
pub enum ReloadStep {
    /// The file was read: fetch the remote catalog, then finish the reload
    /// with the overlay list of the file.
    Fetch { overlay: Option<Vec<Bang>> },
    /// The file could not be had: the reload ends here, with this failure.
    Fail(CatalogError),
}

/// The first step of a reload on demand, from what was read of the
/// configuration file. Without a file the reload fails at once and nothing
/// is fetched; with one, the fetch is next, and the overlay list of the file
/// is kept for the last step.
pub fn begin_reload(file: Option<FileConfig>) -> (step: ReloadStep)
    ensures
        step == match file {
            Some(f) => (ReloadStep::Fetch { overlay: f.bangs }),
            None => ReloadStep::Fail(CatalogError::ConfigUnavailable),
        },
{
    match file {
        Some(f) => ReloadStep::Fetch { overlay: f.bangs },
        None => ReloadStep::Fail(CatalogError::ConfigUnavailable),
    }
}

/// The last step of a reload on demand, from the overlay list of the file
/// and the outcome of the fetch. Where the fetch failed, the cache and the
/// configuration stay as they were and the failure is handed back. Else the
/// cache is replaced by the merged catalog and the overlay list of the
/// configuration by that of the file; the other settings stay.
pub fn finish_reload(
    config: &mut AppConfig,
    cache: &mut BangCache,
    overlay: Option<Vec<Bang>>,
    fetched: Result<Vec<Bang>, CatalogError>,
) -> (r: Result<(), CatalogError>)
    ensures
        final(config).port == old(config).port,
        final(config).ip == old(config).ip,
        final(config).bangs_url == old(config).bangs_url,
        final(config).default_search == old(config).default_search,
        final(config).search_suggestions == old(config).search_suggestions,
        final(cache)@ == refreshed(old(cache)@, fetched_entries(fetched), overlay_entries(overlay)),
        match fetched {
            Ok(_) => r is Ok && final(config).bangs == overlay,
            Err(e) => r == Err::<(), CatalogError>(e) && final(config).bangs == old(config).bangs,
        },
{
    match refresh(cache, fetched, &overlay) {
        Ok(()) => {
            config.bangs = overlay;
            Ok(())
        },
        Err(e) => Err(e),
    }
}

/// Adds one record at run time, without a fetch: the record is appended to
/// the overlay list of the configuration and its mapping is inserted into
/// the cache. A configuration without an overlay list refuses the record,
/// and nothing changes.
pub fn insert_bang(config: &mut AppConfig, cache: &mut BangCache, bang: Bang) -> (r: Result<
    (),
    CatalogError,
>)
    ensures
        final(config).port == old(config).port,
        final(config).ip == old(config).ip,
        final(config).bangs_url == old(config).bangs_url,
        final(config).default_search == old(config).default_search,
        final(config).search_suggestions == old(config).search_suggestions,
        match old(config).bangs {
            Some(list) => r is Ok && final(config).bangs is Some && final(config).bangs->0@
                == list@.push(bang) && final(cache)@ == old(cache)@.insert(
                bang.trigger@,
                bang.url_template@,
            ),
            None => r == Err::<(), CatalogError>(CatalogError::NoOverlaySlot) && final(config).bangs is None && final(cache)@ == old(cache)@,
        },
{
    match config.bangs.take() {
        Some(mut list) => {
            cache.insert(bang.trigger.clone(), bang.url_template.clone());
            list.push(bang);
            config.bangs = Some(list);
            Ok(())
        },
        None => Err(CatalogError::NoOverlaySlot),
    }
}

} // verus!
