use vstd::prelude::*;

use crate::ident::{blank, generate_id, generated_id, is_blank, now_millis};
use crate::site::{sites_view, SiteData, SiteView};

verus! {

/// What reading the storage file gave.
pub enum StoreContents {
    /// There is no storage file yet.
    Missing,
    /// The file exists but does not hold a well-formed collection.
    Malformed,
    /// The file holds this collection.
    Records(Vec<SiteData>),
}

/// The collection that an operation starts from: the stored one, or an empty
/// one when the file is missing or malformed.
pub open spec fn loaded(contents: StoreContents) -> Seq<SiteView> {
    match contents {
        StoreContents::Records(v) => sites_view(v@),
        _ => Seq::empty(),
    }
}

/// The record as it is stored by a save at `millis`: a blank identifier is
/// replaced by a generated one, every other field is kept.
pub open spec fn saved_view(site: SiteView, millis: int) -> SiteView {
    if blank(site.id) {
        SiteView { id: generated_id(millis), ..site }
    } else {
        site
    }
}

/// The collection after saving `site` at `millis`: the record is appended.
pub open spec fn after_save(sites: Seq<SiteView>, site: SiteView, millis: int) -> Seq<SiteView> {
    sites.push(saved_view(site, millis))
}

/// The collection after deleting `id`: every record with exactly that
/// identifier is removed, the others keep their order.
pub open spec fn after_delete(sites: Seq<SiteView>, id: Seq<char>) -> Seq<SiteView> {
    sites.filter(|s: SiteView| s.id != id)
}

/// The collection that loading returns, and that saving and deleting start
/// from: the stored one, or an empty one when the file is missing or
/// malformed.
pub fn load_from(contents: StoreContents) -> (r: Vec<SiteData>)
    ensures
        sites_view(r@) == loaded(contents),
{
    match contents {
        StoreContents::Records(v) => v,
        _ => {
            let r: Vec<SiteData> = Vec::new();
            assert(sites_view(r@) =~= Seq::<SiteView>::empty());
            r
        },
    }
}

/// The record as a save at `millis` stores it.
pub fn with_id_at(site: SiteData, millis: i64) -> (r: SiteData)
    ensures
        r@ == saved_view(site@, millis as int),
{
    let mut site = site;
    if is_blank(site.id.as_str()) {
        site.id = generate_id(millis);
    }
    site
}

/// Appends `site` as a save at `millis` stores it.
pub fn append_at(sites: &mut Vec<SiteData>, site: SiteData, millis: i64)
    ensures
        sites_view(final(sites)@) == after_save(sites_view(old(sites)@), site@, millis as int),
{
    let stored = with_id_at(site, millis);
    sites.push(stored);
    assert(sites_view(final(sites)@) =~= after_save(sites_view(old(sites)@), site@, millis as int));
}

/// Appends `site`, generating its identifier from the current time when it
/// is blank. A record with an identifier is appended unchanged.
pub fn append_site(sites: &mut Vec<SiteData>, site: SiteData)
    ensures
        exists|millis: i64|
            0 <= millis && sites_view(final(sites)@) == after_save(
                sites_view(old(sites)@),
                site@,
                millis as int,
            ),
        !blank(site@.id) ==> sites_view(final(sites)@) == sites_view(old(sites)@).push(site@),
{
    let millis = now_millis();
    append_at(sites, site, millis);
}

/// Removes every record whose identifier is exactly `id`.
pub fn remove_site(sites: &mut Vec<SiteData>, id: &str)
    ensures
        sites_view(final(sites)@) == after_delete(sites_view(old(sites)@), id@),
{
    let key = String::from_str(id);
    let ghost all = sites_view(sites@);
    let mut kept: Vec<SiteData> = Vec::new();
    let n = sites.len();
    let mut i: usize = 0;
    proof {
        reveal(Seq::filter);
        assert(all.subrange(0, 0) =~= Seq::<SiteView>::empty());
        assert(sites_view(kept@) =~= Seq::<SiteView>::empty());
    }
    while i < n
        invariant
            n == sites@.len(),
            all == sites_view(sites@),
            key@ == id@,
            i <= n,
            sites_view(kept@) == after_delete(all.subrange(0, i as int), id@),
        decreases n - i,
    {
        let ghost before = sites_view(kept@);
        if sites[i].id != key {
            kept.push(sites[i].duplicate());
        }
        proof {
            reveal(Seq::filter);
            assert(all.subrange(0, i + 1).drop_last() =~= all.subrange(0, i as int));
            assert(all.subrange(0, i + 1).last() == sites@[i as int]@);
            if sites@[i as int]@.id != id@ {
                assert(sites_view(kept@) =~= before.push(sites@[i as int]@));
            } else {
                assert(sites_view(kept@) =~= before);
            }
        }
        i = i + 1;
    }
    assert(all.subrange(0, n as int) =~= all);
    *sites = kept;
}

/// The collection that saving `site` writes back, for a save at `millis`.
pub fn save_into_at(contents: StoreContents, site: SiteData, millis: i64) -> (r: Vec<SiteData>)
    ensures
        sites_view(r@) == after_save(loaded(contents), site@, millis as int),
{
    let mut sites = load_from(contents);
    append_at(&mut sites, site, millis);
    sites
}

/// The collection that saving `site` writes back, its identifier generated
/// from the current time when it is blank.
pub fn save_into(contents: StoreContents, site: SiteData) -> (r: Vec<SiteData>)
    ensures
        exists|millis: i64|
            0 <= millis && sites_view(r@) == after_save(loaded(contents), site@, millis as int),
        !blank(site@.id) ==> sites_view(r@) == loaded(contents).push(site@),
{
    let mut sites = load_from(contents);
    append_site(&mut sites, site);
    sites
}

/// The collection that deleting `id` writes back.
pub fn delete_from(contents: StoreContents, id: &str) -> (r: Vec<SiteData>)
    ensures
        sites_view(r@) == after_delete(loaded(contents), id@),
{
    let mut sites = load_from(contents);
    remove_site(&mut sites, id);
    sites
}

} // verus!
