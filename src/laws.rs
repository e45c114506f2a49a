use vstd::prelude::*;

use crate::ident::{
    blank, generated_id, lemma_generated_id_injective, lemma_generated_id_not_blank,
};
use crate::site::{sites_view, SiteData, SiteView};
use crate::store::{after_delete, after_save, loaded, saved_view, StoreContents};

verus! {

/// Saving a record whose identifier is not blank, whatever was stored before,
/// and loading what was written gives a collection that holds that record
/// unchanged, as its last element.
pub proof fn lemma_save_then_load(
    contents: StoreContents,
    site: SiteView,
    millis: int,
    written: Vec<SiteData>,
)
    requires
        !blank(site.id),
        sites_view(written@) == after_save(loaded(contents), site, millis),
    ensures
        loaded(StoreContents::Records(written)).last() == site,
        loaded(StoreContents::Records(written)).contains(site),
{
    let back = loaded(StoreContents::Records(written));
    assert(back[back.len() - 1] == site);
}

/// Saving a record with a blank identifier stores it under a generated
/// identifier that is not blank, with its other fields unchanged.
pub proof fn lemma_blank_id_is_generated(site: SiteView, millis: int)
    requires
        blank(site.id),
    ensures
        saved_view(site, millis).id == generated_id(millis),
        saved_view(site, millis).id.len() > 0,
        !blank(saved_view(site, millis).id),
        saved_view(site, millis).name == site.name,
        saved_view(site, millis).url == site.url,
        saved_view(site, millis).username == site.username,
        saved_view(site, millis).application_password == site.application_password,
{
    lemma_generated_id_not_blank(millis);
}

/// Two saves of records with blank identifiers at different times give them
/// different identifiers.
pub proof fn lemma_generated_ids_differ(a: SiteView, b: SiteView, ma: int, mb: int)
    requires
        blank(a.id),
        blank(b.id),
        ma != mb,
    ensures
        saved_view(a, ma).id != saved_view(b, mb).id,
{
    if generated_id(ma) == generated_id(mb) {
        lemma_generated_id_injective(ma, mb);
    }
}

/// Saving `a` and then `b` appends them in that order after what was stored,
/// and loading what was written gives them back in that order. From a
/// missing file, with identifiers that are not blank, loading gives exactly
/// `[a, b]`.
pub proof fn lemma_append_order(
    contents: StoreContents,
    a: SiteView,
    b: SiteView,
    ma: int,
    mb: int,
    first: Vec<SiteData>,
    second: Vec<SiteData>,
)
    requires
        sites_view(first@) == after_save(loaded(contents), a, ma),
        sites_view(second@) == after_save(loaded(StoreContents::Records(first)), b, mb),
    ensures
        loaded(StoreContents::Records(second)) == loaded(contents) + seq![
            saved_view(a, ma),
            saved_view(b, mb),
        ],
        (contents is Missing && !blank(a.id) && !blank(b.id)) ==> loaded(
            StoreContents::Records(second),
        ) == seq![a, b],
{
    assert(loaded(StoreContents::Records(second)) =~= loaded(contents) + seq![
        saved_view(a, ma),
        saved_view(b, mb),
    ]);
    if contents is Missing {
        assert(loaded(contents) + seq![saved_view(a, ma), saved_view(b, mb)] =~= seq![
            saved_view(a, ma),
            saved_view(b, mb),
        ]);
    }
}

/// Deleting `id` leaves no record with that identifier, keeps every record
/// with another identifier, and adds none.
pub proof fn lemma_delete_exact(sites: Seq<SiteView>, id: Seq<char>)
    ensures
        forall|i: int|
            0 <= i < after_delete(sites, id).len() ==> (#[trigger] after_delete(sites, id)[i]).id
                != id,
        forall|i: int|
            0 <= i < sites.len() && sites[i].id != id ==> after_delete(sites, id).contains(
                #[trigger] sites[i],
            ),
        forall|r: SiteView| #[trigger] after_delete(sites, id).contains(r) ==> sites.contains(r),
        after_delete(sites, id).len() <= sites.len(),
{
    broadcast use vstd::seq_lib::group_filter_ensures;

    let pred = |s: SiteView| s.id != id;
    assert forall|r: SiteView| #[trigger] after_delete(sites, id).contains(r) implies sites.contains(
        r,
    ) by {
        sites.lemma_filter_contains_rev(pred, r);
    }
}

/// Deleting an identifier that no stored record has changes nothing.
pub proof fn lemma_delete_absent(sites: Seq<SiteView>, id: Seq<char>)
    requires
        forall|i: int| 0 <= i < sites.len() ==> (#[trigger] sites[i]).id != id,
    ensures
        after_delete(sites, id) == sites,
    decreases sites.len(),
{
    reveal(Seq::filter);
    if sites.len() > 0 {
        lemma_delete_absent(sites.drop_last(), id);
        assert(sites.drop_last().push(sites.last()) =~= sites);
    }
}

/// A missing or malformed file loads as an empty collection, and a save that
/// follows writes a collection of that one record alone.
pub proof fn lemma_unreadable_is_empty(contents: StoreContents, site: SiteView, millis: int)
    requires
        contents is Missing || contents is Malformed,
    ensures
        loaded(contents).len() == 0,
        after_save(loaded(contents), site, millis) == seq![saved_view(site, millis)],
{
    assert(after_save(loaded(contents), site, millis) =~= seq![saved_view(site, millis)]);
}

} // verus!
