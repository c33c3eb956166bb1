//! Addresses of the auction API and the walk through the paginated catalogue.
use vstd::prelude::*;
use crate::provinces::string_views;
use crate::text::{decimal, owned, push_decimal};

verus! {

/// Base address of the catalogue API.
pub const API_BASE: &'static str = "https://api.lelang.go.id/api/v1";

/// Base address of the reference-data API.
pub const API_AUTH_BASE: &'static str = "https://api-auth.lelang.go.id/api/v1";

/// The query that lists the provinces.
pub open spec fn provinces_url_text() -> Seq<char> {
    API_AUTH_BASE@ + "/master/ref-provinsi?limit=9999"@
}

/// Where the list of all provinces is fetched from.
pub fn provinces_url() -> (res: String)
    ensures
        res@ == provinces_url_text(),
{
    let mut url = owned(API_AUTH_BASE);
    url.append("/master/ref-provinsi?limit=9999");
    url
}

/// One `namakategori[]` query parameter per category, unescaped, in order.
pub open spec fn category_params(categories: Seq<Seq<char>>) -> Seq<char>
    decreases categories.len(),
{
    if categories.len() == 0 {
        Seq::empty()
    } else {
        category_params(categories.drop_last()) + "&namakategori%5B%5D="@ + categories.last()
    }
}

/// The address of one page of the catalogue.
pub open spec fn catalog_page_url_text(
    page: u32,
    page_size: u32,
    categories: Seq<Seq<char>>,
    province_id: Option<Seq<char>>,
) -> Seq<char> {
    API_BASE@ + "/landing-page/katalog-lot-lelang?limit="@ + decimal(page_size as nat)
        + "&dcp=true&page="@ + decimal(page as nat) + category_params(categories) + match province_id {
        Some(p) => "&province="@ + p,
        None => Seq::empty(),
    }
}

/// Where page `page` of the catalogue is fetched from, `page_size` lots per
/// page, restricted to the given categories and, if one is given, province.
pub fn catalog_page_url(
    page: u32,
    page_size: u32,
    categories: &[String],
    province_id: Option<&str>,
) -> (res: String)
    ensures
        res@ == catalog_page_url_text(
            page,
            page_size,
            string_views(categories@),
            match province_id {
                Some(p) => Some(p@),
                None => None,
            },
        ),
{
    let mut url = owned(API_BASE);
    url.append("/landing-page/katalog-lot-lelang?limit=");
    push_decimal(&mut url, page_size as u64);
    url.append("&dcp=true&page=");
    push_decimal(&mut url, page as u64);
    let ghost head = url@;
    let ghost cats = string_views(categories@);
    for i in 0..categories.len()
        invariant
            cats == string_views(categories@),
            url@ == head + category_params(cats.take(i as int)),
    {
        assert(cats.take(i + 1).drop_last() == cats.take(i as int));
        url.append("&namakategori%5B%5D=");
        url.append(categories[i].as_str());
    }
    assert(cats.take(categories@.len() as int) == cats);
    if let Some(p) = province_id {
        url.append("&province=");
        url.append(p);
    }
    url
}

/// The address of the detail page of a lot.
pub open spec fn lot_detail_url_text(lot_lelang_id: Seq<char>) -> Seq<char> {
    API_BASE@ + "/landing-page/info/"@ + lot_lelang_id
}

/// Where the detail of lot `lot_lelang_id` is fetched from.
pub fn lot_detail_url(lot_lelang_id: &str) -> (res: String)
    ensures
        res@ == lot_detail_url_text(lot_lelang_id@),
{
    let mut url = owned(API_BASE);
    url.append("/landing-page/info/");
    url.append(lot_lelang_id);
    url
}

/// The province filters that the catalogue is walked with: once without a
/// filter when none is given, else once per province in order.
pub open spec fn scopes_of(province_ids: Seq<Seq<char>>) -> Seq<Option<Seq<char>>> {
    if province_ids.len() == 0 {
        seq![None]
    } else {
        province_ids.map_values(|p: Seq<char>| Some(p))
    }
}

/// The province filters to walk the catalogue with.
pub fn catalog_scopes(province_ids: &[String]) -> (res: Vec<Option<String>>)
    ensures
        res@.map_values(|o: Option<String>| match o {
            Some(p) => Some(p@),
            None => None,
        }) == scopes_of(string_views(province_ids@)),
{
    let mut res: Vec<Option<String>> = Vec::new();
    if province_ids.len() == 0 {
        res.push(None);
        assert(res@.map_values(|o: Option<String>| match o {
            Some(p) => Some(p@),
            None => None,
        }) =~= seq![None]);
        return res;
    }
    for i in 0..province_ids.len()
        invariant
            res@.len() == i,
            forall|j: int|
                0 <= j < i ==> #[trigger] res@[j] == Some(province_ids@[j]),
    {
        res.push(Some(province_ids[i].clone()));
    }
    assert(res@.map_values(|o: Option<String>| match o {
        Some(p) => Some(p@),
        None => None,
    }) =~= scopes_of(string_views(province_ids@)));
    res
}

/// The page after `page`, or `None` where the walk stops: at the last page
/// that the response announces (one page when it announces none), at an empty
/// page, or at `max_pages` when that is not 0.
pub open spec fn next_page_after(
    page: u32,
    total_page: Option<u32>,
    items_on_page: nat,
    max_pages: u32,
) -> Option<u32> {
    let total = match total_page {
        Some(t) => t,
        None => 1,
    };
    if page >= total || items_on_page == 0 {
        None
    } else if max_pages > 0 && page >= max_pages {
        None
    } else {
        Some((page + 1) as u32)
    }
}

/// Decides whether the catalogue walk goes on after page `page`, which held
/// `items_on_page` lots and announced `total_page` pages.
pub fn next_catalog_page(page: u32, total_page: Option<u32>, items_on_page: usize, max_pages: u32) -> (res:
    Option<u32>)
    ensures
        res == next_page_after(page, total_page, items_on_page as nat, max_pages),
{
    let total = match total_page {
        Some(t) => t,
        None => 1,
    };
    if page >= total || items_on_page == 0 {
        None
    } else if max_pages > 0 && page >= max_pages {
        None
    } else {
        Some(page + 1)
    }
}

/// How many pages a walk fetches from `page` on when every page holds lots
/// and announces `total` pages.
pub open spec fn pages_walked(page: u32, total: u32, max_pages: u32) -> nat
    decreases u32::MAX - page,
{
    match next_page_after(page, Some(total), 1, max_pages) {
        Some(next) => if next > page {
            1 + pages_walked(next, total, max_pages)
        } else {
            1
        },
        None => 1,
    }
}

/// A walk from the first page over pages that all hold lots fetches every
/// announced page, but no more than `max_pages` when that is not 0, and
/// always at least the first page.
pub proof fn law_walk_length(total: u32, max_pages: u32)
    ensures
        pages_walked(1, total, max_pages) == if total <= 1 {
            1
        } else if max_pages > 0 && max_pages < total {
            if max_pages >= 1 { max_pages as nat } else { 1 }
        } else {
            total as nat
        },
{
    lemma_walk_from(1, total, max_pages);
}

proof fn lemma_walk_from(page: u32, total: u32, max_pages: u32)
    requires
        page >= 1,
    ensures
        pages_walked(page, total, max_pages) == {
            let stop = if max_pages > 0 && max_pages < total { max_pages } else { total };
            if page >= stop { 1 } else { (stop - page + 1) as nat }
        },
    decreases u32::MAX - page,
{
    if let Some(next) = next_page_after(page, Some(total), 1, max_pages) {
        lemma_walk_from(next, total, max_pages);
    }
}

/// How a catalogue page address is built: the page size and the page
/// number after the base, then one `namakategori[]` parameter per category
/// in order, each adding exactly its own text, and then the province filter,
/// which only appends `&province=` and the id, whatever the categories.
pub proof fn law_catalog_url_layout(
    page: u32,
    page_size: u32,
    cats: Seq<Seq<char>>,
    c: Seq<char>,
    x: Seq<char>,
)
    ensures
        catalog_page_url_text(page, page_size, Seq::empty(), None) == API_BASE@
            + "/landing-page/katalog-lot-lelang?limit="@ + decimal(page_size as nat)
            + "&dcp=true&page="@ + decimal(page as nat),
        catalog_page_url_text(page, page_size, cats.push(c), None) == catalog_page_url_text(
            page,
            page_size,
            cats,
            None,
        ) + "&namakategori%5B%5D="@ + c,
        catalog_page_url_text(page, page_size, cats, Some(x)) == catalog_page_url_text(
            page,
            page_size,
            cats,
            None,
        ) + "&province="@ + x,
{
    let head = API_BASE@ + "/landing-page/katalog-lot-lelang?limit="@ + decimal(page_size as nat)
        + "&dcp=true&page="@ + decimal(page as nat);
    assert(category_params(Seq::<Seq<char>>::empty()) == Seq::<char>::empty());
    assert(catalog_page_url_text(page, page_size, Seq::empty(), None) =~= head);
    assert(cats.push(c).drop_last() =~= cats);
    assert(category_params(cats.push(c)) == category_params(cats) + "&namakategori%5B%5D="@ + c);
    assert(catalog_page_url_text(page, page_size, cats.push(c), None) =~= head + category_params(
        cats,
    ) + "&namakategori%5B%5D="@ + c);
    assert(catalog_page_url_text(page, page_size, cats, None) =~= head + category_params(cats));
    assert(catalog_page_url_text(page, page_size, cats, Some(x)) =~= head + category_params(cats)
        + "&province="@ + x);
}

/// The walk never goes past an empty page or the announced last page (one
/// page when none is announced), stops at `max_pages` when that is not 0,
/// and otherwise goes on to the very next page.
pub proof fn law_walk_steps(page: u32, total_page: Option<u32>, items_on_page: nat, max_pages: u32)
    ensures
        items_on_page == 0 ==> next_page_after(page, total_page, items_on_page, max_pages) is None,
        total_page is None && page >= 1 ==> next_page_after(
            page,
            total_page,
            items_on_page,
            max_pages,
        ) is None,
        (total_page matches Some(t) && page >= t) ==> next_page_after(
            page,
            total_page,
            items_on_page,
            max_pages,
        ) is None,
        (max_pages > 0 && page >= max_pages) ==> next_page_after(
            page,
            total_page,
            items_on_page,
            max_pages,
        ) is None,
        (total_page matches Some(t) && page < t && items_on_page > 0 && (max_pages == 0 || page
            < max_pages)) ==> next_page_after(page, total_page, items_on_page, max_pages) == Some(
            (page + 1) as u32,
        ),
{
}

/// Without province filters the catalogue is walked once, unfiltered; with
/// filters it is walked once per province, in the order given.
pub proof fn law_scopes(ids: Seq<Seq<char>>)
    ensures
        ids.len() == 0 ==> scopes_of(ids) == seq![None::<Seq<char>>],
        ids.len() > 0 ==> scopes_of(ids).len() == ids.len() && forall|i: int|
            0 <= i < ids.len() ==> #[trigger] scopes_of(ids)[i] == Some(ids[i]),
{
}

} // verus!
