//! Resolving the user's province filters: each entry is either a province
//! UUID, taken as it is, or a case-insensitive part of a province's name,
//! which must pick out exactly one province.
use vstd::prelude::*;
use vstd::utf8::encode_utf8;
use crate::model::Province;
use crate::text::{
    chars_of, contains_chars, has_char, lemma_trimmed_idempotent, occurs_in, owned, to_uppercase,
    trim, trimmed, upper_cased,
};

verus! {

/// The views of a sequence of strings.
pub open spec fn string_views(s: Seq<String>) -> Seq<Seq<char>> {
    s.map_values(|x: String| x@)
}

/// The length in bytes of the UTF-8 encoding of `t`, as `str::len` reports it.
pub open spec fn byte_len(t: Seq<char>) -> usize {
    encode_utf8(t).len() as usize
}

/// An entry is taken as a UUID when it holds a `-` and is longer than 30 bytes.
pub open spec fn looks_like_uuid(t: Seq<char>) -> bool {
    t.contains('-') && byte_len(t) > 30
}

/// The upper-cased names of the provinces, in list order.
pub open spec fn upper_names(ps: Seq<Province>) -> Seq<Seq<char>> {
    ps.map_values(|p: Province| upper_cased(p.nama@))
}

/// The provinces whose name, as given in `uppers` (one per province, in the
/// same order), contains `needle`; in list order.
pub open spec fn matching(ps: Seq<Province>, uppers: Seq<Seq<char>>, needle: Seq<char>) -> Seq<
    Province,
>
    decreases ps.len(),
{
    if ps.len() == 0 {
        Seq::empty()
    } else {
        let rest = matching(ps.drop_last(), uppers.take(ps.len() - 1), needle);
        if occurs_in(needle, uppers[ps.len() - 1]) {
            rest.push(ps.last())
        } else {
            rest
        }
    }
}

/// Why a province entry could not be resolved: the trimmed entry, and for an
/// ambiguous one the names of all provinces that it matches.
pub enum ResolveFailure {
    NoMatch(Seq<char>),
    Ambiguous(Seq<char>, Seq<Seq<char>>),
}

/// How a name entry `t` resolves, given the provinces' names and the entry
/// upper-cased: to the one province whose name contains it.
pub open spec fn pick(
    ps: Seq<Province>,
    uppers: Seq<Seq<char>>,
    t: Seq<char>,
    needle: Seq<char>,
) -> Result<Seq<char>, ResolveFailure> {
    let found = matching(ps, uppers, needle);
    if found.len() == 0 {
        Err(ResolveFailure::NoMatch(t))
    } else if found.len() == 1 {
        Ok(found[0].id@)
    } else {
        Err(ResolveFailure::Ambiguous(t, found.map_values(|p: Province| p.nama@)))
    }
}

/// How one entry resolves against the province list.
pub open spec fn resolve_input(ps: Seq<Province>, input: Seq<char>) -> Result<
    Seq<char>,
    ResolveFailure,
> {
    let t = trimmed(input);
    if looks_like_uuid(t) {
        Ok(t)
    } else {
        pick(ps, upper_names(ps), t, upper_cased(t))
    }
}

/// How a list of entries resolves: the resolved entries in order, or the
/// failure of the first entry that does not resolve.
pub open spec fn resolve_inputs(ps: Seq<Province>, inputs: Seq<Seq<char>>) -> Result<
    Seq<Seq<char>>,
    ResolveFailure,
>
    decreases inputs.len(),
{
    if inputs.len() == 0 {
        Ok(Seq::empty())
    } else {
        match resolve_inputs(ps, inputs.drop_last()) {
            Err(e) => Err(e),
            Ok(done) => match resolve_input(ps, inputs.last()) {
                Ok(id) => Ok(done.push(id)),
                Err(e) => Err(e),
            },
        }
    }
}

/// `items` joined with `sep` between each two of them.
pub open spec fn joined(items: Seq<Seq<char>>, sep: Seq<char>) -> Seq<char>
    decreases items.len(),
{
    if items.len() == 0 {
        Seq::empty()
    } else if items.len() == 1 {
        items[0]
    } else {
        joined(items.drop_last(), sep) + sep + items.last()
    }
}

/// The message shown for a failure.
pub open spec fn failure_message(f: ResolveFailure) -> Seq<char> {
    match f {
        ResolveFailure::NoMatch(t) => "No province matches '"@ + t
            + "'. Use `provinces` command to list all."@,
        ResolveFailure::Ambiguous(t, names) => "'"@ + t + "' matches multiple provinces: "@
            + joined(names, ", "@) + ". Be more specific."@,
    }
}

/// A province entry that could not be resolved.
#[derive(Clone, Debug, PartialEq, Eq)]
pub enum ResolveError {
    /// No province name contains the entry.
    NoMatch { input: String },
    /// Several province names contain the entry; `names` lists them.
    Ambiguous { input: String, names: Vec<String> },
}

impl View for ResolveError {
    type V = ResolveFailure;

    open spec fn view(&self) -> ResolveFailure {
        match self {
            ResolveError::NoMatch { input } => ResolveFailure::NoMatch(input@),
            ResolveError::Ambiguous { input, names } => ResolveFailure::Ambiguous(
                input@,
                string_views(names@),
            ),
        }
    }
}

/// `items` joined with `sep`, as `[String]::join`.
pub fn join(items: &[String], sep: &str) -> (res: String)
    ensures
        res@ == joined(string_views(items@), sep@),
{
    let mut res = String::new();
    let ghost all = string_views(items@);
    for i in 0..items.len()
        invariant
            all == string_views(items@),
            res@ == joined(all.take(i as int), sep@),
    {
        assert(all.take(i + 1).drop_last() == all.take(i as int));
        if i > 0 {
            res.append(sep);
        }
        res.append(items[i].as_str());
    }
    assert(all.take(items@.len() as int) == all);
    res
}

impl ResolveError {
    /// The message that tells the user why the entry was refused.
    pub fn message(&self) -> (res: String)
        ensures
            res@ == failure_message(self@),
    {
        let mut m = String::new();
        match self {
            ResolveError::NoMatch { input } => {
                m.append("No province matches '");
                m.append(input.as_str());
                m.append("'. Use `provinces` command to list all.");
            },
            ResolveError::Ambiguous { input, names } => {
                let listed = join(names.as_slice(), ", ");
                m.append("'");
                m.append(input.as_str());
                m.append("' matches multiple provinces: ");
                m.append(listed.as_str());
                m.append(". Be more specific.");
            },
        }
        m
    }
}

/// Picks the province that a name entry designates: `entry` is the trimmed
/// entry, `upper_entry` that entry upper-cased, and `upper_names` the
/// provinces' names upper-cased, one per province in the same order. The one
/// province whose name contains the entry is taken; none or several is the
/// error.
pub fn pick_province(
    provinces: &[Province],
    upper_names: &[String],
    entry: &str,
    upper_entry: &str,
) -> (res: Result<String, ResolveError>)
    requires
        upper_names@.len() == provinces@.len(),
    ensures
        match res {
            Ok(id) => pick(provinces@, string_views(upper_names@), entry@, upper_entry@) == Ok::<
                Seq<char>,
                ResolveFailure,
            >(id@),
            Err(e) => pick(provinces@, string_views(upper_names@), entry@, upper_entry@) == Err::<
                Seq<char>,
                ResolveFailure,
            >(e@),
        },
{
    let needle = chars_of(upper_entry);
    let ghost ps = provinces@;
    let ghost uppers = string_views(upper_names@);
    let mut ids: Vec<String> = Vec::new();
    let mut names: Vec<String> = Vec::new();
    for i in 0..provinces.len()
        invariant
            ps == provinces@,
            uppers == string_views(upper_names@),
            uppers.len() == ps.len(),
            needle@ == upper_entry@,
            string_views(ids@) == matching(ps.take(i as int), uppers.take(i as int), needle@).map_values(
                |p: Province| p.id@,
            ),
            string_views(names@) == matching(ps.take(i as int), uppers.take(i as int), needle@).map_values(
                |p: Province| p.nama@,
            ),
    {
        let ghost before = matching(ps.take(i as int), uppers.take(i as int), needle@);
        assert(ps.take(i + 1).drop_last() == ps.take(i as int));
        assert(uppers.take(i + 1).take(i as int) == uppers.take(i as int));
        assert(ps.take(i + 1).last() == provinces[i as int]);
        assert(uppers.take(i + 1)[i as int] == upper_names@[i as int]@);
        let upper_chars = chars_of(upper_names[i].as_str());
        if contains_chars(upper_chars.as_slice(), needle.as_slice()) {
            let ghost old_ids = ids@;
            let ghost old_names = names@;
            ids.push(provinces[i].id.clone());
            names.push(provinces[i].nama.clone());
            assert(string_views(ids@) =~= string_views(old_ids).push(provinces@[i as int].id@));
            assert(string_views(names@) =~= string_views(old_names).push(
                provinces@[i as int].nama@,
            ));
            assert(before.push(provinces[i as int]).map_values(|p: Province| p.id@)
                =~= before.map_values(|p: Province| p.id@).push(provinces@[i as int].id@));
            assert(before.push(provinces[i as int]).map_values(|p: Province| p.nama@)
                =~= before.map_values(|p: Province| p.nama@).push(provinces@[i as int].nama@));
        }
    }
    assert(ps.take(provinces@.len() as int) == ps);
    assert(uppers.take(provinces@.len() as int) == uppers);
    let ghost found = matching(ps, uppers, needle@);
    assert(string_views(ids@).len() == ids@.len());
    assert(found.map_values(|p: Province| p.id@).len() == found.len());
    if ids.len() == 0 {
        Err(ResolveError::NoMatch { input: owned(entry) })
    } else if ids.len() == 1 {
        assert(string_views(ids@)[0] == ids@[0]@);
        assert(found.map_values(|p: Province| p.id@)[0] == found[0].id@);
        Ok(ids[0].clone())
    } else {
        Err(ResolveError::Ambiguous { input: owned(entry), names })
    }
}

/// Resolves one entry against the province list.
fn resolve_one(provinces: &[Province], input: &str) -> (res: Result<String, ResolveError>)
    ensures
        match res {
            Ok(id) => resolve_input(provinces@, input@) == Ok::<Seq<char>, ResolveFailure>(id@),
            Err(e) => resolve_input(provinces@, input@) == Err::<Seq<char>, ResolveFailure>(e@),
        },
{
    let t = trim(input);
    if has_char(t, '-') && t.len() > 30 {
        return Ok(owned(t));
    }
    let mut uppers: Vec<String> = Vec::new();
    for i in 0..provinces.len()
        invariant
            uppers@.len() == i,
            forall|j: int| 0 <= j < i ==> (#[trigger] uppers@[j])@ == upper_cased(provinces@[j].nama@),
    {
        uppers.push(to_uppercase(provinces[i].nama.as_str()));
    }
    assert(string_views(uppers@) =~= upper_names(provinces@));
    let needle = to_uppercase(t);
    pick_province(provinces, uppers.as_slice(), t, needle.as_str())
}

/// An error of an earlier entry stays the result however many entries follow.
proof fn lemma_resolve_error_persists(
    ps: Seq<Province>,
    inputs: Seq<Seq<char>>,
    k: int,
    e: ResolveFailure,
)
    requires
        0 <= k <= inputs.len(),
        resolve_inputs(ps, inputs.take(k)) == Err::<Seq<Seq<char>>, ResolveFailure>(e),
    ensures
        resolve_inputs(ps, inputs) == Err::<Seq<Seq<char>>, ResolveFailure>(e),
    decreases inputs.len() - k,
{
    if k < inputs.len() {
        assert(inputs.take(k + 1).drop_last() == inputs.take(k));
        lemma_resolve_error_persists(ps, inputs, k + 1, e);
    } else {
        assert(inputs.take(k) == inputs);
    }
}

/// Resolves province names or UUIDs to UUIDs. Each entry is trimmed; one
/// that holds a `-` and is longer than 30 bytes is taken as a UUID, any other
/// must be contained, ignoring case, in exactly one province name. The first
/// entry that matches no province or several of them is the error.
pub fn resolve_province_ids(provinces: &[Province], inputs: &[String]) -> (res: Result<
    Vec<String>,
    ResolveError,
>)
    ensures
        match res {
            Ok(ids) => resolve_inputs(provinces@, string_views(inputs@)) == Ok::<
                Seq<Seq<char>>,
                ResolveFailure,
            >(string_views(ids@)),
            Err(e) => resolve_inputs(provinces@, string_views(inputs@)) == Err::<
                Seq<Seq<char>>,
                ResolveFailure,
            >(e@),
        },
{
    let ghost all = string_views(inputs@);
    let mut resolved: Vec<String> = Vec::new();
    assert(all.take(0) =~= Seq::<Seq<char>>::empty());
    assert(string_views(resolved@) =~= Seq::<Seq<char>>::empty());
    for i in 0..inputs.len()
        invariant
            all == string_views(inputs@),
            resolve_inputs(provinces@, all.take(i as int)) == Ok::<
                Seq<Seq<char>>,
                ResolveFailure,
            >(string_views(resolved@)),
    {
        assert(all.take(i + 1).drop_last() == all.take(i as int));
        assert(all.take(i + 1).last() == inputs@[i as int]@);
        match resolve_one(provinces, inputs[i].as_str()) {
            Ok(id) => {
                let ghost old_resolved = resolved@;
                resolved.push(id);
                assert(string_views(resolved@) =~= string_views(old_resolved).push(id@));
            },
            Err(e) => {
                proof {
                    lemma_resolve_error_persists(provinces@, all, i + 1, e@);
                }
                return Err(e);
            },
        }
    }
    assert(all.take(inputs@.len() as int) == all);
    Ok(resolved)
}

/// Every province that `matching` returns is one of the list whose name
/// contains the needle.
pub proof fn lemma_matching_members(
    ps: Seq<Province>,
    uppers: Seq<Seq<char>>,
    needle: Seq<char>,
    k: int,
)
    requires
        uppers.len() == ps.len(),
        0 <= k < matching(ps, uppers, needle).len(),
    ensures
        exists|j: int|
            0 <= j < ps.len() && #[trigger] ps[j] == matching(ps, uppers, needle)[k] && occurs_in(
                needle,
                uppers[j],
            ),
    decreases ps.len(),
{
    let n = ps.len() - 1;
    let rest = matching(ps.drop_last(), uppers.take(n), needle);
    if k < rest.len() {
        lemma_matching_members(ps.drop_last(), uppers.take(n), needle, k);
        let j = choose|j: int|
            0 <= j < ps.drop_last().len() && #[trigger] ps.drop_last()[j] == rest[k] && occurs_in(
                needle,
                uppers.take(n)[j],
            );
        assert(ps[j] == ps.drop_last()[j]);
        assert(uppers[j] == uppers.take(n)[j]);
    } else {
        assert(ps[n] == ps.last());
    }
}

/// Resolution goes entry by entry: a list resolves exactly when each of its
/// entries does, to the list of their results in the same order; otherwise
/// the error is that of the first entry that fails, all before it resolving.
pub proof fn law_resolution_is_pointwise(ps: Seq<Province>, inputs: Seq<Seq<char>>)
    ensures
        resolve_inputs(ps, inputs) is Ok <==> (forall|k: int|
            0 <= k < inputs.len() ==> (#[trigger] resolve_input(ps, inputs[k])) is Ok),
        resolve_inputs(ps, inputs) is Ok ==> resolve_inputs(ps, inputs)->Ok_0.len()
            == inputs.len() && forall|k: int|
            0 <= k < inputs.len() ==> resolve_inputs(ps, inputs)->Ok_0[k] == (
            #[trigger] resolve_input(ps, inputs[k]))->Ok_0,
        resolve_inputs(ps, inputs) is Err ==> exists|k: int|
            0 <= k < inputs.len() && (forall|j: int|
                0 <= j < k ==> (#[trigger] resolve_input(ps, inputs[j])) is Ok) && resolve_input(
                ps,
                inputs[k],
            ) is Err && resolve_input(ps, inputs[k])->Err_0 == resolve_inputs(ps, inputs)->Err_0,
    decreases inputs.len(),
{
    if inputs.len() > 0 {
        let init = inputs.drop_last();
        let n = inputs.len() - 1;
        law_resolution_is_pointwise(ps, init);
        assert forall|k: int| 0 <= k < init.len() implies #[trigger] init[k] == inputs[k] by {}
        assert(inputs[n] == inputs.last());
        if resolve_inputs(ps, init) is Err {
            let k = choose|k: int|
                0 <= k < init.len() && (forall|j: int|
                    0 <= j < k ==> (#[trigger] resolve_input(ps, init[j])) is Ok) && resolve_input(
                    ps,
                    init[k],
                ) is Err && resolve_input(ps, init[k])->Err_0 == resolve_inputs(ps, init)->Err_0;
            assert(init[k] == inputs[k]);
            assert forall|j: int| 0 <= j < k implies (#[trigger] resolve_input(
                ps,
                inputs[j],
            )) is Ok by {
                assert(init[j] == inputs[j]);
                assert(resolve_input(ps, init[j]) is Ok);
            }
            assert(!(resolve_input(ps, inputs[k]) is Ok));
        } else {
            assert forall|j: int| 0 <= j < n implies (#[trigger] resolve_input(
                ps,
                inputs[j],
            )) is Ok by {
                assert(init[j] == inputs[j]);
                assert(resolve_input(ps, init[j]) is Ok);
            }
            if resolve_input(ps, inputs.last()) is Ok {
                let out = resolve_inputs(ps, inputs)->Ok_0;
                let done = resolve_inputs(ps, init)->Ok_0;
                assert(out == done.push(resolve_input(ps, inputs.last())->Ok_0));
                assert forall|k: int| 0 <= k < inputs.len() implies out[k] == (
                #[trigger] resolve_input(ps, inputs[k]))->Ok_0 by {
                    if k < n {
                        assert(init[k] == inputs[k]);
                        assert(done[k] == resolve_input(ps, init[k])->Ok_0);
                    }
                }
            }
        }
    }
}

/// A resolved name is the id of a province of the list whose upper-cased
/// name contains the upper-cased, trimmed entry; a UUID entry comes back
/// trimmed and otherwise unchanged.
pub proof fn law_resolved_id_comes_from_list(ps: Seq<Province>, input: Seq<char>)
    requires
        resolve_input(ps, input) is Ok,
    ensures
        looks_like_uuid(trimmed(input)) ==> resolve_input(ps, input)->Ok_0 == trimmed(input),
        !looks_like_uuid(trimmed(input)) ==> exists|j: int|
            0 <= j < ps.len() && (#[trigger] ps[j]).id@ == resolve_input(ps, input)->Ok_0
                && occurs_in(upper_cased(trimmed(input)), upper_cased(ps[j].nama@)),
{
    let t = trimmed(input);
    if !looks_like_uuid(t) {
        lemma_matching_members(ps, upper_names(ps), upper_cased(t), 0);
        let j = choose|j: int|
            0 <= j < ps.len() && #[trigger] ps[j] == matching(ps, upper_names(ps), upper_cased(t))[0]
                && occurs_in(upper_cased(t), upper_names(ps)[j]);
        assert(upper_names(ps)[j] == upper_cased(ps[j].nama@));
    }
}

/// Resolving is stable on UUIDs: an entry taken as a UUID resolves to its
/// trimmed self, and resolving that result again gives it back unchanged.
pub proof fn law_uuid_resolution_is_stable(ps: Seq<Province>, input: Seq<char>)
    requires
        looks_like_uuid(trimmed(input)),
    ensures
        resolve_input(ps, input) == Ok::<Seq<char>, ResolveFailure>(trimmed(input)),
        resolve_input(ps, trimmed(input)) == resolve_input(ps, input),
{
    lemma_trimmed_idempotent(input);
}

/// Joining puts the separator between each two items and nowhere else:
/// nothing for no items, the item itself for one, and each further item
/// after the separator.
pub proof fn law_join(items: Seq<Seq<char>>, x: Seq<char>, sep: Seq<char>)
    ensures
        joined(Seq::empty(), sep) == Seq::<char>::empty(),
        joined(seq![x], sep) == x,
        items.len() > 0 ==> joined(items.push(x), sep) == joined(items, sep) + sep + x,
{
    assert(items.push(x).drop_last() =~= items);
}

} // verus!
