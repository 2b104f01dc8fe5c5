//! Localized display names and the locale filter applied to them.
use vstd::prelude::*;

verus! {

/// A name mapping viewed as a sequence of (locale code, display name) pairs.
pub open spec fn names_view(names: Seq<(String, String)>) -> Seq<(Seq<char>, Seq<char>)> {
    names.map_values(|e: (String, String)| (e.0@, e.1@))
}

/// The set of locale codes that a request asks for.
pub open spec fn locale_set(locales: Seq<String>) -> Set<Seq<char>> {
    locales.map_values(|l: String| l@).to_set()
}

/// The entries of `names` whose locale code is in `wanted`, in their order.
pub open spec fn select_locales(
    names: Seq<(Seq<char>, Seq<char>)>,
    wanted: Set<Seq<char>>,
) -> Seq<(Seq<char>, Seq<char>)>
    decreases names.len(),
{
    if names.len() == 0 {
        names
    } else {
        let rest = select_locales(names.drop_last(), wanted);
        if wanted.contains(names.last().0) {
            rest.push(names.last())
        } else {
            rest
        }
    }
}

/// The names a reply carries: every entry when no locale is asked for,
/// otherwise only the entries of the requested locales.
pub open spec fn filter_names(
    names: Seq<(Seq<char>, Seq<char>)>,
    wanted: Set<Seq<char>>,
) -> Seq<(Seq<char>, Seq<char>)> {
    if wanted.is_empty() {
        names
    } else {
        select_locales(names, wanted)
    }
}

/// Whether some entry of `names` has locale code `k`.
pub open spec fn has_locale(names: Seq<(Seq<char>, Seq<char>)>, k: Seq<char>) -> bool {
    exists|i: int| 0 <= i < names.len() && #[trigger] names[i].0 == k
}

/// No two entries share a locale code, as in a map.
pub open spec fn unique_codes(names: Seq<(Seq<char>, Seq<char>)>) -> bool {
    forall|i: int, j: int| 0 <= i < j < names.len() ==> #[trigger] names[i].0 != #[trigger] names[j].0
}

/// Selection keeps locale codes distinct.
pub proof fn lemma_select_keeps_codes_unique(
    names: Seq<(Seq<char>, Seq<char>)>,
    wanted: Set<Seq<char>>,
)
    requires
        unique_codes(names),
    ensures
        unique_codes(select_locales(names, wanted)),
    decreases names.len(),
{
    if names.len() > 0 {
        let init = names.drop_last();
        assert(unique_codes(init)) by {
            assert forall|i: int, j: int| 0 <= i < j < init.len() implies #[trigger] init[i].0
                != #[trigger] init[j].0 by {
                assert(init[i] == names[i] && init[j] == names[j]);
            }
        }
        lemma_select_keeps_codes_unique(init, wanted);
        let rest = select_locales(init, wanted);
        if wanted.contains(names.last().0) {
            let sel = rest.push(names.last());
            assert forall|i: int, j: int| 0 <= i < j < sel.len() implies #[trigger] sel[i].0
                != #[trigger] sel[j].0 by {
                if j == rest.len() {
                    lemma_selected_entries(init, wanted, sel[i].0);
                    assert(rest[i].0 == sel[i].0);
                    assert(has_locale(rest, sel[i].0));
                    let k = choose|k: int| 0 <= k < init.len() && #[trigger] init[k].0 == sel[i].0;
                    assert(names[k].0 == init[k].0);
                    assert(names[names.len() - 1].0 != names[k].0);
                } else {
                    assert(sel[i] == rest[i] && sel[j] == rest[j]);
                }
            }
        }
    }
}

/// Filtering keeps locale codes distinct.
pub proof fn lemma_filter_keeps_codes_unique(
    names: Seq<(Seq<char>, Seq<char>)>,
    wanted: Set<Seq<char>>,
)
    requires
        unique_codes(names),
    ensures
        unique_codes(filter_names(names, wanted)),
{
    if !wanted.is_empty() {
        lemma_select_keeps_codes_unique(names, wanted);
    }
}

/// Whether `code` is one of `locales`.
fn is_requested(locales: &Vec<String>, code: &String) -> (r: bool)
    ensures
        r == locale_set(locales@).contains(code@),
{
    let ghost set = locale_set(locales@);
    let mut i: usize = 0;
    while i < locales.len()
        invariant
            i <= locales.len(),
            set == locale_set(locales@),
            forall|j: int| 0 <= j < i ==> locales@[j]@ != code@,
        decreases locales.len() - i,
    {
        if locales[i] == *code {
            assert(locales@.map_values(|l: String| l@)[i as int] == code@);
            return true;
        }
        i = i + 1;
    }
    assert(!set.contains(code@)) by {
        if set.contains(code@) {
            let views = locales@.map_values(|l: String| l@);
            let j = choose|j: int| 0 <= j < views.len() && views[j] == code@;
            assert(locales@[j]@ == code@);
        }
    }
    false
}

/// Keeps the entries of `names` whose locale code is among `locales`; an
/// empty `locales` keeps every entry. Requested codes with no entry are
/// simply absent from the result.
pub fn filter_locales(names: &Vec<(String, String)>, locales: &Vec<String>) -> (r: Vec<(String, String)>)
    ensures
        names_view(r@) == filter_names(names_view(names@), locale_set(locales@)),
        unique_codes(names_view(names@)) ==> unique_codes(names_view(r@)),
{
    let ghost wanted = locale_set(locales@);
    let all = locales.len() == 0;
    proof {
        if !all {
            assert(wanted.contains(locales@[0]@)) by {
                assert(locales@.map_values(|l: String| l@)[0] == locales@[0]@);
            }
        } else {
            assert(locales@.map_values(|l: String| l@) =~= Seq::<Seq<char>>::empty());
            assert(wanted =~= Set::<Seq<char>>::empty());
        }
    }
    let mut r: Vec<(String, String)> = Vec::new();
    let mut i: usize = 0;
    while i < names.len()
        invariant
            i <= names.len(),
            wanted == locale_set(locales@),
            all == wanted.is_empty(),
            names_view(r@) == filter_names(names_view(names@).subrange(0, i as int), wanted),
        decreases names.len() - i,
    {
        let ghost before = names_view(names@).subrange(0, i as int);
        let ghost after = names_view(names@).subrange(0, i as int + 1);
        assert(after.drop_last() =~= before);
        assert(after.last() == (names@[i as int].0@, names@[i as int].1@));
        let keep = all || is_requested(locales, &names[i].0);
        let ghost prev = r@;
        if keep {
            let entry = (names[i].0.clone(), names[i].1.clone());
            r.push(entry);
            assert(names_view(r@) =~= names_view(prev).push(after.last()));
        }
        i = i + 1;
    }
    assert(names_view(names@).subrange(0, names.len() as int) =~= names_view(names@));
    proof {
        if unique_codes(names_view(names@)) {
            lemma_filter_keeps_codes_unique(names_view(names@), wanted);
        }
    }
    r
}

/// An empty locale set keeps a name mapping as it is.
pub proof fn lemma_filter_empty_is_identity(names: Seq<(Seq<char>, Seq<char>)>)
    ensures
        filter_names(names, Set::empty()) == names,
{
}

/// Each entry that survives selection is an entry of the source whose code was asked for.
proof fn lemma_selected_entries(
    names: Seq<(Seq<char>, Seq<char>)>,
    wanted: Set<Seq<char>>,
    k: Seq<char>,
)
    ensures
        has_locale(select_locales(names, wanted), k) ==> has_locale(names, k) && wanted.contains(k),
    decreases names.len(),
{
    if names.len() > 0 {
        let rest = select_locales(names.drop_last(), wanted);
        lemma_selected_entries(names.drop_last(), wanted, k);
        if has_locale(select_locales(names, wanted), k) {
            let sel = select_locales(names, wanted);
            let i = choose|i: int| 0 <= i < sel.len() && #[trigger] sel[i].0 == k;
            if wanted.contains(names.last().0) && i == rest.len() {
                assert(names[names.len() - 1].0 == k);
            } else {
                assert(rest[i].0 == k);
                let j = choose|j: int| 0 <= j < names.drop_last().len() && #[trigger] names.drop_last()[j].0 == k;
                assert(names[j].0 == k);
            }
        }
    }
}

/// With a non-empty locale set, every code in the result is a code of the
/// source and of the set, and no code of the source outside the set appears.
pub proof fn lemma_filter_is_subset(
    names: Seq<(Seq<char>, Seq<char>)>,
    wanted: Set<Seq<char>>,
)
    requires
        !wanted.is_empty(),
    ensures
        forall|k: Seq<char>|
            #[trigger] has_locale(filter_names(names, wanted), k) ==> has_locale(names, k)
                && wanted.contains(k),
        forall|k: Seq<char>|
            has_locale(names, k) && !wanted.contains(k) ==> !#[trigger] has_locale(
                filter_names(names, wanted),
                k,
            ),
{
    assert forall|k: Seq<char>|
        #[trigger] has_locale(filter_names(names, wanted), k) implies has_locale(names, k)
            && wanted.contains(k) by {
        lemma_selected_entries(names, wanted, k);
    }
    assert forall|k: Seq<char>|
        has_locale(names, k) && !wanted.contains(k) implies !#[trigger] has_locale(
            filter_names(names, wanted),
            k,
        ) by {
        lemma_selected_entries(names, wanted, k);
    }
}

} // verus!
