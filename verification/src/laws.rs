//! What holds of every theme registry: the laws of registering and looking
//! up, proved of the model.

use crate::model::{is_last_of_its_name, unseen_names, well_listed, RegistryView};
use crate::theme::{
    builtin_views, lemma_builtin_names_distinct, names_of, one_dark_view, ThemeErrorView,
    ThemeView,
};
use vstd::prelude::*;

verus! {

/// Registering themes keeps a registry well-formed and leaves the theme in
/// effect as it was.
pub proof fn lemma_insert_all_wf(registry: RegistryView, themes: Seq<ThemeView>)
    requires
        registry.wf(),
    ensures
        registry.insert_all(themes).wf(),
        registry.insert_all(themes).active == registry.active,
{
    lemma_insert_all_well_listed(registry, themes);
    lemma_insert_all_names(registry, themes);
}

/// Registering one theme keeps the listing in order: every name once, the
/// listed names the registered ones, each theme under its own name.
pub proof fn lemma_insert_well_listed(registry: RegistryView, theme: ThemeView)
    requires
        well_listed(registry.themes, registry.names),
    ensures
        well_listed(registry.insert(theme).themes, registry.insert(theme).names),
{
    let after = registry.insert(theme);
    assert forall|name: Seq<char>| #[trigger]
        after.themes.contains_key(name) implies after.names.contains(name) by {
        if name == theme.name {
            if !registry.themes.contains_key(name) {
                assert(after.names[after.names.len() - 1] == name);
            }
        } else {
            let i = choose|i: int| 0 <= i < registry.names.len() && registry.names[i] == name;
            assert(after.names[i] == name);
        }
    }
}

proof fn lemma_insert_all_well_listed(registry: RegistryView, themes: Seq<ThemeView>)
    requires
        well_listed(registry.themes, registry.names),
    ensures
        well_listed(registry.insert_all(themes).themes, registry.insert_all(themes).names),
        registry.insert_all(themes).active == registry.active,
    decreases themes.len(),
{
    if themes.len() > 0 {
        lemma_insert_all_well_listed(registry, themes.drop_last());
        lemma_insert_well_listed(registry.insert_all(themes.drop_last()), themes.last());
    }
}

proof fn lemma_names_of_last(themes: Seq<ThemeView>)
    requires
        themes.len() > 0,
    ensures
        names_of(themes).to_set() == names_of(themes.drop_last()).to_set().insert(
            themes.last().name,
        ),
{
    let prefix = themes.drop_last();
    assert forall|name: Seq<char>|
        names_of(themes).to_set().contains(name) <==> names_of(prefix).to_set().contains(name)
            || name == themes.last().name by {
        if names_of(themes).contains(name) {
            let i = choose|i: int| 0 <= i < themes.len() && names_of(themes)[i] == name;
            if i < prefix.len() {
                assert(names_of(prefix)[i] == name);
            }
        }
        if names_of(prefix).contains(name) {
            let i = choose|i: int| 0 <= i < prefix.len() && names_of(prefix)[i] == name;
            assert(names_of(themes)[i] == name);
        }
        if name == themes.last().name {
            assert(names_of(themes)[themes.len() - 1] == name);
        }
    }
    assert(names_of(themes).to_set() =~= names_of(prefix).to_set().insert(themes.last().name));
}

/// After themes were registered, the registered names are those that were
/// registered before and those of the themes.
pub proof fn lemma_insert_all_names(registry: RegistryView, themes: Seq<ThemeView>)
    ensures
        registry.insert_all(themes).themes.dom() == registry.themes.dom().union(
            names_of(themes).to_set(),
        ),
    decreases themes.len(),
{
    if themes.len() > 0 {
        lemma_insert_all_names(registry, themes.drop_last());
        lemma_names_of_last(themes);
    }
    assert(registry.insert_all(themes).themes.dom() =~= registry.themes.dom().union(
        names_of(themes).to_set(),
    ));
}

/// A lookup after themes were registered finds, under the name of one of them,
/// the last of them with that name: it has replaced whatever was registered
/// under that name before, and the earlier ones of the same call.
pub proof fn lemma_insert_all_replaces(registry: RegistryView, themes: Seq<ThemeView>, i: int)
    requires
        is_last_of_its_name(themes, i),
    ensures
        registry.insert_all(themes).lookup(themes[i].name) == Ok::<ThemeView, ThemeErrorView>(
            themes[i],
        ),
    decreases themes.len(),
{
    if i < themes.len() - 1 {
        let prefix = themes.drop_last();
        assert forall|j: int| i < j < prefix.len() implies (#[trigger] prefix[j]).name
            != prefix[i].name by {
            assert(themes[j].name != themes[i].name);
        }
        lemma_insert_all_replaces(registry, prefix, i);
    }
}

/// A lookup under a name that none of the registered themes has finds what it
/// found before.
pub proof fn lemma_insert_all_keeps(
    registry: RegistryView,
    themes: Seq<ThemeView>,
    name: Seq<char>,
)
    requires
        !names_of(themes).contains(name),
    ensures
        registry.insert_all(themes).lookup(name) == registry.lookup(name),
    decreases themes.len(),
{
    if themes.len() > 0 {
        let prefix = themes.drop_last();
        assert(names_of(themes)[themes.len() - 1] != name);
        assert forall|j: int| 0 <= j < prefix.len() implies names_of(prefix)[j] != name by {
            assert(names_of(themes)[j] != name);
        }
        lemma_insert_all_keeps(registry, prefix, name);
    }
}

/// Registering themes lengthens the list of names by one for each different
/// name among them that was not registered before, and keeps the names that
/// were listed in their places.
pub proof fn lemma_insert_all_counts(registry: RegistryView, themes: Seq<ThemeView>)
    ensures
        unseen_names(registry, themes).finite(),
        registry.insert_all(themes).names.len() == registry.names.len() + unseen_names(
            registry,
            themes,
        ).len(),
        registry.names.is_prefix_of(registry.insert_all(themes).names),
    decreases themes.len(),
{
    if themes.len() == 0 {
        assert(unseen_names(registry, themes) =~= Set::<Seq<char>>::empty());
    } else {
        let prefix = themes.drop_last();
        let theme = themes.last();
        let before = registry.insert_all(prefix);
        lemma_insert_all_counts(registry, prefix);
        lemma_insert_all_names(registry, prefix);
        lemma_names_of_last(themes);
        if before.themes.contains_key(theme.name) {
            assert(unseen_names(registry, themes) =~= unseen_names(registry, prefix));
        } else {
            assert(unseen_names(registry, themes) =~= unseen_names(registry, prefix).insert(
                theme.name,
            ));
        }
    }
}

/// A new state lists the names of the built-in presets, in their order, holds
/// each preset under its name and nothing else, and has the first in effect.
pub proof fn lemma_builtin_registry()
    ensures
        RegistryView::builtin().wf(),
        RegistryView::builtin().names == names_of(builtin_views()),
        RegistryView::builtin().active == one_dark_view(),
        forall|i: int|
            0 <= i < builtin_views().len() ==> RegistryView::builtin().lookup(
                #[trigger] builtin_views()[i].name,
            ) == Ok::<ThemeView, ThemeErrorView>(builtin_views()[i]),
        forall|name: Seq<char>|
            !names_of(builtin_views()).contains(name) ==> #[trigger] RegistryView::builtin().lookup(
                name,
            ) == Err::<ThemeView, ThemeErrorView>(ThemeErrorView::NotFound { name }),
{
    let start = RegistryView::empty(one_dark_view());
    let all = builtin_views();
    lemma_builtin_names_distinct();
    lemma_insert_all_well_listed(start, all);
    assert forall|i: int| 0 <= i < all.len() implies RegistryView::builtin().lookup(
        #[trigger] all[i].name,
    ) == Ok::<ThemeView, ThemeErrorView>(all[i]) by {
        assert forall|j: int| i < j < all.len() implies (#[trigger] all[j]).name != all[i].name by {
            assert(names_of(all)[i] != names_of(all)[j]);
        }
        lemma_insert_all_replaces(start, all, i);
    }
    assert forall|name: Seq<char>| !names_of(all).contains(name) implies #[trigger]
        RegistryView::builtin().lookup(name) == Err::<ThemeView, ThemeErrorView>(
        ThemeErrorView::NotFound { name },
    ) by {
        lemma_insert_all_keeps(start, all, name);
    }
    lemma_insert_all_fresh(start, all);
    assert(start.names + names_of(all) =~= names_of(all));
}

/// Themes with different names, none of them registered before, are listed
/// after the names that were there, in the order in which they came.
pub proof fn lemma_insert_all_fresh(registry: RegistryView, themes: Seq<ThemeView>)
    requires
        names_of(themes).no_duplicates(),
        forall|i: int|
            0 <= i < themes.len() ==> !registry.themes.contains_key(#[trigger] themes[i].name),
    ensures
        registry.insert_all(themes).names == registry.names + names_of(themes),
    decreases themes.len(),
{
    if themes.len() > 0 {
        let prefix = themes.drop_last();
        let theme = themes.last();
        assert forall|i: int, j: int|
            0 <= i < j < prefix.len() implies names_of(prefix)[i] != names_of(prefix)[j] by {
            assert(names_of(themes)[i] != names_of(themes)[j]);
        }
        assert forall|i: int| 0 <= i < prefix.len() implies !registry.themes.contains_key(
            #[trigger] prefix[i].name,
        ) by {
            assert(prefix[i] == themes[i]);
        }
        lemma_insert_all_fresh(registry, prefix);
        lemma_insert_all_names(registry, prefix);
        let before = registry.insert_all(prefix);
        if before.themes.contains_key(theme.name) {
            assert(names_of(prefix).to_set().contains(theme.name));
            let i = choose|i: int| 0 <= i < prefix.len() && names_of(prefix)[i] == theme.name;
            assert(names_of(themes)[i] == names_of(themes)[themes.len() - 1]);
        }
    }
    assert(registry.insert_all(themes).names =~= registry.names + names_of(themes));
}

} // verus!
