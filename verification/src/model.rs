//! The mathematical model of a theme registry.

use crate::theme::{builtin_views, names_of, one_dark_view, ThemeErrorView, ThemeView};
use vstd::prelude::*;

verus! {

/// What a registry holds: the themes by name, the names in the order in which
/// they were first registered, and the theme in effect.
pub ghost struct RegistryView {
    pub themes: Map<Seq<char>, ThemeView>,
    pub names: Seq<Seq<char>>,
    pub active: ThemeView,
}

/// Every name is listed once, the listed names are the registered ones, and
/// each theme is registered under its own name.
pub open spec fn well_listed(themes: Map<Seq<char>, ThemeView>, names: Seq<Seq<char>>) -> bool {
    &&& names.no_duplicates()
    &&& forall|name: Seq<char>| #[trigger] themes.contains_key(name) <==> names.contains(name)
    &&& forall|name: Seq<char>| #[trigger] themes.contains_key(name) ==> themes[name].name == name
}

/// The name of each built-in preset is registered.
pub open spec fn seeded(themes: Map<Seq<char>, ThemeView>) -> bool {
    forall|i: int|
        0 <= i < builtin_views().len() ==> themes.contains_key(#[trigger] builtin_views()[i].name)
}

/// Whether `name` is the name of a built-in preset.
pub open spec fn is_builtin_name(name: Seq<char>) -> bool {
    exists|i: int| 0 <= i < builtin_views().len() && (#[trigger] builtin_views()[i]).name == name
}

impl RegistryView {
    /// The invariant of every registry: it is [`well_listed`] and [`seeded`],
    /// and the name of the theme in effect is registered.
    pub open spec fn wf(self) -> bool {
        &&& well_listed(self.themes, self.names)
        &&& seeded(self.themes)
        &&& self.themes.contains_key(self.active.name)
    }

    /// A registry without themes in which `active` is in effect.
    pub open spec fn empty(active: ThemeView) -> Self {
        RegistryView { themes: Map::empty(), names: Seq::empty(), active }
    }

    /// The registry after `theme` was registered under its own name: a theme
    /// of that name is replaced, a new name is listed last.
    pub open spec fn insert(self, theme: ThemeView) -> Self {
        RegistryView {
            themes: self.themes.insert(theme.name, theme),
            names: if self.themes.contains_key(theme.name) {
                self.names
            } else {
                self.names.push(theme.name)
            },
            active: self.active,
        }
    }

    /// The registry after each of `themes` was registered, first to last.
    pub open spec fn insert_all(self, themes: Seq<ThemeView>) -> Self
        decreases themes.len(),
    {
        if themes.len() == 0 {
            self
        } else {
            self.insert_all(themes.drop_last()).insert(themes.last())
        }
    }

    /// The registry that a new state holds: the built-in presets, with the
    /// first of them in effect.
    pub open spec fn builtin() -> Self {
        Self::empty(one_dark_view()).insert_all(builtin_views())
    }

    /// The result of a lookup: the theme under `name`, or the error that
    /// carries `name`.
    pub open spec fn lookup(self, name: Seq<char>) -> Result<ThemeView, ThemeErrorView> {
        if self.themes.contains_key(name) {
            Ok(self.themes[name])
        } else {
            Err(ThemeErrorView::NotFound { name })
        }
    }

    /// The registry in which the theme under `name` is in effect.
    pub open spec fn activate(self, name: Seq<char>) -> Self
        recommends
            self.themes.contains_key(name),
    {
        RegistryView { themes: self.themes, names: self.names, active: self.themes[name] }
    }
}

/// Whether `themes[i]` is the last of `themes` with its name.
pub open spec fn is_last_of_its_name(themes: Seq<ThemeView>, i: int) -> bool {
    &&& 0 <= i < themes.len()
    &&& forall|j: int| i < j < themes.len() ==> (#[trigger] themes[j]).name != themes[i].name
}

/// The names of `themes` that `registry` does not hold, each once.
pub open spec fn unseen_names(registry: RegistryView, themes: Seq<ThemeView>) -> Set<Seq<char>> {
    names_of(themes).to_set().difference(registry.themes.dom())
}

} // verus!
