//! The registry's state and the operations on it, without the lock.

use crate::laws::{lemma_builtin_registry, lemma_insert_all_wf, lemma_insert_well_listed};
use crate::model::{seeded, well_listed, RegistryView};
use crate::theme::{
    builtin_views, one_dark, one_dark_view, rose_pine, rose_pine_dawn, rose_pine_moon, sandcastle,
    share, texts_of, views_of, Theme, ThemeError, ThemeErrorView, ThemeView,
};
use std::sync::Arc;
use vstd::hash_map::StringHashMap;
use vstd::prelude::*;
use vstd::string::StringExecFns;

verus! {

/// The themes by name, with their names in the order of first registration.
/// The map finds a theme by its name and cannot be walked; the listings walk
/// the names.
struct ThemeTable {
    by_name: StringHashMap<Arc<Theme>>,
    names: Vec<String>,
}

impl ThemeTable {
    spec fn themes(&self) -> Map<Seq<char>, ThemeView> {
        Map::new(
            |name: Seq<char>| self.by_name@.contains_key(name),
            |name: Seq<char>| self.by_name@[name]@,
        )
    }

    spec fn names(&self) -> Seq<Seq<char>> {
        texts_of(self.names@)
    }

    spec fn view_with(&self, active: ThemeView) -> RegistryView {
        RegistryView { themes: self.themes(), names: self.names(), active }
    }

    spec fn wf(&self) -> bool {
        well_listed(self.themes(), self.names())
    }

    fn new() -> (table: Self)
        ensures
            table.wf(),
            table.themes() == Map::<Seq<char>, ThemeView>::empty(),
            table.names() == Seq::<Seq<char>>::empty(),
    {
        let table = ThemeTable { by_name: StringHashMap::new(), names: Vec::new() };
        assert(table.themes() =~= Map::<Seq<char>, ThemeView>::empty());
        assert(table.names() =~= Seq::<Seq<char>>::empty());
        table
    }

    fn insert(&mut self, theme: Theme)
        requires
            old(self).wf(),
        ensures
            final(self).wf(),
            forall|active: ThemeView|
                final(self).view_with(active) == old(self).view_with(active).insert(theme@),
    {
        let name = theme.metadata.name.clone();
        if !self.by_name.contains_key(name.as_str()) {
            self.names.push(name.clone());
        }
        self.by_name.insert(name, Arc::new(theme));
        proof {
            let before = old(self).view_with(arbitrary());
            assert(self.themes() =~= before.insert(theme@).themes);
            assert(self.names() =~= before.insert(theme@).names);
            lemma_insert_well_listed(before, theme@);
        }
    }

    fn insert_all(&mut self, themes: Vec<Theme>)
        requires
            old(self).wf(),
        ensures
            final(self).wf(),
            forall|active: ThemeView|
                final(self).view_with(active) == old(self).view_with(active).insert_all(
                    views_of(themes@),
                ),
    {
        let ghost views = views_of(themes@);
        for theme in iter: themes.into_iter()
            invariant
                iter.seq() == themes@,
                views == views_of(themes@),
                self.wf(),
                forall|active: ThemeView|
                    self.view_with(active) == old(self).view_with(active).insert_all(
                        views.take(iter.index() as int),
                    ),
        {
            proof {
                let i = iter.index() as int;
                assert(views.take(i + 1).drop_last() =~= views.take(i));
            }
            self.insert(theme);
        }
        assert(views.take(views.len() as int) =~= views);
    }

    fn presets() -> (table: Self)
        ensures
            table.wf(),
            forall|active: ThemeView|
                table.view_with(active) == RegistryView::empty(active).insert_all(builtin_views()),
    {
        let mut table = Self::new();
        let mut presets: Vec<Theme> = Vec::new();
        presets.push(one_dark());
        presets.push(rose_pine());
        presets.push(rose_pine_dawn());
        presets.push(rose_pine_moon());
        presets.push(sandcastle());
        assert(views_of(presets@) =~= builtin_views());
        table.insert_all(presets);
        table
    }

    fn get(&self, name: &str) -> (found: Option<Arc<Theme>>)
        ensures
            match found {
                Some(theme) => self.themes().contains_key(name@) && theme@ == self.themes()[name@],
                None => !self.themes().contains_key(name@),
            },
    {
        match self.by_name.get(name) {
            Some(theme) => Some(share(theme)),
            None => None,
        }
    }

    fn list_names(&self) -> (names: Vec<String>)
        ensures
            names.len() == self.names().len(),
            forall|i: int| 0 <= i < names.len() ==> (#[trigger] names[i])@ == self.names()[i],
    {
        let mut names: Vec<String> = Vec::new();
        let mut i: usize = 0;
        while i < self.names.len()
            invariant
                i <= self.names.len(),
                names@ == self.names@.take(i as int),
            decreases self.names.len() - i,
        {
            names.push(self.names[i].clone());
            assert(self.names@.take(i + 1) =~= self.names@.take(i as int).push(
                self.names@[i as int],
            ));
            i = i + 1;
        }
        names
    }

    fn list(&self) -> (themes: Vec<Arc<Theme>>)
        requires
            self.wf(),
        ensures
            themes.len() == self.names().len(),
            forall|i: int|
                0 <= i < themes.len() ==> (#[trigger] themes[i])@ == self.themes()[self.names()[i]],
    {
        let mut themes: Vec<Arc<Theme>> = Vec::new();
        let mut i: usize = 0;
        while i < self.names.len()
            invariant
                self.wf(),
                i <= self.names.len(),
                themes.len() == i,
                forall|j: int|
                    0 <= j < i ==> (#[trigger] themes[j])@ == self.themes()[self.names()[j]],
            decreases self.names.len() - i,
        {
            proof {
                assert(self.themes().contains_key(self.names()[i as int]));
            }
            let found = self.by_name.get(self.names[i].as_str());
            let theme = share(found.unwrap());
            themes.push(theme);
            i = i + 1;
        }
        themes
    }
}

/// The themes of a registry and the theme in effect.
pub struct ThemeRegistryState {
    table: ThemeTable,
    active_theme: Arc<Theme>,
}

impl View for ThemeRegistryState {
    type V = RegistryView;

    closed spec fn view(&self) -> RegistryView {
        self.table.view_with(self.active_theme@)
    }
}

impl ThemeRegistryState {
    #[verifier::type_invariant]
    spec fn inv(&self) -> bool {
        &&& self.table.wf()
        &&& seeded(self.table.themes())
        &&& self.table.themes().contains_key(self.active_theme@.name)
    }

    /// The state that a registry starts with: the built-in presets, the first
    /// of them in effect.
    pub fn new() -> (state: Self)
        ensures
            state@ == RegistryView::builtin(),
            state@.wf(),
    {
        let table = ThemeTable::presets();
        proof {
            lemma_builtin_registry();
            assert(table.view_with(one_dark_view()) == RegistryView::builtin());
        }
        ThemeRegistryState { table, active_theme: Arc::new(one_dark()) }
    }

    /// Registers each of `themes` under its own name, first to last. A theme
    /// whose name is registered already takes the place of the earlier one.
    pub fn insert_themes(&mut self, themes: Vec<Theme>)
        ensures
            final(self)@ == old(self)@.insert_all(views_of(themes@)),
            final(self)@.wf(),
    {
        proof {
            use_type_invariant(&*self);
            lemma_insert_all_wf(self@, views_of(themes@));
        }
        // The themes are registered in a state taken out of its place, which
        // holds a new state meanwhile: whatever happens on the way, the place
        // holds a state with the presets.
        let mut rebuilt = Self::new();
        std::mem::swap(self, &mut rebuilt);
        let ThemeRegistryState { table, active_theme } = rebuilt;
        let mut table = table;
        table.insert_all(themes);
        assert(table.view_with(active_theme@) == old(self)@.insert_all(views_of(themes@)));
        let mut rebuilt = ThemeRegistryState { table, active_theme };
        std::mem::swap(self, &mut rebuilt);
    }

    /// The names of the registered themes, in the order of first
    /// registration. `_staff` is accepted and changes nothing.
    pub fn list_names(&self, _staff: bool) -> (names: Vec<String>)
        ensures
            names.len() == self@.names.len(),
            forall|i: int| 0 <= i < names.len() ==> (#[trigger] names[i])@ == self@.names[i],
            self@.wf(),
    {
        proof {
            use_type_invariant(self);
        }
        self.table.list_names()
    }

    /// The registered themes, in the order of their names. `_staff` is
    /// accepted and changes nothing.
    pub fn list(&self, _staff: bool) -> (themes: Vec<Arc<Theme>>)
        ensures
            themes.len() == self@.names.len(),
            forall|i: int|
                0 <= i < themes.len() ==> (#[trigger] themes[i])@ == self@.themes[self@.names[i]],
            self@.wf(),
    {
        proof {
            use_type_invariant(self);
        }
        self.table.list()
    }

    /// The theme registered under `name`, or the error that carries `name`.
    pub fn get(&self, name: &str) -> (found: Result<Arc<Theme>, ThemeError>)
        ensures
            found_view(found) == self@.lookup(name@),
            self@.wf(),
    {
        proof {
            use_type_invariant(self);
        }
        match self.table.get(name) {
            Some(theme) => Ok(theme),
            None => Err(ThemeError::NotFound { name: String::from_str(name) }),
        }
    }

    /// The theme in effect. Its name is a registered one.
    pub fn active_theme(&self) -> (theme: Arc<Theme>)
        ensures
            theme@ == self@.active,
            self@.wf(),
    {
        proof {
            use_type_invariant(self);
        }
        share(&self.active_theme)
    }

    /// Puts the theme registered under `name` in effect. Where there is none,
    /// nothing changes.
    pub fn set_active_theme(&mut self, name: &str) -> (done: Result<(), ThemeError>)
        ensures
            done is Ok <==> old(self)@.themes.contains_key(name@),
            done is Ok ==> final(self)@ == old(self)@.activate(name@),
            done is Err ==> final(self)@ == old(self)@ && done->Err_0@
                == (ThemeErrorView::NotFound { name: name@ }),
            final(self)@.wf(),
    {
        proof {
            use_type_invariant(&*self);
        }
        match self.table.get(name) {
            Some(theme) => {
                self.active_theme = theme;
                Ok(())
            },
            None => Err(ThemeError::NotFound { name: String::from_str(name) }),
        }
    }
}

/// The mathematical value of the result of a lookup.
pub open spec fn found_view(found: Result<Arc<Theme>, ThemeError>) -> Result<
    ThemeView,
    ThemeErrorView,
> {
    match found {
        Ok(theme) => Ok(theme@),
        Err(error) => Err(error@),
    }
}

} // verus!
