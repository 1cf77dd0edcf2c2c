//! Themes, the built-in presets, and the error of a failed lookup.

use std::sync::Arc;
use vstd::prelude::*;
use vstd::string::*;

verus! {

/// What identifies a theme: its unique name and whether it is a light theme.
#[derive(Debug, Clone, PartialEq, Eq)]
pub struct ThemeMetadata {
    pub name: String,
    pub is_light: bool,
}

/// An immutable named bundle of style data.
#[derive(Debug, Clone, PartialEq, Eq)]
pub struct Theme {
    pub metadata: ThemeMetadata,
}

/// The mathematical value of a [`Theme`].
pub ghost struct ThemeView {
    pub name: Seq<char>,
    pub is_light: bool,
}

impl View for Theme {
    type V = ThemeView;

    open spec fn view(&self) -> ThemeView {
        ThemeView { name: self.metadata.name@, is_light: self.metadata.is_light }
    }
}

/// The mathematical values of `themes`, in their order.
pub open spec fn views_of(themes: Seq<Theme>) -> Seq<ThemeView> {
    themes.map_values(|theme: Theme| theme@)
}

/// The mathematical values of the themes behind `handles`, in their order.
pub open spec fn shared_views_of(handles: Seq<Arc<Theme>>) -> Seq<ThemeView> {
    handles.map_values(|theme: Arc<Theme>| theme@)
}

/// The names of `themes`, in their order.
pub open spec fn names_of(themes: Seq<ThemeView>) -> Seq<Seq<char>> {
    themes.map_values(|theme: ThemeView| theme.name)
}

/// The texts of `names`, in their order.
pub open spec fn texts_of(names: Seq<String>) -> Seq<Seq<char>> {
    names.map_values(|name: String| name@)
}

/// The value of One Dark.
pub open spec fn one_dark_view() -> ThemeView {
    ThemeView { name: "One Dark"@, is_light: false }
}

/// The value of Rosé Pine.
pub open spec fn rose_pine_view() -> ThemeView {
    ThemeView { name: "Rosé Pine"@, is_light: false }
}

/// The value of Rosé Pine Dawn.
pub open spec fn rose_pine_dawn_view() -> ThemeView {
    ThemeView { name: "Rosé Pine Dawn"@, is_light: true }
}

/// The value of Rosé Pine Moon.
pub open spec fn rose_pine_moon_view() -> ThemeView {
    ThemeView { name: "Rosé Pine Moon"@, is_light: false }
}

/// The value of Sandcastle.
pub open spec fn sandcastle_view() -> ThemeView {
    ThemeView { name: "Sandcastle"@, is_light: false }
}

/// The built-in presets, in the order in which a new registry receives them.
pub open spec fn builtin_views() -> Seq<ThemeView> {
    seq![
        one_dark_view(),
        rose_pine_view(),
        rose_pine_dawn_view(),
        rose_pine_moon_view(),
        sandcastle_view(),
    ]
}

fn preset(name: &str, is_light: bool) -> (theme: Theme)
    ensures
        theme@ == (ThemeView { name: name@, is_light }),
{
    Theme { metadata: ThemeMetadata { name: String::from_str(name), is_light } }
}

/// One Dark, the dark preset that is in effect at the start.
pub fn one_dark() -> (theme: Theme)
    ensures
        theme@ == one_dark_view(),
{
    preset("One Dark", false)
}

/// Rosé Pine, a dark preset.
pub fn rose_pine() -> (theme: Theme)
    ensures
        theme@ == rose_pine_view(),
{
    preset("Rosé Pine", false)
}

/// Rosé Pine Dawn, the light preset.
pub fn rose_pine_dawn() -> (theme: Theme)
    ensures
        theme@ == rose_pine_dawn_view(),
{
    preset("Rosé Pine Dawn", true)
}

/// Rosé Pine Moon, a dark preset.
pub fn rose_pine_moon() -> (theme: Theme)
    ensures
        theme@ == rose_pine_moon_view(),
{
    preset("Rosé Pine Moon", false)
}

/// Sandcastle, a dark preset.
pub fn sandcastle() -> (theme: Theme)
    ensures
        theme@ == sandcastle_view(),
{
    preset("Sandcastle", false)
}

/// The names of the built-in presets are pairwise different.
pub proof fn lemma_builtin_names_distinct()
    ensures
        names_of(builtin_views()).no_duplicates(),
{
    reveal_strlit("One Dark");
    reveal_strlit("Rosé Pine");
    reveal_strlit("Rosé Pine Dawn");
    reveal_strlit("Rosé Pine Moon");
    reveal_strlit("Sandcastle");
    let names = names_of(builtin_views());
    assert(names[0].len() == 8);
    assert(names[1].len() == 9);
    assert(names[2].len() == 14);
    assert(names[3].len() == 14);
    assert(names[4].len() == 10);
    assert(names[2][10] == 'D');
    assert(names[3][10] == 'M');
}

/// Why a theme could not be handed out.
#[derive(Debug, Clone, PartialEq, Eq)]
pub enum ThemeError {
    /// No theme is registered under `name`.
    NotFound { name: String },
}

/// The mathematical value of a [`ThemeError`].
pub ghost enum ThemeErrorView {
    NotFound { name: Seq<char> },
}

impl ThemeErrorView {
    /// The name that was asked for.
    pub open spec fn name(self) -> Seq<char> {
        match self {
            ThemeErrorView::NotFound { name } => name,
        }
    }
}

impl View for ThemeError {
    type V = ThemeErrorView;

    open spec fn view(&self) -> ThemeErrorView {
        match self {
            ThemeError::NotFound { name } => ThemeErrorView::NotFound { name: name@ },
        }
    }
}

impl ThemeError {
    /// The name that was asked for.
    pub fn name(&self) -> (name: &str)
        ensures
            name@ == self@.name(),
    {
        match self {
            ThemeError::NotFound { name } => name.as_str(),
        }
    }

    /// The text shown for this error: a fixed prefix, then the name.
    pub fn message(&self) -> (text: String)
        ensures
            text@ == "theme not found: "@ + self@.name(),
    {
        String::from_str("theme not found: ").concat(self.name())
    }
}

/// `Arc::clone` of std: a second handle to the same theme. The contract says
/// that the new handle holds the value that the given one holds.
#[verifier::external_body]
pub(crate) fn share(theme: &Arc<Theme>) -> (shared: Arc<Theme>)
    ensures
        shared == *theme,
{
    Arc::clone(theme)
}

} // verus!
