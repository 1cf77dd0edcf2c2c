//! The registry that the parts of an application share: its state behind a
//! reader-writer lock.

use crate::model::{is_builtin_name, RegistryView};
use crate::state::ThemeRegistryState;
use crate::theme::{names_of, shared_views_of, texts_of, Theme, ThemeError, ThemeErrorView};
use parking_lot::lock_api::RwLock;
use parking_lot::{RawRwLock, RwLockReadGuard, RwLockWriteGuard};
use std::sync::Arc;
use vstd::prelude::*;

verus! {

/// `RawRwLock` of parking_lot, the lock's own machinery. Nothing is said of it.
#[verifier::external_type_specification]
#[verifier::external_body]
pub struct ExRawRwLock(RawRwLock);

/// `RwLock` of lock_api, which parking_lot hands on with its `RawRwLock` as
/// `R`. The type is opaque, and nothing is said of the value that a lock
/// guards: whoever shares the lock may have changed it.
#[verifier::external_type_specification]
#[verifier::external_body]
#[verifier::reject_recursive_types(R)]
#[verifier::reject_recursive_types(T)]
pub struct ExRwLock<R, T: ?Sized>(RwLock<R, T>);

/// Holds a `RwLockReadGuard` of parking_lot: shared access to the state for
/// as long as this value lives.
#[verifier::external_body]
struct ReadAccess<'a> {
    guard: RwLockReadGuard<'a, ThemeRegistryState>,
}

/// Holds a `RwLockWriteGuard` of parking_lot: exclusive access to the state
/// for as long as this value lives.
#[verifier::external_body]
struct WriteAccess<'a> {
    guard: RwLockWriteGuard<'a, ThemeRegistryState>,
}

/// The state that `lock` was made to guard. What it guards later is another
/// matter, of which nothing is said.
pub uninterp spec fn made_to_guard(lock: RwLock<RawRwLock, ThemeRegistryState>) -> RegistryView;

/// `RwLock::new` of parking_lot: an unlocked lock that guards `state`. The
/// contract gives that first state its name and claims nothing else.
#[verifier::external_body]
fn new_lock(state: ThemeRegistryState) -> (lock: RwLock<RawRwLock, ThemeRegistryState>)
    ensures
        made_to_guard(lock) == state@,
{
    RwLock::new(state)
}

/// `RwLock::read` of parking_lot: waits until no writer holds the lock.
/// Nothing is claimed of the guard. The call may never return where this
/// thread holds a guard of the same lock already: the registry takes one
/// guard at a time and drops it before it returns.
#[verifier::external_body]
fn read_lock<'a>(lock: &'a RwLock<RawRwLock, ThemeRegistryState>) -> (access: ReadAccess<'a>) {
    ReadAccess { guard: lock.read() }
}

/// `RwLock::write` of parking_lot: waits until nobody else holds the lock.
/// Nothing is claimed of the guard. The call never returns where this thread
/// holds a guard of the same lock already: the registry takes one guard at a
/// time and drops it before it returns.
#[verifier::external_body]
fn write_lock<'a>(lock: &'a RwLock<RawRwLock, ThemeRegistryState>) -> (access: WriteAccess<'a>) {
    WriteAccess { guard: lock.write() }
}

/// `Deref::deref` of parking_lot's `RwLockReadGuard`: the guarded state.
/// Nothing is claimed of it.
#[verifier::external_body]
fn read_state<'a, 'b>(access: &'b ReadAccess<'a>) -> (state: &'b ThemeRegistryState) {
    &access.guard
}

/// `DerefMut::deref_mut` of parking_lot's `RwLockWriteGuard`: the guarded
/// state, to be changed in place. Nothing is claimed of it.
#[verifier::external_body]
fn write_state<'a, 'b>(access: &'b mut WriteAccess<'a>) -> (state: &'b mut ThemeRegistryState) {
    &mut access.guard
}

/// A handle to a set of named themes, one of them in effect. Its clones
/// share one state; each operation holds the lock from start to end, so none
/// sees another half done.
#[derive(Clone)]
pub struct ThemeRegistry {
    state: Arc<RwLock<RawRwLock, ThemeRegistryState>>,
}

impl ThemeRegistry {
    /// What the registry held when it was made. Its owners may have changed
    /// it since.
    pub closed spec fn started_with(&self) -> RegistryView {
        made_to_guard(*self.state)
    }

    /// A registry of its own that starts with the built-in presets, the first
    /// of them in effect.
    pub fn new() -> (registry: Self)
        ensures
            registry.started_with() == RegistryView::builtin(),
    {
        ThemeRegistry { state: Arc::new(new_lock(ThemeRegistryState::new())) }
    }

    /// Registers each of `themes` under its own name, first to last, under
    /// one hold of the lock. A theme whose name is registered already takes
    /// the place of the earlier one.
    ///
    /// The handle itself stays as it was: what changes is the state behind
    /// the lock, which every owner sees.
    pub fn insert_themes(&mut self, themes: Vec<Theme>)
        ensures
            *final(self) == *old(self),
    {
        let mut access = write_lock(&self.state);
        let state = write_state(&mut access);
        state.insert_themes(themes);
    }

    /// The names of the themes that are registered at the time of the call:
    /// each once, those of the built-in presets among them. `_staff` is
    /// accepted and changes nothing.
    pub fn list_names(&self, _staff: bool) -> (names: Vec<String>)
        ensures
            texts_of(names@).no_duplicates(),
            forall|name: Seq<char>| is_builtin_name(name) ==> texts_of(names@).contains(name),
    {
        let access = read_lock(&self.state);
        let state = read_state(&access);
        let names = state.list_names(_staff);
        proof {
            let listed = texts_of(names@);
            assert(listed =~= state@.names);
            assert forall|name: Seq<char>| is_builtin_name(name) implies listed.contains(name) by {
                assert(state@.themes.contains_key(name));
            }
        }
        names
    }

    /// The themes that are registered at the time of the call: one for each
    /// name, those of the built-in presets among them. `_staff` is accepted
    /// and changes nothing.
    pub fn list(&self, _staff: bool) -> (themes: Vec<Arc<Theme>>)
        ensures
            names_of(shared_views_of(themes@)).no_duplicates(),
            forall|name: Seq<char>|
                is_builtin_name(name) ==> names_of(shared_views_of(themes@)).contains(name),
    {
        let access = read_lock(&self.state);
        let state = read_state(&access);
        let themes = state.list(_staff);
        proof {
            let listed = names_of(shared_views_of(themes@));
            assert forall|i: int| 0 <= i < listed.len() implies listed[i] == state@.names[i] by {
                assert(state@.themes.contains_key(state@.names[i]));
            }
            assert(listed =~= state@.names);
            assert forall|name: Seq<char>| is_builtin_name(name) implies listed.contains(name) by {
                assert(state@.themes.contains_key(name));
            }
        }
        themes
    }

    /// The theme that is registered under `name` at the time of the call, or
    /// the error that carries `name`. Under the name of a built-in preset
    /// there is always a theme.
    pub fn get(&self, name: &str) -> (found: Result<Arc<Theme>, ThemeError>)
        ensures
            match found {
                Ok(theme) => theme@.name == name@,
                Err(error) => error@ == (ThemeErrorView::NotFound { name: name@ })
                    && !is_builtin_name(name@),
            },
    {
        let access = read_lock(&self.state);
        let state = read_state(&access);
        state.get(name)
    }

    /// The theme that is in effect at the time of the call.
    pub fn active_theme(&self) -> (theme: Arc<Theme>) {
        let access = read_lock(&self.state);
        let state = read_state(&access);
        state.active_theme()
    }

    /// Puts the theme that is registered under `name` at the time of the call
    /// in effect. Where there is none, nothing changes and the error carries
    /// `name`. Under the name of a built-in preset there is always a theme.
    pub fn set_active_theme(&self, name: &str) -> (done: Result<(), ThemeError>)
        ensures
            done matches Err(error) ==> error@ == (ThemeErrorView::NotFound { name: name@ })
                && !is_builtin_name(name@),
    {
        let mut access = write_lock(&self.state);
        let state = write_state(&mut access);
        state.set_active_theme(name)
    }
}

} // verus!
