//! The registry through which new fragments reach the render loop: the
//! program text most recently requested, and whether a reload is pending.
use vstd::prelude::*;
use crate::assembler::{assembled, lemma_assembled_injective, prepare_shader};

verus! {

/// Abstract state of a registry.
pub struct RegistryModel {
    /// Program text most recently stored, if any.
    pub current: Option<Seq<char>>,
    /// A stored program text has not been handed out yet.
    pub dirty: bool,
}

/// View of an optional string as an optional character sequence.
pub open spec fn opt_view(s: Option<String>) -> Option<Seq<char>> {
    match s {
        Some(t) => Some(t@),
        None => None,
    }
}

/// State of a registry that was just created.
pub open spec fn empty_registry() -> RegistryModel {
    RegistryModel { current: None, dirty: false }
}

/// State after a raw fragment was submitted: its program text replaces
/// whatever was stored before, and a reload is pending.
pub open spec fn after_submit(m: RegistryModel, raw: Seq<char>) -> RegistryModel {
    RegistryModel { current: Some(assembled(raw)), dirty: true }
}

/// What a poll for a pending reload hands out.
pub open spec fn taken(m: RegistryModel) -> Option<Seq<char>> {
    if m.dirty {
        m.current
    } else {
        None
    }
}

/// State after a poll for a pending reload: nothing stays pending.
pub open spec fn after_take(m: RegistryModel) -> RegistryModel {
    RegistryModel { current: m.current, dirty: false }
}

/// Holder of the requested program text and of the pending-reload flag.
/// A single consumer polls it; producers submit new fragments.
pub struct ShaderRegistry {
    current: Option<String>,
    dirty: bool,
}

impl View for ShaderRegistry {
    type V = RegistryModel;

    closed spec fn view(&self) -> RegistryModel {
        RegistryModel { current: opt_view(self.current), dirty: self.dirty }
    }
}

impl ShaderRegistry {
    /// An empty registry with no reload pending.
    pub fn new() -> (r: ShaderRegistry)
        ensures
            r@ == empty_registry(),
    {
        ShaderRegistry { current: None, dirty: false }
    }

    /// Stores the program text assembled from `raw` in place of the previous
    /// one and marks a reload as pending.
    pub fn submit(&mut self, raw: &str)
        ensures
            final(self)@ == after_submit(old(self)@, raw@),
    {
        self.current = Some(prepare_shader(raw));
        self.dirty = true;
    }

    /// Hands out the stored program text if a reload is pending, and clears
    /// the pending flag; hands out nothing otherwise.
    pub fn take_if_dirty(&mut self) -> (r: Option<String>)
        ensures
            opt_view(r) == taken(old(self)@),
            final(self)@ == after_take(old(self)@),
    {
        if self.dirty {
            self.dirty = false;
            match &self.current {
                Some(s) => Some(s.clone()),
                None => None,
            }
        } else {
            None
        }
    }

    /// Whether a stored program text has not been handed out yet.
    pub fn is_dirty(&self) -> (r: bool)
        ensures
            r == self@.dirty,
    {
        self.dirty
    }

    /// Program text for a session that is starting: the stored one, or the
    /// one assembled from `default_raw` when nothing was ever submitted.
    /// The session starts from this text, so no reload stays pending.
    pub fn initial_shader(&mut self, default_raw: &str) -> (r: String)
        ensures
            r@ == match old(self)@.current {
                Some(s) => s,
                None => assembled(default_raw@),
            },
            final(self)@ == after_take(old(self)@),
    {
        let r = match get_shader(self) {
            Some(s) => s,
            None => prepare_shader(default_raw),
        };
        self.dirty = false;
        r
    }
}

/// A copy of the program text stored in `registry`, pending or not.
pub fn get_shader(registry: &ShaderRegistry) -> (r: Option<String>)
    ensures
        opt_view(r) == registry@.current,
{
    match &registry.current {
        Some(s) => Some(s.clone()),
        None => None,
    }
}

/// A submission is handed out by the next poll, and by no later one.
pub proof fn lemma_single_delivery(m: RegistryModel, raw: Seq<char>)
    ensures
        taken(after_submit(m, raw)) == Some(assembled(raw)),
        taken(after_take(after_submit(m, raw))) == None::<Seq<char>>,
{
}

/// Of two submissions before a poll, the poll hands out the later one.
pub proof fn lemma_last_write_wins(m: RegistryModel, first: Seq<char>, second: Seq<char>)
    ensures
        taken(after_submit(after_submit(m, first), second)) == Some(assembled(second)),
        first != second ==> taken(after_submit(after_submit(m, first), second)) != Some(
            assembled(first),
        ),
{
    if first != second {
        lemma_assembled_injective(first, second);
    }
}

} // verus!
