//! The context registry: resolves the current execution's context across a
//! task-affine slot (live only while a task scope is open), a thread-affine
//! slot, and a process-wide fallback slot — in that order, for every
//! operation alike. With no context installed, retrieval comes back empty
//! and mutation finds nothing to touch; nothing crashes.

use vstd::prelude::*;

use crate::context::TestContext;

verus! {

/// Storage for the current execution's context.
#[derive(Debug)]
pub struct Registry {
    /// Whether a task scope is open, making the task slot visible.
    pub task_scope_active: bool,
    /// The task-affine slot.
    pub task_slot: Option<TestContext>,
    /// The thread-affine slot.
    pub thread_slot: Option<TestContext>,
    /// The process-wide fallback slot.
    pub global_slot: Option<TestContext>,
}

impl Registry {
    /// The context the resolution order finds: the task slot while a scope
    /// is open, else the thread slot, else the fallback.
    pub open spec fn spec_current(self) -> Option<TestContext> {
        if self.task_scope_active && self.task_slot is Some {
            self.task_slot
        } else if self.thread_slot is Some {
            self.thread_slot
        } else {
            self.global_slot
        }
    }

    /// The registry with the found slot holding `c` instead.
    pub open spec fn spec_put_current(self, c: TestContext) -> Registry {
        if self.task_scope_active && self.task_slot is Some {
            Registry { task_slot: Some(c), ..self }
        } else if self.thread_slot is Some {
            Registry { thread_slot: Some(c), ..self }
        } else {
            Registry { global_slot: Some(c), ..self }
        }
    }

    /// The registry with the found slot emptied.
    pub open spec fn spec_take_current(self) -> Registry {
        if self.task_scope_active && self.task_slot is Some {
            Registry { task_slot: None, ..self }
        } else if self.thread_slot is Some {
            Registry { thread_slot: None, ..self }
        } else {
            Registry { global_slot: None, ..self }
        }
    }

    /// An empty registry: no scope open, every slot empty.
    pub fn new() -> (r: Self)
        ensures
            !r.task_scope_active,
            r.task_slot is None,
            r.thread_slot is None,
            r.global_slot is None,
    {
        Registry {
            task_scope_active: false,
            task_slot: None,
            thread_slot: None,
            global_slot: None,
        }
    }

    /// Whether a context is current.
    pub fn has_current(&self) -> (r: bool)
        ensures
            r == (self.spec_current() is Some),
    {
        (self.task_scope_active && self.task_slot.is_some()) || self.thread_slot.is_some()
            || self.global_slot.is_some()
    }

    /// Installs a context: into the task slot while a scope is open, else
    /// into the thread slot — the same order retrieval uses, so state never
    /// splits across slots.
    pub fn install(&mut self, ctx: TestContext)
        ensures
            old(self).task_scope_active ==> *final(self) == (Registry {
                task_slot: Some(ctx),
                ..*old(self)
            }),
            !old(self).task_scope_active ==> *final(self) == (Registry {
                thread_slot: Some(ctx),
                ..*old(self)
            }),
    {
        if self.task_scope_active {
            self.task_slot = Some(ctx);
        } else {
            self.thread_slot = Some(ctx);
        }
    }

    /// Takes the current context out of the registry, leaving its slot
    /// empty: the task slot while a scope is open, else the thread slot,
    /// else the fallback.
    pub fn retrieve(&mut self) -> (r: Option<TestContext>)
        ensures
            r == old(self).spec_current(),
            *final(self) == old(self).spec_take_current(),
    {
        if self.task_scope_active && self.task_slot.is_some() {
            self.task_slot.take()
        } else if self.thread_slot.is_some() {
            self.thread_slot.take()
        } else {
            self.global_slot.take()
        }
    }

    /// Borrows the current context for mutation in place, without removing
    /// it; empty-handed when no context is installed.
    pub fn current_mut(&mut self) -> (r: Option<&mut TestContext>)
        ensures
            match r {
                Some(c) => old(self).spec_current() matches Some(cur) && *c == cur && *final(self)
                    == old(self).spec_put_current(*final(c)),
                None => old(self).spec_current() is None && *final(self) == *old(self),
            },
    {
        if self.task_scope_active && self.task_slot.is_some() {
            match &mut self.task_slot {
                Some(c) => Some(c),
                None => None,
            }
        } else if self.thread_slot.is_some() {
            match &mut self.thread_slot {
                Some(c) => Some(c),
                None => None,
            }
        } else if self.global_slot.is_some() {
            match &mut self.global_slot {
                Some(c) => Some(c),
                None => None,
            }
        } else {
            None
        }
    }

    /// Opens a task scope holding the given context; the fallback slot
    /// mirrors it so detached helpers that cannot see the scope still find
    /// a context to read.
    pub fn open_task_scope(&mut self, ctx: TestContext)
        ensures
            *final(self) == (Registry {
                task_scope_active: true,
                task_slot: Some(ctx),
                ..*old(self)
            }),
    {
        self.task_scope_active = true;
        self.task_slot = Some(ctx);
    }

    /// Closes the task scope, handing back whatever context it still held.
    pub fn close_task_scope(&mut self) -> (r: Option<TestContext>)
        ensures
            r == old(self).task_slot,
            *final(self) == (Registry {
                task_scope_active: false,
                task_slot: None,
                ..*old(self)
            }),
    {
        self.task_scope_active = false;
        self.task_slot.take()
    }
}

} // verus!
