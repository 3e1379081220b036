//! The registry of native modules.
//!
//! Modules are kept in insertion order; the host initialises them in that
//! order, each registering its handlers and then declaring its permissions.
use vstd::prelude::*;

verus! {

/// Holds the native modules, in the order they were registered. `M` is the
/// host's module type.
pub struct ModuleRegistry<M> {
    modules: Vec<M>,
}

impl<M> View for ModuleRegistry<M> {
    type V = Seq<M>;

    closed spec fn view(&self) -> Seq<M> {
        self.modules@
    }
}

impl<M> ModuleRegistry<M> {
    /// An empty registry.
    pub fn new() -> (r: Self)
        ensures
            r@ == Seq::<M>::empty(),
    {
        ModuleRegistry { modules: Vec::new() }
    }

    /// Add a module; it comes after every module registered before it.
    pub fn register(&mut self, module: M)
        ensures
            final(self)@ == old(self)@.push(module),
    {
        self.modules.push(module);
    }

    /// The number of registered modules.
    pub fn module_count(&self) -> (r: usize)
        ensures
            r == self@.len(),
    {
        self.modules.len()
    }

    /// The module registered in position `i` (counting from 0), if any.
    pub fn module(&self, i: usize) -> (r: Option<&M>)
        ensures
            r is Some <==> i < self@.len(),
            r matches Some(m) ==> *m == self@[i as int],
    {
        if i < self.modules.len() {
            Some(&self.modules[i])
        } else {
            None
        }
    }
}

} // verus!
