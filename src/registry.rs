//! The tool registry: definitions paired with handlers, unique by name and
//! kept in registration order.

use vstd::prelude::*;
use crate::error::ToolError;
use crate::tool::ToolDefinition;
use crate::tools::ToolHandler;

verus! {

/// A registered tool.
pub struct RegistryEntry {
    pub definition: ToolDefinition,
    pub handler: ToolHandler,
}

/// Registered tools in registration order; no two share a name.
pub struct Registry {
    entries: Vec<RegistryEntry>,
}

/// The names of `s`, in order.
pub open spec fn names_of(s: Seq<RegistryEntry>) -> Seq<Seq<char>> {
    s.map_values(|e: RegistryEntry| e.definition.name_spec())
}

/// Whether some entry of `s` is named `name`.
pub open spec fn has_name(s: Seq<RegistryEntry>, name: Seq<char>) -> bool {
    names_of(s).contains(name)
}

/// Whether no two entries of `s` share a name.
pub open spec fn unique_names(s: Seq<RegistryEntry>) -> bool {
    forall|i: int, j: int|
        0 <= i < s.len() && 0 <= j < s.len() && i != j ==> (#[trigger] s[i]).definition.name_spec()
            != (#[trigger] s[j]).definition.name_spec()
}

/// The entries after registering `e` on `s`: `s` with `e` appended, or `s`
/// itself when its name is taken.
pub open spec fn registered(s: Seq<RegistryEntry>, e: RegistryEntry) -> Seq<RegistryEntry> {
    if has_name(s, e.definition.name_spec()) {
        s
    } else {
        s.push(e)
    }
}

/// The entry of `s` named `name`, if any.
pub open spec fn lookup_spec(s: Seq<RegistryEntry>, name: Seq<char>) -> Option<RegistryEntry> {
    if has_name(s, name) {
        Some(s[choose|i: int| 0 <= i < s.len() && s[i].definition.name_spec() == name])
    } else {
        None
    }
}

/// The definitions of `s`, in order.
pub open spec fn definitions_of(s: Seq<RegistryEntry>) -> Seq<ToolDefinition> {
    s.map_values(|e: RegistryEntry| e.definition)
}

impl View for Registry {
    type V = Seq<RegistryEntry>;

    closed spec fn view(&self) -> Seq<RegistryEntry> {
        self.entries@
    }
}

/// In a sequence of unique names, the entry at `i` is the one named by it.
proof fn lemma_lookup_at(s: Seq<RegistryEntry>, i: int)
    requires
        unique_names(s),
        0 <= i < s.len(),
    ensures
        lookup_spec(s, s[i].definition.name_spec()) == Some(s[i]),
{
    let n = s[i].definition.name_spec();
    assert(names_of(s)[i] == n);
    let k = choose|k: int| 0 <= k < s.len() && s[k].definition.name_spec() == n;
    assert(s[k].definition.name_spec() == s[i].definition.name_spec());
}

impl Registry {
    /// Well-formed: no two entries share a name.
    pub open spec fn wf(&self) -> bool {
        unique_names(self@)
    }

    /// The empty registry.
    pub fn new() -> (r: Registry)
        ensures
            r@ == Seq::<RegistryEntry>::empty(),
            r.wf(),
    {
        Registry { entries: Vec::new() }
    }

    /// The number of registered tools.
    pub fn len(&self) -> (r: usize)
        ensures
            r == self@.len(),
    {
        self.entries.len()
    }

    /// Position of the entry named `name`, if any.
    fn position(&self, name: &String) -> (r: Option<usize>)
        ensures
            r is Some <==> has_name(self@, name@),
            r matches Some(i) ==> i < self@.len() && self@[i as int].definition.name_spec() == name@,
    {
        let mut i: usize = 0;
        while i < self.entries.len()
            invariant
                0 <= i <= self.entries@.len(),
                forall|k: int| 0 <= k < i ==> (#[trigger] self.entries@[k]).definition.name_spec() != name@,
            decreases self.entries.len() - i,
        {
            if *self.entries[i].definition.name_string() == *name {
                assert(names_of(self@)[i as int] == name@);
                return Some(i);
            }
            i = i + 1;
        }
        assert forall|k: int| 0 <= k < names_of(self@).len() implies names_of(self@)[k] != name@ by {
            assert(self.entries@[k].definition.name_spec() != name@);
        }
        None
    }

    /// Appends a tool. Fails with `DuplicateName`, leaving the registry as it
    /// was, exactly when a tool of the same name is registered.
    pub fn register(&mut self, definition: ToolDefinition, handler: ToolHandler) -> (r: Result<(), ToolError>)
        requires
            old(self).wf(),
        ensures
            final(self).wf(),
            r is Err <==> has_name(old(self)@, definition.name_spec()),
            r matches Err(e) ==> e is DuplicateName,
            final(self)@ == registered(old(self)@, RegistryEntry { definition, handler }),
    {
        let name = definition.name().to_owned();
        if self.position(&name).is_some() {
            return Err(ToolError::DuplicateName);
        }
        let ghost e = RegistryEntry { definition, handler };
        self.entries.push(RegistryEntry { definition, handler });
        proof {
            let s = self.entries@;
            assert forall|i: int, j: int|
                0 <= i < s.len() && 0 <= j < s.len() && i != j implies (#[trigger] s[i]).definition.name_spec()
                    != (#[trigger] s[j]).definition.name_spec() by {
                if i == s.len() - 1 {
                    assert(names_of(old(self)@)[j] == s[j].definition.name_spec());
                } else if j == s.len() - 1 {
                    assert(names_of(old(self)@)[i] == s[i].definition.name_spec());
                }
            }
        }
        Ok(())
    }

    /// The entry named `name` (exact, case-sensitive match), if any.
    pub fn lookup(&self, name: &str) -> (r: Option<&RegistryEntry>)
        requires
            self.wf(),
        ensures
            r is Some <==> has_name(self@, name@),
            r matches Some(e) ==> lookup_spec(self@, name@) == Some(*e),
            r is None ==> lookup_spec(self@, name@) is None,
    {
        let n = name.to_owned();
        match self.position(&n) {
            Some(i) => {
                proof {
                    lemma_lookup_at(self@, i as int);
                }
                Some(&self.entries[i])
            },
            None => None,
        }
    }

    /// The registered definitions, in registration order.
    pub fn list(&self) -> (r: Vec<&ToolDefinition>)
        ensures
            r@.len() == self@.len(),
            forall|i: int| 0 <= i < r@.len() ==> *r@[i] == (#[trigger] definitions_of(self@)[i]),
    {
        let mut r: Vec<&ToolDefinition> = Vec::new();
        let mut i: usize = 0;
        while i < self.entries.len()
            invariant
                0 <= i <= self.entries@.len(),
                r@.len() == i,
                forall|k: int| 0 <= k < i ==> *r@[k] == (#[trigger] self.entries@[k]).definition,
            decreases self.entries.len() - i,
        {
            r.push(&self.entries[i].definition);
            i = i + 1;
        }
        r
    }
}

/// Registering a tool whose name is free and then looking that name up
/// yields the new entry; a name that no entry carries yields nothing.
pub proof fn lemma_register_then_lookup(s: Seq<RegistryEntry>, e: RegistryEntry, other: Seq<char>)
    requires
        unique_names(s),
    ensures
        !has_name(s, e.definition.name_spec()) ==> lookup_spec(registered(s, e), e.definition.name_spec())
            == Some(e),
        !has_name(registered(s, e), other) ==> lookup_spec(registered(s, e), other) is None,
{
    let n = e.definition.name_spec();
    if !has_name(s, n) {
        let t = s.push(e);
        assert forall|i: int, j: int|
            0 <= i < t.len() && 0 <= j < t.len() && i != j implies (#[trigger] t[i]).definition.name_spec()
                != (#[trigger] t[j]).definition.name_spec() by {
            if i == s.len() {
                assert(names_of(s)[j] == t[j].definition.name_spec());
            } else if j == s.len() {
                assert(names_of(s)[i] == t[i].definition.name_spec());
            }
        }
        lemma_lookup_at(t, s.len() as int);
    }
}

/// Registering a tool whose name is taken leaves the entries unchanged, so
/// the second tool is not present.
pub proof fn lemma_duplicate_unchanged(s: Seq<RegistryEntry>, e: RegistryEntry)
    ensures
        has_name(s, e.definition.name_spec()) ==> registered(s, e) == s,
{
}

/// Listing after a successful registration gives the earlier listing with
/// the new definition appended: definitions are listed in registration order.
pub proof fn lemma_list_order(s: Seq<RegistryEntry>, e: RegistryEntry)
    ensures
        !has_name(s, e.definition.name_spec()) ==> definitions_of(registered(s, e)) == definitions_of(
            s,
        ).push(e.definition),
{
    if !has_name(s, e.definition.name_spec()) {
        assert(definitions_of(s.push(e)) =~= definitions_of(s).push(e.definition));
    }
}

} // verus!
