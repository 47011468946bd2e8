//! The tool registry.
//!
//! Every capability the agent can invoke (file read, shell execute, grep,
//! etc.) is registered under the name in its schema. The registry looks tools
//! up by name and collects all schemas for the provider request. The tools
//! themselves are whatever the caller stores (`T`).
use vstd::prelude::*;

use crate::text::str_eq;
use crate::types::{schema_view, schema_views, SchemaView, ToolSchema};

verus! {

/// Registry of all available tools, in registration order.
pub struct ToolRegistry<T> {
    tools: Vec<(ToolSchema, T)>,
}

/// Whether no two entries of `names` are equal.
pub open spec fn unique_names(names: Seq<Seq<char>>) -> bool {
    forall|i: int, j: int| 0 <= i < j < names.len() ==> names[i] != names[j]
}

impl<T> ToolRegistry<T> {
    /// The registered schemas, in order.
    pub closed spec fn schemas(&self) -> Seq<SchemaView> {
        schema_views(self.tools@.map_values(|e: (ToolSchema, T)| e.0))
    }

    /// The registered tools, in order.
    pub closed spec fn tools(&self) -> Seq<T> {
        self.tools@.map_values(|e: (ToolSchema, T)| e.1)
    }

    /// The registered names, in order.
    pub open spec fn names(&self) -> Seq<Seq<char>> {
        self.schemas().map_values(|s: SchemaView| s.name)
    }

    #[verifier::type_invariant]
    closed spec fn inv(&self) -> bool {
        unique_names(self.names())
    }

    /// An empty registry.
    pub fn new() -> (r: Self)
        ensures
            r.schemas().len() == 0,
            r.tools().len() == 0,
    {
        let r = ToolRegistry { tools: Vec::new() };
        assert(r.names() =~= Seq::<Seq<char>>::empty());
        r
    }

    fn find(&self, name: &str) -> (r: Option<usize>)
        ensures
            self.schemas().len() == self.tools().len(),
            match r {
                Some(i) => i < self.schemas().len() && self.names()[i as int] == name@,
                None => !self.names().contains(name@),
            },
    {
        let mut i: usize = 0;
        while i < self.tools.len()
            invariant
                i <= self.tools@.len(),
                forall|j: int| 0 <= j < i ==> self.names()[j] != name@,
            decreases self.tools@.len() - i,
        {
            if str_eq(self.tools[i].0.name.as_str(), name) {
                return Some(i);
            }
            i = i + 1;
        }
        None
    }

    /// Register a tool under its schema's name; the name must be new.
    pub fn register(&mut self, schema: ToolSchema, tool: T)
        requires
            !old(self).names().contains(schema.name@),
        ensures
            final(self).schemas() == old(self).schemas().push(schema_view(schema)),
            final(self).tools() == old(self).tools().push(tool),
    {
        proof {
            use_type_invariant(&*self);
        }
        let ghost s0 = self.schemas();
        let ghost t0 = self.tools();
        let ghost sv = schema_view(schema);
        let mut tools = Vec::new();
        std::mem::swap(&mut tools, &mut self.tools);
        tools.push((schema, tool));
        let ghost nt = tools@;
        assert(schema_views(nt.map_values(|e: (ToolSchema, T)| e.0)) =~= s0.push(sv));
        assert(schema_views(nt.map_values(|e: (ToolSchema, T)| e.0)).map_values(|s: SchemaView| s.name)
            =~= s0.map_values(|s: SchemaView| s.name).push(sv.name));
        self.tools = tools;
        assert(self.tools() =~= t0.push(tool));
    }

    /// Look up a tool by name.
    pub fn get(&self, name: &str) -> (r: Option<&T>)
        ensures
            match r {
                Some(t) => exists|i: int| 0 <= i < self.names().len() && self.names()[i] == name@ && self.tools()[i] == *t,
                None => !self.names().contains(name@),
            },
    {
        match self.find(name) {
            Some(i) => Some(&self.tools[i].1),
            None => None,
        }
    }

    /// The schema registered under `name`.
    pub fn get_schema(&self, name: &str) -> (r: Option<&ToolSchema>)
        ensures
            match r {
                Some(s) => schema_view(*s).name == name@ && exists|i: int| 0 <= i < self.schemas().len() && self.schemas()[i] == schema_view(*s),
                None => !self.names().contains(name@),
            },
    {
        match self.find(name) {
            Some(i) => {
                assert(self.schemas()[i as int] == schema_view(self.tools@[i as int].0));
                Some(&self.tools[i].0)
            },
            None => None,
        }
    }

    /// Return copies of the schemas of all registered tools, in order.
    pub fn all_schemas(&self) -> (r: Vec<ToolSchema>)
        ensures
            schema_views(r@) == self.schemas(),
    {
        let mut out: Vec<ToolSchema> = Vec::new();
        let mut i: usize = 0;
        while i < self.tools.len()
            invariant
                i <= self.tools@.len(),
                schema_views(out@) == self.schemas().subrange(0, i as int),
            decreases self.tools@.len() - i,
        {
            let ghost before = out@;
            let c = self.tools[i].0.copy();
            out.push(c);
            assert(self.schemas()[i as int] == schema_view(self.tools@[i as int].0));
            assert(schema_views(out@) =~= schema_views(before).push(schema_view(c)));
            assert(schema_views(out@) =~= self.schemas().subrange(0, i + 1));
            i = i + 1;
        }
        assert(self.schemas().subrange(0, self.tools@.len() as int) =~= self.schemas());
        out
    }

    /// Return the number of registered tools.
    pub fn len(&self) -> (r: usize)
        ensures
            r == self.schemas().len(),
            r == self.tools().len(),
    {
        self.tools.len()
    }

    /// Check if the registry is empty.
    pub fn is_empty(&self) -> (r: bool)
        ensures
            r == (self.schemas().len() == 0),
    {
        self.tools.len() == 0
    }

    /// After a tool is registered under a new name, that name belongs to it
    /// alone: looking the name up finds exactly this tool and schema.
    pub proof fn law_registered_tool_is_found(before: &Self, after: &Self, schema: SchemaView, tool: T)
        requires
            !before.names().contains(schema.name),
            after.schemas() == before.schemas().push(schema),
            after.tools() == before.tools().push(tool),
            before.schemas().len() == before.tools().len(),
        ensures
            after.names().contains(schema.name),
            forall|i: int| 0 <= i < after.names().len() && after.names()[i] == schema.name ==> i == before.names().len()
                && after.tools()[i] == tool && after.schemas()[i] == schema,
    {
        let n = before.names().len() as int;
        assert(after.names()[n] == schema.name);
        assert forall|i: int| 0 <= i < after.names().len() && after.names()[i] == schema.name implies i == n
            && after.tools()[i] == tool && after.schemas()[i] == schema by {
            if i < n {
                assert(before.names()[i] == after.names()[i]);
            }
        }
    }
}

impl<T> Default for ToolRegistry<T> {
    /// An empty registry.
    fn default() -> (r: Self)
        ensures
            r.schemas().len() == 0,
            r.tools().len() == 0,
    {
        Self::new()
    }
}

} // verus!
