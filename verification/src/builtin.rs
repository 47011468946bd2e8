//! The built-in tools and their registration.
use vstd::prelude::*;

use crate::file_tools::{file_edit_schema, file_read_schema, file_write_schema, FileEditTool, FileReadTool, FileWriteTool};
use crate::search::{glob_schema, grep_schema, GlobTool, GrepTool};
use crate::shell::{shell_schema, ShellExecuteTool};
use crate::tool::ToolRegistry;
use crate::types::{schema_view, SchemaView, ToolSchema};

verus! {

/// One of the built-in tools.
#[derive(Debug)]
pub enum BuiltinTool {
    FileRead(FileReadTool),
    FileWrite(FileWriteTool),
    FileEdit(FileEditTool),
    Shell(ShellExecuteTool),
    Glob(GlobTool),
    Grep(GrepTool),
}

impl BuiltinTool {
    pub open spec fn spec_schema(&self) -> SchemaView {
        match self {
            BuiltinTool::FileRead(t) => t.spec_schema(),
            BuiltinTool::FileWrite(t) => t.spec_schema(),
            BuiltinTool::FileEdit(t) => t.spec_schema(),
            BuiltinTool::Shell(t) => t.spec_schema(),
            BuiltinTool::Glob(t) => t.spec_schema(),
            BuiltinTool::Grep(t) => t.spec_schema(),
        }
    }

    /// The tool's schema.
    pub fn schema(&self) -> (r: &ToolSchema)
        ensures
            schema_view(*r) == self.spec_schema(),
    {
        match self {
            BuiltinTool::FileRead(t) => t.schema(),
            BuiltinTool::FileWrite(t) => t.schema(),
            BuiltinTool::FileEdit(t) => t.schema(),
            BuiltinTool::Shell(t) => t.schema(),
            BuiltinTool::Glob(t) => t.schema(),
            BuiltinTool::Grep(t) => t.schema(),
        }
    }
}

/// The schemas of the built-in tools, in registration order.
pub open spec fn builtin_schemas() -> Seq<SchemaView> {
    seq![file_read_schema(), file_write_schema(), file_edit_schema(), shell_schema(), glob_schema(), grep_schema()]
}

/// The names of the built-in tools.
pub open spec fn builtin_names() -> Seq<Seq<char>> {
    builtin_schemas().map_values(|s: SchemaView| s.name)
}

proof fn lemma_builtin_names()
    ensures
        builtin_names() == seq!["file_read"@, "file_write"@, "file_edit"@, "shell_execute"@, "glob"@, "grep"@],
        forall|i: int, j: int| 0 <= i < j < 6 ==> builtin_names()[i] != builtin_names()[j],
{
    reveal_strlit("file_read");
    reveal_strlit("file_write");
    reveal_strlit("file_edit");
    reveal_strlit("shell_execute");
    reveal_strlit("glob");
    reveal_strlit("grep");
    let ns = seq!["file_read"@, "file_write"@, "file_edit"@, "shell_execute"@, "glob"@, "grep"@];
    assert(builtin_names() =~= ns);
    assert(ns[0][5] != ns[2][5]);
    assert(ns[4][1] != ns[5][1]);
    assert forall|i: int, j: int| 0 <= i < j < 6 implies ns[i] != ns[j] by {
        if i == 0 && j == 2 {
            assert(ns[i][5] != ns[j][5]);
        } else if i == 4 && j == 5 {
            assert(ns[i][1] != ns[j][1]);
        } else {
            assert(ns[i].len() != ns[j].len());
        }
    }
}

fn add_tool(registry: &mut ToolRegistry<BuiltinTool>, tool: BuiltinTool)
    requires
        !old(registry).names().contains(tool.spec_schema().name),
    ensures
        final(registry).schemas() == old(registry).schemas().push(tool.spec_schema()),
        final(registry).tools() == old(registry).tools().push(tool),
{
    let schema = tool.schema().copy();
    registry.register(schema, tool);
}

/// Register all built-in tools, the shell with the given default timeout
/// and output limit. None of their names may be registered yet.
pub fn register_all_with_config(registry: &mut ToolRegistry<BuiltinTool>, shell_timeout_ms: u64, shell_output_limit: usize)
    requires
        forall|i: int| 0 <= i < builtin_names().len() ==> !old(registry).names().contains(#[trigger] builtin_names()[i]),
    ensures
        final(registry).schemas() == old(registry).schemas() + builtin_schemas(),
        final(registry).tools().len() == old(registry).tools().len() + 6,
        final(registry).tools()[old(registry).tools().len() + 3int] matches BuiltinTool::Shell(t)
            && t.spec_default_timeout() == shell_timeout_ms && t.spec_output_limit() == shell_output_limit,
{
    proof {
        lemma_builtin_names();
    }
    let ghost s0 = registry.schemas();
    let ghost n0 = registry.tools().len();
    assert(!registry.names().contains(builtin_names()[0]));
    add_tool(registry, BuiltinTool::FileRead(FileReadTool::new()));
    assert(!registry.names().contains(builtin_names()[1])) by {
        assert(!s0.map_values(|s: SchemaView| s.name).contains(builtin_names()[1]));
        assert(registry.names() =~= s0.map_values(|s: SchemaView| s.name).push(builtin_names()[0]));
        assert(builtin_names()[0] != builtin_names()[1]);
    }
    add_tool(registry, BuiltinTool::FileWrite(FileWriteTool::new()));
    assert(!registry.names().contains(builtin_names()[2])) by {
        assert(!s0.map_values(|s: SchemaView| s.name).contains(builtin_names()[2]));
        assert(registry.names() =~= s0.map_values(|s: SchemaView| s.name).push(builtin_names()[0]).push(builtin_names()[1]));
        assert(builtin_names()[0] != builtin_names()[2]);
        assert(builtin_names()[1] != builtin_names()[2]);
    }
    add_tool(registry, BuiltinTool::FileEdit(FileEditTool::new()));
    assert(!registry.names().contains(builtin_names()[3])) by {
        assert(!s0.map_values(|s: SchemaView| s.name).contains(builtin_names()[3]));
        assert(registry.names() =~= s0.map_values(|s: SchemaView| s.name).push(builtin_names()[0]).push(builtin_names()[1]).push(builtin_names()[2]));
        assert(builtin_names()[0] != builtin_names()[3]);
        assert(builtin_names()[1] != builtin_names()[3]);
        assert(builtin_names()[2] != builtin_names()[3]);
    }
    add_tool(registry, BuiltinTool::Shell(ShellExecuteTool::with_limits(shell_timeout_ms, shell_output_limit)));
    assert(!registry.names().contains(builtin_names()[4])) by {
        assert(!s0.map_values(|s: SchemaView| s.name).contains(builtin_names()[4]));
        assert(registry.names() =~= s0.map_values(|s: SchemaView| s.name).push(builtin_names()[0]).push(builtin_names()[1]).push(builtin_names()[2]).push(builtin_names()[3]));
        assert(builtin_names()[0] != builtin_names()[4]);
        assert(builtin_names()[1] != builtin_names()[4]);
        assert(builtin_names()[2] != builtin_names()[4]);
        assert(builtin_names()[3] != builtin_names()[4]);
    }
    add_tool(registry, BuiltinTool::Glob(GlobTool::new()));
    assert(!registry.names().contains(builtin_names()[5])) by {
        assert(!s0.map_values(|s: SchemaView| s.name).contains(builtin_names()[5]));
        assert(registry.names() =~= s0.map_values(|s: SchemaView| s.name).push(builtin_names()[0]).push(builtin_names()[1]).push(builtin_names()[2]).push(builtin_names()[3]).push(builtin_names()[4]));
        assert(builtin_names()[0] != builtin_names()[5]);
        assert(builtin_names()[1] != builtin_names()[5]);
        assert(builtin_names()[2] != builtin_names()[5]);
        assert(builtin_names()[3] != builtin_names()[5]);
        assert(builtin_names()[4] != builtin_names()[5]);
    }
    add_tool(registry, BuiltinTool::Grep(GrepTool::new()));
    assert(registry.schemas() =~= s0 + builtin_schemas());
}

/// Register all built-in tools, the shell with a 30-second default timeout
/// and a 100 000-byte output limit.
pub fn register_all(registry: &mut ToolRegistry<BuiltinTool>)
    requires
        forall|i: int| 0 <= i < builtin_names().len() ==> !old(registry).names().contains(#[trigger] builtin_names()[i]),
    ensures
        final(registry).schemas() == old(registry).schemas() + builtin_schemas(),
        final(registry).tools().len() == old(registry).tools().len() + 6,
        final(registry).tools()[old(registry).tools().len() + 3int] matches BuiltinTool::Shell(t)
            && t.spec_default_timeout() == 30_000 && t.spec_output_limit() == 100_000,
{
    register_all_with_config(registry, 30_000, 100_000);
}

} // verus!
