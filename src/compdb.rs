//! The compilation database: one record per project translation unit, for
//! editors and other tools.
use vstd::prelude::*;

use crate::text::{cat, cat3, lit};

verus! {

/// One record: the project directory, the unit, and the command that compiles it.
pub struct CompileCommand {
    pub directory: String,
    pub file: String,
    pub command: String,
}

/// `gcc -c <file> -I <header dir>`.
pub open spec fn canonical_command(file: Seq<char>, header_dir: Seq<char>) -> Seq<char> {
    "gcc -c "@ + file + " -I "@ + header_dir
}

pub fn compile_command(directory: &str, file: &str, header_dir: &str) -> (r: CompileCommand)
    ensures
        r.directory@ == directory@,
        r.file@ == file@,
        r.command@ == canonical_command(file@, header_dir@),
{
    let head = cat3("gcc -c ", file, " -I ");
    CompileCommand {
        directory: lit(directory),
        file: lit(file),
        command: cat(head.as_str(), header_dir),
    }
}

/// The records of the project's units, in order; paths are given absolute.
pub fn compilation_database(project_dir: &str, header_dir: &str, source_files: &Vec<String>) -> (r: Vec<CompileCommand>)
    ensures
        r@.len() == source_files@.len(),
        forall|i: int|
            0 <= i < r@.len() ==> {
                &&& (#[trigger] r@[i]).directory@ == project_dir@
                &&& r@[i].file@ == source_files@[i]@
                &&& r@[i].command@ == canonical_command(source_files@[i]@, header_dir@)
            },
{
    let mut r: Vec<CompileCommand> = Vec::new();
    let mut i: usize = 0;
    while i < source_files.len()
        invariant
            i <= source_files@.len(),
            r@.len() == i,
            forall|j: int|
                0 <= j < i ==> {
                    &&& (#[trigger] r@[j]).directory@ == project_dir@
                    &&& r@[j].file@ == source_files@[j]@
                    &&& r@[j].command@ == canonical_command(source_files@[j]@, header_dir@)
                },
        decreases source_files.len() - i,
    {
        r.push(compile_command(project_dir, source_files[i].as_str(), header_dir));
        i = i + 1;
    }
    r
}

} // verus!
