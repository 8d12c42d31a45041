//! The description of one invocation of the tool.

use vstd::prelude::*;

verus! {

/// An invocation of the tool that has not been started yet.
#[derive(Debug)]
pub struct ProcessBuilder {
    /// The executable to run.
    pub program: String,
    /// Whether the manifest path that the invocation works on is printed
    /// along with the command line.
    pub display_manifest_path: bool,
}

pub struct ProcessBuilderView {
    pub program: Seq<char>,
    pub display_manifest_path: bool,
}

impl View for ProcessBuilder {
    type V = ProcessBuilderView;

    open spec fn view(&self) -> ProcessBuilderView {
        ProcessBuilderView {
            program: self.program@,
            display_manifest_path: self.display_manifest_path,
        }
    }
}

impl ProcessBuilder {
    /// An invocation of `program` with nothing configured.
    pub fn new(program: &String) -> (process: ProcessBuilder)
        ensures
            process@ == (ProcessBuilderView { program: program@, display_manifest_path: false }),
    {
        ProcessBuilder { program: program.clone(), display_manifest_path: false }
    }

    /// Asks for the manifest path to be printed along with the command line.
    pub fn display_manifest_path(&mut self)
        ensures
            final(self)@ == (ProcessBuilderView {
                program: old(self)@.program,
                display_manifest_path: true,
            }),
    {
        self.display_manifest_path = true;
    }
}

} // verus!
