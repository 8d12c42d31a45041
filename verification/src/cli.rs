//! The invocation, as far as the session reads it.

use crate::metadata::optional_text;
use vstd::prelude::*;

verus! {

/// The resolved arguments of one invocation. They are made once and only
/// read afterwards.
#[derive(Debug)]
pub struct Args {
    /// The subcommand to hand to the tool, if one was given.
    pub subcommand: Option<String>,
    /// Whether development dependencies are to be taken out of the manifests.
    pub remove_dev_deps: bool,
    /// Whether each invocation of the tool is to be reported in full.
    pub verbose: bool,
}

pub struct ArgsView {
    pub subcommand: Option<Seq<char>>,
    pub remove_dev_deps: bool,
    pub verbose: bool,
}

impl ArgsView {
    /// Whether the arguments leave anything to do: a subcommand to run, or
    /// development dependencies to remove. Arguments that pass the parser
    /// always do.
    pub open spec fn names_work(self) -> bool {
        self.subcommand is Some || self.remove_dev_deps
    }
}

impl View for Args {
    type V = ArgsView;

    open spec fn view(&self) -> ArgsView {
        ArgsView {
            subcommand: optional_text(self.subcommand),
            remove_dev_deps: self.remove_dev_deps,
            verbose: self.verbose,
        }
    }
}

impl Args {
    /// Whether the arguments leave anything to do.
    pub fn names_work(&self) -> (any: bool)
        ensures
            any == self@.names_work(),
    {
        self.subcommand.is_some() || self.remove_dev_deps
    }
}

} // verus!
