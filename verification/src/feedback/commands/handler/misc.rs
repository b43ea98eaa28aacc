//! The help command.

use vstd::prelude::*;
use crate::feedback::commands::{help, help_text};

verus! {

pub struct HelperCommand;

impl HelperCommand {
    pub fn command_name(&self) -> (r: &'static str)
        ensures
            r@ == "帮助"@,
    {
        "帮助"
    }

    pub fn command_usage(&self) -> (r: &'static str)
        ensures
            r@ == "帮助\n    查看帮助信息"@,
    {
        "帮助\n    查看帮助信息"
    }

    /// The answer: the usage of every command, then the tips.
    pub fn render(&self) -> (r: String)
        ensures
            r@ == help_text(),
    {
        help()
    }
}

} // verus!
