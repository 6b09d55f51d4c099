//! The fixed parts of the diagnostic dumps: headings, margins and labels,
//! coloured for a terminal.

use owo_colors::OwoColorize;
use vstd::prelude::*;
use vstd::string::StringExecFns;

use crate::block::{Block, BlockModel};
use crate::machine::Machine;
use crate::text::{decimal, digits, pad, padded};
use crate::vm::VM;

verus! {

broadcast use vstd::std_specs::hash::group_hash_axioms;

/// The escape sequence that sets the default foreground colour back.
pub open spec fn plain() -> Seq<char> {
    "\x1b[39m"@
}

/// `text` in blue.
pub open spec fn in_blue(text: Seq<char>) -> Seq<char> {
    "\x1b[34m"@ + text + plain()
}

/// `text` in red.
pub open spec fn in_red(text: Seq<char>) -> Seq<char> {
    "\x1b[31m"@ + text + plain()
}

/// `text` in green.
pub open spec fn in_green(text: Seq<char>) -> Seq<char> {
    "\x1b[32m"@ + text + plain()
}

/// `text` in purple.
pub open spec fn in_purple(text: Seq<char>) -> Seq<char> {
    "\x1b[35m"@ + text + plain()
}

/// `OwoColorize::blue` of owo-colors on a text, formatted for display: the
/// text after the escape sequence of the foreground colour 34 and before
/// the one of the default foreground colour.
#[verifier::external_body]
pub(crate) fn blue(text: &str) -> (r: String)
    ensures
        r@ == in_blue(text@),
{
    format!("{}", text.blue())
}

/// `OwoColorize::red` of owo-colors on a text, formatted for display: the
/// text after the escape sequence of the foreground colour 31 and before
/// the one of the default foreground colour.
#[verifier::external_body]
pub(crate) fn red(text: &str) -> (r: String)
    ensures
        r@ == in_red(text@),
{
    format!("{}", text.red())
}

/// `OwoColorize::green` of owo-colors on a text, formatted for display: the
/// text after the escape sequence of the foreground colour 32 and before
/// the one of the default foreground colour.
#[verifier::external_body]
pub(crate) fn green(text: &str) -> (r: String)
    ensures
        r@ == in_green(text@),
{
    format!("{}", text.green())
}

/// `OwoColorize::purple` of owo-colors on a text, formatted for display:
/// the text after the escape sequence of the foreground colour 35, which
/// owo-colors calls both magenta and purple, and before the one of the
/// default foreground colour.
#[verifier::external_body]
pub(crate) fn purple(text: &str) -> (r: String)
    ensures
        r@ == in_purple(text@),
{
    format!("{}", text.purple())
}

/// A number in red, filled up with blanks to five places.
pub open spec fn line_label(line: usize) -> Seq<char> {
    in_red(pad(digits(line as nat), 5, ' '))
}

/// A number in blue, filled up with zeros to five places.
pub open spec fn index_label(index: usize) -> Seq<char> {
    in_blue(pad(digits(index as nat), 5, '0'))
}

/// The banner above the dump of a block that is about to be checked or to
/// be run.
pub open spec fn banner_text(checking: bool) -> Seq<char> {
    "\n    [["@ + (if checking {
        in_purple("TYPECHECK"@)
    } else {
        in_red("RUNNING"@)
    }) + "]]\n"@
}

impl BlockModel {
    /// The heading of the dump of the block: its name in blue.
    pub open spec fn heading(self) -> Seq<char> {
        "     === "@ + in_blue(self.name) + " ==="@
    }

    /// What stands before the instruction `index` in the dump of the
    /// block: the source line in red where one is noted for that very
    /// instruction, else a red bar, and the index in blue.
    pub open spec fn margin(self, index: usize) -> Seq<char> {
        (if self.line_offsets.contains_key(index) {
            line_label(self.line_offsets[index]) + " "@
        } else {
            "    "@ + in_red("|"@) + " "@
        }) + index_label(index) + " "@
    }
}

impl Machine {
    /// What opens the dump of the stack: the offset of the running frame,
    /// filled up with blanks to three places, and a bracket.
    pub open spec fn stack_heading(self) -> Seq<char> {
        "    "@ + pad(digits(self.top().stack_offset as nat), 3, ' ') + " ["@
    }

    /// What stands before the instruction at hand in the dump of the
    /// stack: its source line in red and its index in blue.
    pub open spec fn instruction_margin(self) -> Seq<char> {
        line_label(self.blocks[self.top().block as int].line(self.top().ip)) + " "@ + index_label(
            self.top().ip,
        ) + " "@
    }
}

fn line_text(line: usize) -> (r: String)
    ensures
        r@ == line_label(line),
{
    proof {
        reveal_strlit(" ");
    }
    red(padded(decimal(line), 5, " ").as_str())
}

fn index_text(index: usize) -> (r: String)
    ensures
        r@ == index_label(index),
{
    proof {
        reveal_strlit("0");
    }
    blue(padded(decimal(index), 5, "0").as_str())
}

/// The banner above the dump of a block.
pub fn banner(checking: bool) -> (r: String)
    ensures
        r@ == banner_text(checking),
{
    let mut r = "\n    [[".to_owned();
    if checking {
        r.append(purple("TYPECHECK").as_str());
    } else {
        r.append(red("RUNNING").as_str());
    }
    r.append("]]\n");
    r
}

/// The text of a value on the stack, in green.
pub fn operand(text: &str) -> (r: String)
    ensures
        r@ == in_green(text@),
{
    green(text)
}

impl Block {
    /// The heading of the dump of the block.
    pub fn heading(&self) -> (r: String)
        ensures
            r@ == self@.heading(),
    {
        let mut r = "     === ".to_owned();
        r.append(blue(self.name.as_str()).as_str());
        r.append(" ===");
        r
    }

    /// What stands before the instruction `index` in the dump of the
    /// block.
    pub fn margin(&self, index: usize) -> (r: String)
        ensures
            r@ == self@.margin(index),
    {
        let mut r = match self.line_offsets.get(&index) {
            Some(line) => {
                let mut r = line_text(*line);
                r.append(" ");
                r
            },
            None => {
                let mut r = "    ".to_owned();
                r.append(red("|").as_str());
                r.append(" ");
                r
            },
        };
        r.append(index_text(index).as_str());
        r.append(" ");
        r
    }
}

impl VM {
    /// What opens the dump of the stack, while a frame runs.
    pub fn stack_heading(&self) -> (r: Option<String>)
        ensures
            match r {
                Some(text) => self@.frames.len() > 0 && text@ == self@.stack_heading(),
                None => self@.frames.len() == 0,
            },
    {
        match self.frame() {
            Some(frame) => {
                proof {
                    reveal_strlit(" ");
                }
                let mut r = "    ".to_owned();
                r.append(padded(decimal(frame.stack_offset), 3, " ").as_str());
                r.append(" [");
                Some(r)
            },
            None => None,
        }
    }

    /// What stands before the instruction at hand in the dump of the
    /// stack, while a frame runs a block of the machine.
    pub fn instruction_margin(&self) -> (r: Option<String>)
        ensures
            match r {
                Some(text) => {
                    &&& self@.frames.len() > 0
                    &&& self@.top().block < self@.blocks.len()
                    &&& text@ == self@.instruction_margin()
                },
                None => !(self@.frames.len() > 0 && self@.top().block < self@.blocks.len()),
            },
    {
        match self.frame() {
            Some(frame) => match self.block(frame.block) {
                Some(block) => {
                    let mut r = line_text(block.line(frame.ip));
                    r.append(" ");
                    r.append(index_text(frame.ip).as_str());
                    r.append(" ");
                    Some(r)
                },
                None => None,
            },
            None => None,
        }
    }
}

} // verus!
