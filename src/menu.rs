use vstd::prelude::*;

use crate::text::{trim_seq, trim_str};

verus! {

/// What the user picked from the menu.
#[derive(Debug, Clone, Copy, PartialEq, Eq)]
pub enum MenuChoice {
    /// Commit with the generated message as it is.
    Commit,
    /// Commit, opening the generated message in the editor first.
    CommitWithEdit,
    /// Leave the repository alone.
    Abort,
}

/// The choice that an input line stands for: `1` and `2` (white space round
/// them ignored) pick the two commit modes, anything else aborts.
pub open spec fn choice_of(line: Seq<char>) -> MenuChoice {
    let t = trim_seq(line);
    if t == seq!['1'] {
        MenuChoice::Commit
    } else if t == seq!['2'] {
        MenuChoice::CommitWithEdit
    } else {
        MenuChoice::Abort
    }
}

/// Reads the user's menu line.
pub fn parse_choice(line: &str) -> (r: MenuChoice)
    ensures
        r == choice_of(line@),
{
    let t = trim_str(line);
    if t.unicode_len() != 1 {
        assert(t@ != seq!['1']);
        assert(t@ != seq!['2']);
        return MenuChoice::Abort;
    }
    let c = t.get_char(0);
    if c == '1' {
        assert(t@ =~= seq!['1']);
        MenuChoice::Commit
    } else if c == '2' {
        assert(t@ =~= seq!['2']);
        MenuChoice::CommitWithEdit
    } else {
        assert(t@ != seq!['1'] && t@ != seq!['2']) by {
            assert(seq!['1'][0] == '1');
            assert(seq!['2'][0] == '2');
        }
        MenuChoice::Abort
    }
}

} // verus!
