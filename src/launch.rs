//! Turning an editor command string and a target path into the program and
//! the arguments of the process to start.
use vstd::prelude::*;
use crate::error::ConfigError;
use crate::tokenize::{shell_split_of, split_command, words_view, is_blank};

verus! {

/// The process to start: a program and its arguments, in order.
#[derive(Clone, Debug, PartialEq, Eq)]
pub struct LaunchPlan {
    pub program: String,
    pub args: Vec<String>,
}

/// The arguments handed to the editor: every word of its command after the
/// first, then the target path.
pub open spec fn planned_args(words: Seq<Seq<char>>, target: Seq<char>) -> Seq<Seq<char>> {
    words.drop_first().push(target)
}

/// The target path is always the final argument, after every word of the
/// command but the program itself, whatever the command holds.
pub proof fn lemma_target_is_final_argument(words: Seq<Seq<char>>, target: Seq<char>)
    requires
        words.len() > 0,
    ensures
        planned_args(words, target).len() == words.len(),
        planned_args(words, target).last() == target,
        forall|i: int|
            0 <= i < words.len() - 1 ==> #[trigger] planned_args(words, target)[i] == words[i + 1],
{
}

/// Splits the editor command `command` into words and appends `target` as the
/// final argument. The first word is the program to start.
pub fn prepare_launch(command: &str, target: &str) -> (r: Result<LaunchPlan, ConfigError>)
    ensures
        match shell_split_of(command@) {
            None => (r matches Err(ConfigError::InvalidCommandSyntax { command: c, .. })
                && c@ == command@),
            Some(words) => if words.len() == 0 {
                r == Err::<LaunchPlan, ConfigError>(ConfigError::EmptyEditorCommand)
            } else {
                (r matches Ok(plan) && plan.program@ == words[0] && words_view(plan.args@)
                    == planned_args(words, target@))
            },
        },
        is_blank(command@) ==> r == Err::<LaunchPlan, ConfigError>(ConfigError::EmptyEditorCommand),
{
    let words = match split_command(command) {
        Ok(words) => words,
        Err(e) => {
            return Err(ConfigError::InvalidCommandSyntax { command: command.to_owned(), reason: e.reason });
        },
    };
    if words.len() == 0 {
        return Err(ConfigError::EmptyEditorCommand);
    }
    let ghost all = words_view(words@);
    let program = words[0].clone();
    let mut args: Vec<String> = Vec::new();
    let mut i: usize = 1;
    while i < words.len()
        invariant
            1 <= i <= words@.len(),
            all == words_view(words@),
            words_view(args@) == all.subrange(1, i as int),
        decreases words@.len() - i,
    {
        let ghost before = args@;
        let w = words[i].clone();
        args.push(w);
        proof {
            assert(words_view(before).len() == before.len());
            assert forall|j: int| 0 <= j < before.len() implies #[trigger] words_view(args@)[j]
                == words_view(before)[j] by {
                assert(args@[j] == before[j]);
            }
            assert(words_view(args@).len() == i as int);
            assert(words_view(args@) =~= all.subrange(1, i + 1));
        }
        i = i + 1;
    }
    args.push(target.to_owned());
    proof {
        assert(words_view(args@) =~= planned_args(all, target@));
    }
    Ok(LaunchPlan { program, args })
}

} // verus!
