//! Making sure, before the server starts, that the token file is there.
//!
//! The work on the file system is done by the caller, one step at a time. What
//! is here decides which step comes next from how the last one went: find
//! the configuration directory of the user; create it where it is missing;
//! create the token file, empty, where that is missing. A directory that
//! cannot be found or created, or a file that cannot be created, ends the
//! setup in failure. Nothing that is already there is touched.

use vstd::prelude::*;

verus! {

/// The first part of the name under which the configuration directory of the
/// application is looked up.
pub const QUALIFIER: &'static str = "inc";

/// The organization under whose name the configuration directory is looked
/// up.
pub const ORGANIZATION: &'static str = "othelarian";

/// The application under whose name the configuration directory is looked
/// up.
pub const APPLICATION: &'static str = "tracy";

/// The name of the token file inside the configuration directory.
pub const TOKEN_FILE: &'static str = "tracy.conf";

/// Where the setup stands: the step to take next, or how it ended.
#[derive(Clone, Copy, Debug, PartialEq, Eq)]
pub enum Setup {
    /// Find out where the configuration directory of the user is.
    FindDirectory,
    /// Ask whether the configuration directory exists.
    ProbeDirectory,
    /// Create the configuration directory, with the directories above it.
    CreateDirectory,
    /// Ask whether the token file exists.
    ProbeFile,
    /// Create the token file, empty.
    CreateFile,
    /// The token file is there.
    Ready,
    /// The setup cannot be completed.
    Failed,
}

/// The step that follows `step` when `step` went well (`good`: the directory
/// was found, what was asked for exists, what was to be created was created)
/// or did not.
pub open spec fn following(step: Setup, good: bool) -> Setup {
    match step {
        Setup::FindDirectory => if good {
            Setup::ProbeDirectory
        } else {
            Setup::Failed
        },
        Setup::ProbeDirectory => if good {
            Setup::ProbeFile
        } else {
            Setup::CreateDirectory
        },
        Setup::CreateDirectory => if good {
            Setup::CreateFile
        } else {
            Setup::Failed
        },
        Setup::ProbeFile => if good {
            Setup::Ready
        } else {
            Setup::CreateFile
        },
        Setup::CreateFile => if good {
            Setup::Ready
        } else {
            Setup::Failed
        },
        Setup::Ready => Setup::Ready,
        Setup::Failed => Setup::Failed,
    }
}

/// True when the setup has ended, well or not.
pub open spec fn ended(step: Setup) -> bool {
    step == Setup::Ready || step == Setup::Failed
}

/// True when the step changes something on the file system.
pub open spec fn creates(step: Setup) -> bool {
    step == Setup::CreateDirectory || step == Setup::CreateFile
}

/// The largest number of steps that may still be taken from `step` on.
pub open spec fn steps_left(step: Setup) -> nat {
    match step {
        Setup::FindDirectory => 4,
        Setup::ProbeDirectory => 3,
        Setup::CreateDirectory => 2,
        Setup::ProbeFile => 2,
        Setup::CreateFile => 1,
        Setup::Ready => 0,
        Setup::Failed => 0,
    }
}

/// Where the setup stands after the steps from `step` on went as `outcomes`
/// tells, one outcome for each step taken.
pub open spec fn after_outcomes(step: Setup, outcomes: Seq<bool>) -> Setup
    decreases outcomes.len(),
{
    if outcomes.len() == 0 {
        step
    } else {
        after_outcomes(following(step, outcomes[0]), outcomes.drop_first())
    }
}

impl Setup {
    /// The step with which the setup begins.
    pub fn start() -> (step: Setup)
        ensures
            step == Setup::FindDirectory,
    {
        Setup::FindDirectory
    }

    /// Tells whether the setup has ended, well or not.
    pub fn is_ended(&self) -> (b: bool)
        ensures
            b == ended(*self),
    {
        match self {
            Setup::Ready | Setup::Failed => true,
            _ => false,
        }
    }

    /// The step that follows this one, from how this one went.
    pub fn next(&self, good: bool) -> (step: Setup)
        ensures
            step == following(*self, good),
            !ended(*self) ==> steps_left(step) < steps_left(*self),
    {
        match self {
            Setup::FindDirectory => if good {
                Setup::ProbeDirectory
            } else {
                Setup::Failed
            },
            Setup::ProbeDirectory => if good {
                Setup::ProbeFile
            } else {
                Setup::CreateDirectory
            },
            Setup::CreateDirectory => if good {
                Setup::CreateFile
            } else {
                Setup::Failed
            },
            Setup::ProbeFile => if good {
                Setup::Ready
            } else {
                Setup::CreateFile
            },
            Setup::CreateFile => if good {
                Setup::Ready
            } else {
                Setup::Failed
            },
            Setup::Ready => Setup::Ready,
            Setup::Failed => Setup::Failed,
        }
    }
}

/// The setup ends after four steps at most, however they go.
pub proof fn lemma_setup_ends(outcomes: Seq<bool>)
    requires
        outcomes.len() >= 4,
    ensures
        ended(after_outcomes(Setup::FindDirectory, outcomes)),
{
    lemma_steps_are_used_up(Setup::FindDirectory, outcomes);
}

/// Each outcome uses up a step, and a setup that has ended stays as it is.
pub proof fn lemma_steps_are_used_up(step: Setup, outcomes: Seq<bool>)
    requires
        outcomes.len() >= steps_left(step),
    ensures
        ended(after_outcomes(step, outcomes)),
    decreases outcomes.len(),
{
    if outcomes.len() > 0 {
        lemma_steps_are_used_up(following(step, outcomes[0]), outcomes.drop_first());
    }
}

/// Running the setup again changes nothing: where the directory and the
/// token file are found to be there, the setup is ready after three steps
/// and none of them creates anything.
pub proof fn lemma_setup_is_idempotent()
    ensures
        after_outcomes(Setup::FindDirectory, seq![true, true, true]) == Setup::Ready,
        !creates(after_outcomes(Setup::FindDirectory, seq![])),
        !creates(after_outcomes(Setup::FindDirectory, seq![true])),
        !creates(after_outcomes(Setup::FindDirectory, seq![true, true])),
{
    reveal_with_fuel(after_outcomes, 4);
    assert(seq![true, true, true].drop_first() =~= seq![true, true]);
    assert(seq![true, true].drop_first() =~= seq![true]);
    assert(seq![true].drop_first() =~= Seq::<bool>::empty());
}

/// The setup is ready only behind a token file that is there: the step
/// before was to ask for the file, and it exists, or to create it, and it
/// was created.
pub proof fn lemma_ready_means_file_is_there(step: Setup, good: bool)
    requires
        step != Setup::Ready,
        following(step, good) == Setup::Ready,
    ensures
        good,
        step == Setup::ProbeFile || step == Setup::CreateFile,
{
}

} // verus!
