//! What a context knows of the engine: which parts of it are set up, which
//! setup call is due next, and which teardown calls are owed.

use crate::error::PostalError;
use crate::options::InitOptions;
use vstd::prelude::*;

verus! {

/// Which parts of the engine are set up.
#[derive(Debug, Clone, Copy, PartialEq, Eq, Structural)]
pub struct Flags {
    /// The engine's base setup has completed.
    pub setup_done: bool,
    /// Address expansion is enabled.
    pub expand_address_enabled: bool,
    /// Address parsing is enabled.
    pub parse_address_enabled: bool,
}

/// One of the engine's setup calls.
#[derive(Debug, Clone, Copy, PartialEq, Eq, Structural)]
pub enum SetupCall {
    /// The engine's base setup.
    Base,
    /// Setup of the language classifier, which address expansion needs.
    LanguageClassifier,
    /// Setup of the address parser.
    Parser,
}

/// One of the engine's teardown calls.
#[derive(Debug, Clone, Copy, PartialEq, Eq, Structural)]
pub enum TeardownCall {
    /// Teardown of the engine's base setup.
    Base,
    /// Teardown of the language classifier.
    LanguageClassifier,
    /// Teardown of the address parser.
    Parser,
}

/// Nothing is set up.
pub open spec fn no_flags() -> Flags {
    Flags { setup_done: false, expand_address_enabled: false, parse_address_enabled: false }
}

/// An expansion query may be issued.
pub open spec fn expand_ready(flags: Flags) -> bool {
    flags.setup_done && flags.expand_address_enabled
}

/// A parse query may be issued.
pub open spec fn parse_ready(flags: Flags) -> bool {
    flags.setup_done && flags.parse_address_enabled
}

/// The flags once `call` has succeeded.
pub open spec fn after_setup(flags: Flags, call: SetupCall) -> Flags {
    match call {
        SetupCall::Base => Flags { setup_done: true, ..flags },
        SetupCall::LanguageClassifier => Flags { expand_address_enabled: true, ..flags },
        SetupCall::Parser => Flags { parse_address_enabled: true, ..flags },
    }
}

/// The error that `init` reports when `call` fails.
pub open spec fn setup_error(call: SetupCall) -> PostalError {
    match call {
        SetupCall::Base => PostalError::LibpostalSetup,
        SetupCall::LanguageClassifier => PostalError::LibpostalEnableExpansion,
        SetupCall::Parser => PostalError::LibpostalEnableParsing,
    }
}

/// The setup call that follows a successful `call`, if `opts` asks for one.
pub open spec fn setup_after(call: SetupCall, opts: InitOptions) -> Option<SetupCall> {
    match call {
        SetupCall::Base => if opts.expand_address {
            Some(SetupCall::LanguageClassifier)
        } else if opts.parse_address {
            Some(SetupCall::Parser)
        } else {
            None
        },
        SetupCall::LanguageClassifier => if opts.parse_address {
            Some(SetupCall::Parser)
        } else {
            None
        },
        SetupCall::Parser => None,
    }
}

/// One step of initialisation: the flags and the verdict once `call` has
/// returned `succeeded`. The verdict is the next call that is due, `None`
/// where initialisation is complete, or the error that ends it.
pub open spec fn setup_step(flags: Flags, call: SetupCall, succeeded: bool, opts: InitOptions) -> (
    Flags,
    Result<Option<SetupCall>, PostalError>,
) {
    if succeeded {
        (after_setup(flags, call), Ok(setup_after(call, opts)))
    } else {
        (flags, Err(setup_error(call)))
    }
}

/// What the engine answers to each setup call during one initialisation.
pub struct SetupAnswers {
    /// Whether the base setup succeeds.
    pub base: bool,
    /// Whether setup of the language classifier succeeds.
    pub language_classifier: bool,
    /// Whether setup of the parser succeeds.
    pub parser: bool,
}

impl SetupAnswers {
    /// The engine's answer to `call`.
    pub open spec fn to(self, call: SetupCall) -> bool {
        match call {
            SetupCall::Base => self.base,
            SetupCall::LanguageClassifier => self.language_classifier,
            SetupCall::Parser => self.parser,
        }
    }
}

/// A whole initialisation that starts with `due`: each call that is due is
/// made and answered from `answers`, until none is due or one fails.
pub open spec fn run_setup(
    flags: Flags,
    due: Option<SetupCall>,
    opts: InitOptions,
    answers: SetupAnswers,
) -> (Flags, Result<(), PostalError>)
    decreases calls_left(due),
{
    match due {
        None => (flags, Ok(())),
        Some(call) => {
            let (flags_after, verdict) = setup_step(flags, call, answers.to(call), opts);
            match verdict {
                Ok(next) => run_setup(flags_after, next, opts, answers),
                Err(error) => (flags_after, Err(error)),
            }
        },
    }
}

/// How many setup calls can still follow once `due` is made.
pub open spec fn calls_left(due: Option<SetupCall>) -> nat {
    match due {
        None => 0,
        Some(SetupCall::Parser) => 1,
        Some(SetupCall::LanguageClassifier) => 2,
        Some(SetupCall::Base) => 3,
    }
}

/// What `init` amounts to, stated outright: the base setup comes first, then
/// the language classifier if expansion is asked for, then the parser if
/// parsing is asked for. The first failure ends it with that call's error;
/// what succeeded before stays marked.
pub open spec fn init_outcome(flags: Flags, opts: InitOptions, answers: SetupAnswers) -> (
    Flags,
    Result<(), PostalError>,
) {
    if !answers.base {
        (flags, Err(PostalError::LibpostalSetup))
    } else if opts.expand_address && !answers.language_classifier {
        (Flags { setup_done: true, ..flags }, Err(PostalError::LibpostalEnableExpansion))
    } else if opts.parse_address && !answers.parser {
        (
            Flags {
                setup_done: true,
                expand_address_enabled: flags.expand_address_enabled || opts.expand_address,
                ..flags
            },
            Err(PostalError::LibpostalEnableParsing),
        )
    } else {
        (
            Flags {
                setup_done: true,
                expand_address_enabled: flags.expand_address_enabled || opts.expand_address,
                parse_address_enabled: flags.parse_address_enabled || opts.parse_address,
            },
            Ok(()),
        )
    }
}

/// The teardown calls that are owed for `flags`, in the order they are made.
pub open spec fn teardown_calls(flags: Flags) -> Seq<TeardownCall> {
    (if flags.setup_done {
        seq![TeardownCall::Base]
    } else {
        Seq::empty()
    }) + (if flags.expand_address_enabled {
        seq![TeardownCall::LanguageClassifier]
    } else {
        Seq::empty()
    }) + (if flags.parse_address_enabled {
        seq![TeardownCall::Parser]
    } else {
        Seq::empty()
    })
}

/// The part of a context that records what is set up.
#[derive(Debug)]
pub struct EngineState {
    setup_done: bool,
    expand_address_enabled: bool,
    parse_address_enabled: bool,
}

impl View for EngineState {
    type V = Flags;

    closed spec fn view(&self) -> Flags {
        Flags {
            setup_done: self.setup_done,
            expand_address_enabled: self.expand_address_enabled,
            parse_address_enabled: self.parse_address_enabled,
        }
    }
}

impl EngineState {
    /// A state in which nothing is set up.
    pub fn new() -> (state: Self)
        ensures
            state@ == no_flags(),
    {
        EngineState { setup_done: false, expand_address_enabled: false, parse_address_enabled: false }
    }

    /// Which parts of the engine are set up.
    pub fn flags(&self) -> (flags: Flags)
        ensures
            flags == self@,
    {
        Flags {
            setup_done: self.setup_done,
            expand_address_enabled: self.expand_address_enabled,
            parse_address_enabled: self.parse_address_enabled,
        }
    }

    /// Whether an expansion query may be issued.
    pub fn expand_ready(&self) -> (ready: bool)
        ensures
            ready == expand_ready(self@),
    {
        self.setup_done && self.expand_address_enabled
    }

    /// Whether a parse query may be issued.
    pub fn parse_ready(&self) -> (ready: bool)
        ensures
            ready == parse_ready(self@),
    {
        self.setup_done && self.parse_address_enabled
    }

    /// Records the engine's answer to `call` and says how initialisation
    /// goes on: with the next call that is due, with none, or with the error
    /// that ends it.
    pub fn record_setup(&mut self, call: SetupCall, succeeded: bool, opts: &InitOptions) -> (verdict:
        Result<Option<SetupCall>, PostalError>)
        ensures
            (final(self)@, verdict) == setup_step(old(self)@, call, succeeded, *opts),
    {
        if !succeeded {
            return Err(
                match call {
                    SetupCall::Base => PostalError::LibpostalSetup,
                    SetupCall::LanguageClassifier => PostalError::LibpostalEnableExpansion,
                    SetupCall::Parser => PostalError::LibpostalEnableParsing,
                },
            );
        }
        match call {
            SetupCall::Base => {
                self.setup_done = true;
                if opts.expand_address {
                    Ok(Some(SetupCall::LanguageClassifier))
                } else if opts.parse_address {
                    Ok(Some(SetupCall::Parser))
                } else {
                    Ok(None)
                }
            },
            SetupCall::LanguageClassifier => {
                self.expand_address_enabled = true;
                if opts.parse_address {
                    Ok(Some(SetupCall::Parser))
                } else {
                    Ok(None)
                }
            },
            SetupCall::Parser => {
                self.parse_address_enabled = true;
                Ok(None)
            },
        }
    }

    /// Lists the teardown calls that are owed, and marks everything as torn
    /// down, so that none of them is ever listed twice.
    pub fn teardown(&mut self) -> (calls: Vec<TeardownCall>)
        ensures
            calls@ == teardown_calls(old(self)@),
            final(self)@ == no_flags(),
    {
        let mut calls: Vec<TeardownCall> = Vec::new();
        if self.setup_done {
            calls.push(TeardownCall::Base);
        }
        if self.expand_address_enabled {
            calls.push(TeardownCall::LanguageClassifier);
        }
        if self.parse_address_enabled {
            calls.push(TeardownCall::Parser);
        }
        self.setup_done = false;
        self.expand_address_enabled = false;
        self.parse_address_enabled = false;
        proof {
            assert(calls@ =~= teardown_calls(old(self)@));
        }
        calls
    }
}

/// Stepping through initialisation call by call, from the base setup on,
/// ends in exactly the flags and the verdict that `init_outcome` states.
pub proof fn lemma_run_setup_is_init_outcome(flags: Flags, opts: InitOptions, answers: SetupAnswers)
    ensures
        run_setup(flags, Some(SetupCall::Base), opts, answers) == init_outcome(flags, opts, answers),
{
    reveal_with_fuel(run_setup, 4);
}

/// Initialisation never clears a flag: what was set up before stays marked,
/// whether initialisation succeeds or fails.
pub proof fn lemma_init_keeps_flags(flags: Flags, opts: InitOptions, answers: SetupAnswers)
    ensures
        flags.setup_done ==> init_outcome(flags, opts, answers).0.setup_done,
        flags.expand_address_enabled ==> init_outcome(flags, opts, answers).0.expand_address_enabled,
        flags.parse_address_enabled ==> init_outcome(flags, opts, answers).0.parse_address_enabled,
{
}

/// Initialisation succeeds exactly when the base setup and the setup of
/// every capability that was asked for succeed, and then, from a state in
/// which no capability is enabled, exactly those capabilities are enabled.
pub proof fn lemma_init_success(opts: InitOptions, answers: SetupAnswers)
    ensures
        init_outcome(no_flags(), opts, answers).1 is Ok <==> answers.base && (opts.expand_address
            ==> answers.language_classifier) && (opts.parse_address ==> answers.parser),
        init_outcome(no_flags(), opts, answers).1 is Ok ==> init_outcome(no_flags(), opts, answers).0
            == (Flags {
            setup_done: true,
            expand_address_enabled: opts.expand_address,
            parse_address_enabled: opts.parse_address,
        }),
{
}

/// Each teardown call is owed exactly where its part of the engine is set
/// up, and at most once; after a teardown nothing more is owed.
pub proof fn lemma_teardown_calls(flags: Flags)
    ensures
        teardown_calls(flags).contains(TeardownCall::Base) <==> flags.setup_done,
        teardown_calls(flags).contains(TeardownCall::LanguageClassifier)
            <==> flags.expand_address_enabled,
        teardown_calls(flags).contains(TeardownCall::Parser) <==> flags.parse_address_enabled,
        teardown_calls(flags).no_duplicates(),
        teardown_calls(no_flags()) == Seq::<TeardownCall>::empty(),
{
    let calls = teardown_calls(flags);
    let base: Seq<TeardownCall> = if flags.setup_done {
        seq![TeardownCall::Base]
    } else {
        Seq::empty()
    };
    let classifier: Seq<TeardownCall> = if flags.expand_address_enabled {
        seq![TeardownCall::LanguageClassifier]
    } else {
        Seq::empty()
    };
    let parser: Seq<TeardownCall> = if flags.parse_address_enabled {
        seq![TeardownCall::Parser]
    } else {
        Seq::empty()
    };
    assert(calls == base + classifier + parser);
    if flags.setup_done {
        assert(calls[0] == TeardownCall::Base);
    }
    if flags.expand_address_enabled {
        assert(calls[base.len() as int] == TeardownCall::LanguageClassifier);
    }
    if flags.parse_address_enabled {
        assert(calls[(base.len() + classifier.len()) as int] == TeardownCall::Parser);
    }
    assert(teardown_calls(no_flags()) =~= Seq::<TeardownCall>::empty());
}

} // verus!
