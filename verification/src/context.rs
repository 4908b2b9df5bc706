//! The handle through which the engine is set up, queried and torn down.

use crate::c_string::{first_nul, has_nul, terminated, to_c_string};
use crate::components::Components;
use crate::error::PostalError;
use crate::expansions::Expansions;
use crate::lock::{acquire, is_held, new_mutex, CallLock};
use crate::options::{buffers_of, ExpandAddressOptions, InitOptions, ParseAddressOptions};
use crate::state::{
    expand_ready, init_outcome, no_flags, parse_ready, teardown_calls, EngineState, Flags,
    SetupAnswers, TeardownCall,
};
use crate::text::bytes_of;
use vstd::prelude::*;
use vstd::string::StringSliceAdditionalSpecFns;
use vstd::utf8::encode_utf8;

verus! {

/// What a query comes to before the engine is entered: `NotReady` where the
/// capability is not enabled, else `BadCString` with the offset of the first
/// zero byte where the text holds one, else the zero-terminated text that is
/// handed to the engine.
pub open spec fn query_outcome(ready: bool, text: Seq<u8>) -> Result<Seq<u8>, PostalError> {
    if !ready {
        Err(PostalError::LibpostalNotReady)
    } else if has_nul(text) {
        Err(PostalError::BadCString(first_nul(text) as usize))
    } else {
        Ok(terminated(text))
    }
}

/// What `init` comes to before the engine is entered: `BadCString` where the
/// data directory holds a zero byte, else the zero-terminated directory to
/// hand to each setup call, `None` where the engine is to use its own.
pub open spec fn data_dir_outcome(opts: InitOptions) -> Result<Option<Seq<u8>>, PostalError> {
    match opts.data_dir {
        None => Ok(None),
        Some(dir) => if has_nul(encode_utf8(dir@)) {
            Err(PostalError::BadCString(first_nul(encode_utf8(dir@)) as usize))
        } else {
            Ok(Some(terminated(encode_utf8(dir@))))
        },
    }
}

/// The engine, as one process sees it. A process should hold one context at
/// a time: the engine's setup and teardown act on state that all contexts
/// share, while each context locks only its own calls.
pub struct Context {
    state: EngineState,
    mutex: parking_lot::Mutex<bool>,
}

/// An initialisation under way. While it is alive the context's lock is
/// held; the setup calls are made in that time, and each answer is recorded
/// in `state`.
pub struct InitSession<'a> {
    /// Where the answers to the setup calls are recorded.
    pub state: &'a mut EngineState,
    /// The zero-terminated data directory to hand to each setup call.
    pub data_dir: Option<Vec<u8>>,
    /// The lock that is held until the session is dropped.
    pub lock: CallLock<'a>,
}

/// An expansion query that has been admitted. While it is alive the
/// context's lock is held; the engine is entered in that time.
pub struct ExpandCall<'a> {
    address: Vec<u8>,
    languages: Option<&'a Vec<Vec<u8>>>,
    lock: CallLock<'a>,
}

/// A parse query that has been admitted. While it is alive the context's
/// lock is held; the engine is entered in that time.
pub struct ParseCall<'a> {
    address: Vec<u8>,
    lock: CallLock<'a>,
}

impl View for Context {
    type V = Flags;

    /// Which parts of the engine this context has set up.
    closed spec fn view(&self) -> Flags {
        self.state@
    }
}

impl Context {
    /// A context that has set up nothing. The engine is not entered.
    pub fn new() -> (context: Context)
        ensures
            context@ == no_flags(),
    {
        Context { state: EngineState::new(), mutex: new_mutex() }
    }

    /// Which parts of the engine this context has set up.
    pub fn flags(&self) -> (flags: Flags)
        ensures
            flags == self@,
    {
        self.state.flags()
    }

    /// Whether a call into the engine is under way on this context, as far
    /// as can be told at the moment of asking: another thread can begin or
    /// end one at any time.
    pub fn is_locked(&self) -> bool {
        is_held(&self.mutex)
    }

    /// Begins initialisation: checks the data directory and takes the lock.
    ///
    /// The caller then makes the setup calls, beginning with the base setup,
    /// and records each answer with `EngineState::record_setup`, which names
    /// the call that follows. Initialising a context a second time is not
    /// supported: the engine's setup must not be repeated without a teardown
    /// in between, and nothing here prevents it.
    pub fn init<'a>(&'a mut self, opts: &InitOptions) -> (session: Result<
        InitSession<'a>,
        PostalError,
    >)
        ensures
            match session {
                Ok(run) => {
                    &&& (*run.state)@ == old(self)@
                    &&& final(self)@ == (*final(run.state))@
                    &&& match run.data_dir {
                        Some(dir) => data_dir_outcome(*opts) == Ok::<Option<Seq<u8>>, PostalError>(
                            Some(dir@),
                        ),
                        None => data_dir_outcome(*opts) == Ok::<Option<Seq<u8>>, PostalError>(None),
                    }
                },
                Err(error) => {
                    &&& data_dir_outcome(*opts) == Err::<Option<Seq<u8>>, PostalError>(error)
                    &&& final(self)@ == old(self)@
                },
            },
    {
        let data_dir = match &opts.data_dir {
            None => None,
            Some(dir) => match to_c_string(dir.as_str().as_bytes()) {
                Ok(path) => Some(path),
                Err(at) => {
                    proof {
                        crate::c_string::lemma_first_nul(encode_utf8(dir@), at as int);
                    }
                    return Err(PostalError::BadCString(at));
                },
            },
        };
        let lock = acquire(&self.mutex);
        Ok(InitSession { state: &mut self.state, data_dir, lock })
    }

    /// Admits an expansion query, or says why it cannot be made.
    ///
    /// Where the capability is not enabled the lock is not taken. Where the
    /// query is admitted, the caller enters the engine with the address and
    /// the languages of the returned call, and hands what the engine returns
    /// to `ExpandCall::complete`.
    ///
    /// The lock is not re-entrant: a thread that still holds an admitted
    /// call of this context must complete or drop it before it issues the
    /// next query, or this call does not return.
    pub fn expand_address<'a>(&'a self, a: &str, opts: &'a ExpandAddressOptions) -> (admitted:
        Result<ExpandCall<'a>, PostalError>)
        ensures
            match admitted {
                Ok(call) => {
                    &&& query_outcome(expand_ready(self@), a.spec_bytes()) == Ok::<
                        Seq<u8>,
                        PostalError,
                    >(call.address())
                    &&& call.languages() == opts.languages()
                },
                Err(error) => query_outcome(expand_ready(self@), a.spec_bytes()) == Err::<
                    Seq<u8>,
                    PostalError,
                >(error),
            },
    {
        if self.state.expand_ready() {
            let lock = acquire(&self.mutex);
            match to_c_string(a.as_bytes()) {
                Ok(address) => Ok(ExpandCall { address, languages: opts.language_codes(), lock }),
                Err(at) => {
                    proof {
                        crate::c_string::lemma_first_nul(a.spec_bytes(), at as int);
                    }
                    Err(PostalError::BadCString(at))
                },
            }
        } else {
            Err(PostalError::LibpostalNotReady)
        }
    }

    /// Admits a parse query, or says why it cannot be made.
    ///
    /// Where the capability is not enabled the lock is not taken. Where the
    /// query is admitted, the caller enters the engine with the address of
    /// the returned call, and hands what the engine returns to
    /// `ParseCall::complete`.
    ///
    /// The lock is not re-entrant: a thread that still holds an admitted
    /// call of this context must complete or drop it before it issues the
    /// next query, or this call does not return.
    pub fn parse_address<'a>(&'a self, a: &str, opts: &ParseAddressOptions) -> (admitted: Result<
        ParseCall<'a>,
        PostalError,
    >)
        ensures
            match admitted {
                Ok(call) => query_outcome(parse_ready(self@), a.spec_bytes()) == Ok::<
                    Seq<u8>,
                    PostalError,
                >(call.address()),
                Err(error) => query_outcome(parse_ready(self@), a.spec_bytes()) == Err::<
                    Seq<u8>,
                    PostalError,
                >(error),
            },
    {
        if self.state.parse_ready() {
            let lock = acquire(&self.mutex);
            match to_c_string(a.as_bytes()) {
                Ok(address) => Ok(ParseCall { address, lock }),
                Err(at) => {
                    proof {
                        crate::c_string::lemma_first_nul(a.spec_bytes(), at as int);
                    }
                    Err(PostalError::BadCString(at))
                },
            }
        } else {
            Err(PostalError::LibpostalNotReady)
        }
    }

    /// Lists the teardown calls that this context owes, in the order they
    /// are to be made, and marks everything as torn down. The lock is not
    /// taken.
    pub fn teardown(&mut self) -> (calls: Vec<TeardownCall>)
        ensures
            calls@ == teardown_calls(old(self)@),
            final(self)@ == no_flags(),
    {
        self.state.teardown()
    }
}

impl Default for Context {
    fn default() -> (context: Context)
        ensures
            context@ == no_flags(),
    {
        Self::new()
    }
}

impl<'a> ExpandCall<'a> {
    /// The zero-terminated address to hand to the engine.
    pub closed spec fn address(&self) -> Seq<u8> {
        self.address@
    }

    /// The zero-terminated language codes to hand to the engine, if any
    /// were set.
    pub closed spec fn languages(&self) -> Option<Seq<Seq<u8>>> {
        match self.languages {
            Some(codes) => Some(buffers_of(codes@)),
            None => None,
        }
    }

    /// The zero-terminated address to hand to the engine.
    pub fn address_bytes(&self) -> (bytes: &Vec<u8>)
        ensures
            bytes@ == self.address(),
    {
        &self.address
    }

    /// The zero-terminated language codes to hand to the engine, if any
    /// were set.
    pub fn language_codes(&self) -> (table: Option<&'a Vec<Vec<u8>>>)
        ensures
            match table {
                Some(codes) => self.languages() == Some(buffers_of(codes@)),
                None => self.languages() is None,
            },
    {
        self.languages
    }

    /// Wraps the strings that the engine returned, and releases the lock.
    pub fn complete<'b>(self, array: Vec<&'b [u8]>) -> (expansions: Expansions<'b>)
        ensures
            expansions.raw() == bytes_of(array@),
            expansions.position() == 0,
    {
        Expansions::new(array)
    }
}

impl<'a> ParseCall<'a> {
    /// The zero-terminated address to hand to the engine.
    pub closed spec fn address(&self) -> Seq<u8> {
        self.address@
    }

    /// The zero-terminated address to hand to the engine.
    pub fn address_bytes(&self) -> (bytes: &Vec<u8>)
        ensures
            bytes@ == self.address(),
    {
        &self.address
    }

    /// Wraps the two parallel tables that the engine returned, and releases
    /// the lock.
    pub fn complete<'b>(self, labels: Vec<&'b [u8]>, values: Vec<&'b [u8]>) -> (components:
        Components<'b>)
        requires
            labels@.len() == values@.len(),
        ensures
            components.raw_labels() == bytes_of(labels@),
            components.raw_values() == bytes_of(values@),
            components.position() == 0,
    {
        Components::new(labels, values)
    }
}

/// A context that was initialised for expansion only never admits a parse
/// query: whatever the engine answered during setup and whatever the text,
/// the query ends in `LibpostalNotReady` before the engine is entered.
pub proof fn lemma_expand_only_rejects_parse(opts: InitOptions, answers: SetupAnswers, text: Seq<u8>)
    requires
        opts.expand_address,
        !opts.parse_address,
    ensures
        query_outcome(parse_ready(init_outcome(no_flags(), opts, answers).0), text) == Err::<
            Seq<u8>,
            PostalError,
        >(PostalError::LibpostalNotReady),
{
}

/// A context that was initialised for parsing only never admits an
/// expansion query: whatever the engine answered during setup and whatever
/// the text, the query ends in `LibpostalNotReady` before the engine is
/// entered.
pub proof fn lemma_parse_only_rejects_expand(opts: InitOptions, answers: SetupAnswers, text: Seq<u8>)
    requires
        !opts.expand_address,
        opts.parse_address,
    ensures
        query_outcome(expand_ready(init_outcome(no_flags(), opts, answers).0), text) == Err::<
            Seq<u8>,
            PostalError,
        >(PostalError::LibpostalNotReady),
{
}

/// Where the capability is enabled, a text that holds a zero byte is never
/// handed to the engine: the query ends in `BadCString`, with the offset of
/// the first zero byte. Where the capability is not enabled the same text
/// ends in `LibpostalNotReady`, which is checked first.
pub proof fn lemma_nul_is_rejected(text: Seq<u8>)
    requires
        has_nul(text),
    ensures
        query_outcome(true, text) == Err::<Seq<u8>, PostalError>(
            PostalError::BadCString(first_nul(text) as usize),
        ),
        query_outcome(false, text) == Err::<Seq<u8>, PostalError>(PostalError::LibpostalNotReady),
{
}

/// A query is admitted exactly when the capability is enabled and the text
/// holds no zero byte, and what is then handed to the engine is the text
/// with one zero byte after it.
pub proof fn lemma_query_admitted(ready: bool, text: Seq<u8>)
    ensures
        query_outcome(ready, text) is Ok <==> ready && !has_nul(text),
        query_outcome(ready, text) matches Ok(address) ==> address.len() == text.len() + 1
            && address.last() == 0 && address.drop_last() == text,
{
    if ready && !has_nul(text) {
        assert(terminated(text).drop_last() =~= text);
    }
}

} // verus!
