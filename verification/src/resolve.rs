//! A resolution, step by step. The library decides and the caller acts: the
//! caller locates the binary and runs the subprocess, and tells [`get`] what
//! came of it; `get` says what to do next, and in the end what the data
//! layout is.

use crate::config::{RustcDataLayoutConfig, Sysroot, Tool};
use crate::env::env_vars;
use crate::error::{text_view, Error};
use crate::extract::{extract, extracted};
use crate::invocation::{invocation, planned, Invocation};
use crate::process::{capture, captured_text, ProcessOutcome};
use crate::text::optional_str;
use rustc_hash::FxHashMap;
use vstd::prelude::*;

verus! {

/// What the caller has to report.
#[derive(Debug)]
pub enum Event {
    /// Nothing has been done yet.
    Started,
    /// The binary was looked for: here is its path, or it was not found.
    Located(Option<String>),
    /// The invocation was run: here is how it ended.
    Ran(ProcessOutcome),
}

/// What the caller is to do next.
#[derive(Debug)]
pub enum Action<'a> {
    /// Locate the binary, in the given installation or, without one,
    /// wherever the toolchain is usually found; report [`Event::Located`].
    Locate(Tool, Option<&'a Sysroot>),
    /// Run the invocation and wait for it to end; report [`Event::Ran`].
    Run(Invocation),
    /// Stop: this is the data layout, or the reason why there is none.
    Return(Result<String, Error>),
}

/// The data layout that a run gave: the field of the text it printed. A run
/// that failed has its own failure, and a text without the field has
/// [`Error::FieldNotFound`].
pub open spec fn resolved(outcome: ProcessOutcome) -> Result<Seq<char>, Error> {
    match captured_text(outcome) {
        Ok(text) => extracted(text),
        Err(error) => Err(error),
    }
}

/// `action` is the answer to `event` in a resolution for `config`, `target`
/// and `extra_env`.
///
/// At the start the binary of the configuration is to be located. Once it is
/// located, it is to be run as [`planned`]. Once it has run, the resolution
/// ends with what the run [`resolved`] to. A binary that was not found ends
/// the resolution at once.
pub open spec fn answers(
    config: RustcDataLayoutConfig<'_>,
    target: Option<Seq<char>>,
    extra_env: Map<Seq<char>, Seq<char>>,
    event: Event,
    action: Action<'_>,
) -> bool {
    match event {
        Event::Started => action == Action::Locate(config.spec_tool(), config.spec_sysroot()),
        Event::Located(None) => action == Action::Return(
            Err(Error::ToolNotFound(config.spec_tool())),
        ),
        Event::Located(Some(program)) => action matches Action::Run(run) && run@ == planned(
            config,
            program@,
            target,
            extra_env,
        ),
        Event::Ran(outcome) => action matches Action::Return(layout) && text_view(layout)
            == resolved(outcome),
    }
}

/// A resolution only moves forward. Nothing but the start is answered by a
/// lookup, and the lookup is for the binary of the configuration and no
/// other. Nothing but a binary that was found is answered by a run. What a
/// run gave, good or bad, is answered by the end. So a caller that does as it
/// is told looks once, runs at most once, and is never sent back to try
/// again or to try the other binary.
pub proof fn lemma_steps_forward(
    config: RustcDataLayoutConfig<'_>,
    target: Option<Seq<char>>,
    extra_env: Map<Seq<char>, Seq<char>>,
    event: Event,
    action: Action<'_>,
)
    requires
        answers(config, target, extra_env, event, action),
    ensures
        action is Locate <==> event is Started,
        action matches Action::Locate(tool, _) ==> tool == config.spec_tool(),
        action is Run <==> event matches Event::Located(Some(_)),
        action is Return <==> event is Ran || event matches Event::Located(None),
{
}

/// Takes one step towards the data layout of `target`, or of the host where
/// no target is given: says what is to be done next, given what was done
/// last. See [`answers`] for what is answered to what.
pub fn get<'a>(
    config: RustcDataLayoutConfig<'a>,
    target: Option<&str>,
    extra_env: &FxHashMap<String, String>,
    event: Event,
) -> (action: Action<'a>)
    ensures
        answers(config, optional_str(target), env_vars(*extra_env), event, action),
{
    match event {
        Event::Started => Action::Locate(config.tool(), config.sysroot()),
        Event::Located(None) => Action::Return(Err(Error::ToolNotFound(config.tool()))),
        Event::Located(Some(program)) => Action::Run(
            invocation(config, program, target, extra_env),
        ),
        Event::Ran(outcome) => match capture(outcome) {
            Ok(text) => Action::Return(extract(text.as_str())),
            Err(error) => Action::Return(Err(error)),
        },
    }
}

} // verus!
